use ssam::uapi;
use ssam::{
    build_request_block, decode_control_outcome, decode_request_outcome, notifier_register_desc,
    notifier_unregister_desc, Error, EventDescriptor, EventId, EventRegistry, Request,
};

fn sample_request() -> Request {
    Request { target_category: 2, target_id: 1, command_id: 0x13, instance_id: 7, flags: 0x0003 }
}

#[test]
fn request_block_preserves_every_field() {
    let desc = sample_request();
    let block = build_request_block(&desc, 4, 0x1000, 16, 0x2000).unwrap();
    assert_eq!(block.target_category, 2);
    assert_eq!(block.target_id, 1);
    assert_eq!(block.command_id, 0x13);
    assert_eq!(block.instance_id, 7);
    assert_eq!(block.flags, 0x0003);
    assert_eq!(block.status, 0);
    assert_eq!(block.payload.data, 0x1000);
    assert_eq!(block.payload.length, 4);
    assert_eq!(block.payload.__pad, [0u8; 6]);
    assert_eq!(block.response.data, 0x2000);
    assert_eq!(block.response.length, 16);
    assert_eq!(block.response.__pad, [0u8; 6]);
}

#[test]
fn request_block_wire_roundtrip() {
    let block = uapi::Request {
        target_category: 0xaa,
        target_id: 0xbb,
        command_id: 0xcc,
        instance_id: 0xdd,
        flags: 0x0102,
        status: -2,
        payload: uapi::RequestPayload {
            data: 0x0807_0605_0403_0201,
            length: 0x1234,
            __pad: [9, 8, 7, 6, 5, 4],
        },
        response: uapi::RequestResponse {
            data: 0x1817_1615_1413_1211,
            length: 0x5678,
            __pad: [1, 2, 3, 4, 5, 6],
        },
    };
    let bytes = uapi::encode_request(&block);
    assert_eq!(bytes.len(), uapi::REQUEST_BLOCK_LEN);
    let expected: Vec<u8> = vec![
        0xaa, 0xbb, 0xcc, 0xdd, // the four identifying bytes
        0x02, 0x01, // flags, little endian
        0xfe, 0xff, // status -2, two's complement little endian
        0x01, 0x02, 0x03, 0x04, 0x05, 0x06, 0x07, 0x08, // payload address
        0x34, 0x12, // payload length
        9, 8, 7, 6, 5, 4, // payload padding
        0x11, 0x12, 0x13, 0x14, 0x15, 0x16, 0x17, 0x18, // response address
        0x78, 0x56, // response length
        1, 2, 3, 4, 5, 6, // response padding
    ];
    assert_eq!(bytes, expected);
    let back = uapi::decode_request(&bytes);
    assert_eq!(back, block);
}

#[test]
fn empty_buffers_get_zero_addresses() {
    let desc = sample_request();
    let block = build_request_block(&desc, 0, 0xdead_beef, 0, 0xcafe).unwrap();
    assert_eq!(block.payload.data, 0);
    assert_eq!(block.payload.length, 0);
    assert_eq!(block.response.data, 0);
    assert_eq!(block.response.length, 0);
}

#[test]
fn oversized_payload_rejected_before_transport() {
    let desc = sample_request();
    let mut transport_calls = 0u32;
    let outcome: Result<u16, Error> = match build_request_block(&desc, 0x1_0000, 0x1000, 0, 0) {
        Ok(block) => {
            transport_calls += 1;
            decode_request_outcome(Ok(()), block.status, 0)
        }
        Err(e) => Err(e),
    };
    assert_eq!(transport_calls, 0);
    assert_eq!(outcome, Err(Error::InvalidInput));
}

#[test]
fn largest_payload_accepted() {
    let desc = sample_request();
    let block = build_request_block(&desc, 0xffff, 0x1000, 0, 0).unwrap();
    assert_eq!(block.payload.length, 0xffff);
}

#[test]
fn long_response_clamped_not_rejected() {
    let desc = sample_request();
    let block = build_request_block(&desc, 0, 0, 0x1_0005, 0x2000).unwrap();
    assert_eq!(block.response.length, 0xffff);
    assert_eq!(block.response.data, 0x2000);
}

#[test]
fn driver_status_minus_five_is_errno_five() {
    let outcome = decode_request_outcome(Ok(()), -5, 0);
    assert_eq!(outcome, Err(Error::Os(5)));
    assert_eq!(Error::Os(5).raw_os_error(), Some(5));
}

#[test]
fn nonnegative_status_returns_response_length() {
    assert_eq!(decode_request_outcome(Ok(()), 0, 42), Ok(42));
    assert_eq!(decode_request_outcome(Ok(()), 3, 7), Ok(7));
}

#[test]
fn transport_failure_takes_precedence_over_stale_status() {
    let outcome = decode_request_outcome(Err(13), -5, 9);
    assert_eq!(outcome, Err(Error::Os(13)));
}

#[test]
fn most_negative_status_still_decodes() {
    assert_eq!(decode_request_outcome(Ok(()), -32768, 0), Err(Error::Os(32768)));
}

#[test]
fn invalid_input_carries_no_os_code() {
    assert_eq!(Error::InvalidInput.raw_os_error(), None);
}

#[test]
fn control_outcome_follows_transport() {
    assert_eq!(decode_control_outcome(Ok(())), Ok(()));
    assert_eq!(decode_control_outcome(Err(1)), Err(Error::Os(1)));
}

// Registering a category twice and unregistering once: this layer keeps no
// state, so each call marshals its own descriptor correctly and nothing
// more is promised — whether the end state is registered is the driver's
// contract.
#[test]
fn notifier_register_twice_unregister_once() {
    let first = notifier_register_desc(5, 10);
    let second = notifier_register_desc(5, 10);
    assert_eq!(first, second);
    assert_eq!(first.target_category, 5);
    assert_eq!(first.priority, 10);
    let off = notifier_unregister_desc(5);
    assert_eq!(off.target_category, 5);
    assert_eq!(off.priority, 0);
}

#[test]
fn notifier_desc_wire_bytes() {
    let d = uapi::NotifierDesc { priority: -1, target_category: 9 };
    let bytes = uapi::encode_notifier_desc(&d);
    assert_eq!(bytes, vec![0xff, 0xff, 0xff, 0xff, 9]);
    let up = uapi::NotifierDesc { priority: 0x0102_0304, target_category: 1 };
    assert_eq!(uapi::encode_notifier_desc(&up), vec![0x04, 0x03, 0x02, 0x01, 1]);
}

#[test]
fn event_descriptor_converts_and_encodes() {
    let desc = EventDescriptor {
        reg: EventRegistry { target_category: 2, target_id: 1, cid_enable: 0x0b, cid_disable: 0x0c },
        id: EventId { target_category: 2, instance: 0 },
        flags: 0x01,
    };
    let wire = uapi::EventDesc::from(&desc);
    assert_eq!(wire.reg.target_category, 2);
    assert_eq!(wire.reg.target_id, 1);
    assert_eq!(wire.reg.cid_enable, 0x0b);
    assert_eq!(wire.reg.cid_disable, 0x0c);
    assert_eq!(wire.id.target_category, 2);
    assert_eq!(wire.id.instance, 0);
    assert_eq!(wire.flags, 0x01);
    assert_eq!(uapi::encode_event_desc(&wire), vec![2, 1, 0x0b, 0x0c, 2, 0, 0x01]);
}

#[test]
fn registry_and_id_convert_field_for_field() {
    let reg = EventRegistry { target_category: 3, target_id: 4, cid_enable: 5, cid_disable: 6 };
    let wire = uapi::EventRegistry::from(&reg);
    assert_eq!(wire.target_category, 3);
    assert_eq!(wire.target_id, 4);
    assert_eq!(wire.cid_enable, 5);
    assert_eq!(wire.cid_disable, 6);
    let id = EventId { target_category: 3, instance: 9 };
    let wire_id = uapi::EventId::from(&id);
    assert_eq!(wire_id.target_category, 3);
    assert_eq!(wire_id.instance, 9);
}
