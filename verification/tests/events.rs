use ssam::event::{Event, FrameAssembler};
use ssam::uapi;

fn frame(tc: u8, tid: u8, cid: u8, iid: u8, payload: &[u8]) -> Vec<u8> {
    let hdr = uapi::EventHeader {
        target_category: tc,
        target_id: tid,
        command_id: cid,
        instance_id: iid,
        length: payload.len() as u16,
    };
    let mut v = uapi::encode_event_header(&hdr);
    v.extend_from_slice(payload);
    v
}

/// Drives an assembler over `stream`, never feeding more than `chunk_cap`
/// bytes at a time (and never more than the assembler asks for), the way
/// a reader drives it over however the underlying reads are chunked.
fn run_chunked(stream: &[u8], chunk_cap: usize) -> Vec<Event> {
    let mut fab = FrameAssembler::new();
    let mut events = Vec::new();
    let mut pos = 0usize;
    while pos < stream.len() {
        let want = fab.wanted();
        let n = want.min(chunk_cap).min(stream.len() - pos);
        if let Some(ev) = fab.push(&stream[pos..pos + n]) {
            events.push(ev);
        }
        pos += n;
    }
    events
}

#[test]
fn known_header_roundtrip() {
    let hdr = uapi::EventHeader {
        target_category: 2,
        target_id: 1,
        command_id: 0x13,
        instance_id: 0,
        length: 4,
    };
    let bytes = uapi::encode_event_header(&hdr);
    assert_eq!(bytes, vec![2, 1, 0x13, 0, 4, 0]);
    let back = uapi::decode_event_header(&bytes);
    assert_eq!(back, hdr);
}

#[test]
fn known_frame_decodes_to_exact_event() {
    let stream = frame(2, 1, 0x13, 0, &[0x01, 0x02, 0x03, 0x04]);
    let events = run_chunked(&stream, usize::MAX);
    assert_eq!(events.len(), 1);
    let ev = &events[0];
    assert_eq!(ev.target_category, 2);
    assert_eq!(ev.target_id, 1);
    assert_eq!(ev.command_id, 0x13);
    assert_eq!(ev.instance_id, 0);
    assert_eq!(ev.data, vec![1, 2, 3, 4]);
}

#[test]
fn zero_length_payload_gives_empty_data() {
    let stream = frame(7, 8, 9, 10, &[]);
    let events = run_chunked(&stream, usize::MAX);
    assert_eq!(events.len(), 1);
    assert_eq!(events[0].target_category, 7);
    assert!(events[0].data.is_empty());
    assert_eq!(events[0].data, Vec::<u8>::new());
}

#[test]
fn chunking_does_not_change_the_events() {
    let mut stream = Vec::new();
    stream.extend_from_slice(&frame(2, 1, 0x13, 0, &[1, 2, 3, 4]));
    stream.extend_from_slice(&frame(7, 8, 9, 10, &[]));
    stream.extend_from_slice(&frame(0xaa, 0xbb, 0xcc, 0xdd, &[0xfe]));
    stream.extend_from_slice(&frame(1, 1, 1, 1, &[0; 300]));

    let unchunked = run_chunked(&stream, usize::MAX);
    assert_eq!(unchunked.len(), 4);
    for cap in [1, 2, 3, 5, 7, 64] {
        let chunked = run_chunked(&stream, cap);
        assert_eq!(chunked, unchunked);
    }
}

#[test]
fn assembler_asks_for_exactly_the_missing_bytes() {
    let mut fab = FrameAssembler::new();
    assert_eq!(fab.wanted(), uapi::EVENT_HEADER_LEN);
    assert_eq!(fab.push(&[2, 1, 0x13]), None);
    assert_eq!(fab.wanted(), 3);
    assert_eq!(fab.push(&[0, 4, 0]), None);
    assert_eq!(fab.wanted(), 4);
    assert_eq!(fab.push(&[9, 9]), None);
    assert_eq!(fab.wanted(), 2);
    let ev = fab.push(&[9, 9]).unwrap();
    assert_eq!(ev.data, vec![9, 9, 9, 9]);
    assert_eq!(fab.wanted(), uapi::EVENT_HEADER_LEN);
}

#[test]
fn partial_frame_yields_nothing() {
    let stream = frame(2, 1, 0x13, 0, &[1, 2, 3, 4]);
    let events = run_chunked(&stream[..stream.len() - 1], usize::MAX);
    assert!(events.is_empty());
}

#[test]
fn largest_declared_payload_assembles() {
    let payload: Vec<u8> = (0..0xffffu32).map(|i| (i % 251) as u8).collect();
    let stream = frame(1, 2, 3, 4, &payload);
    let events = run_chunked(&stream, 4096);
    assert_eq!(events.len(), 1);
    assert_eq!(events[0].data, payload);
}
