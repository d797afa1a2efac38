//! Wire layout of the control-file interface: the packed structures exchanged
//! with the kernel driver, stated as an explicit little-endian byte encoding.
//!
//! Every structure here is a plain-value mirror of a fixed, packed kernel
//! block. The byte encoding below (field order, field width, signedness,
//! reserved padding) is the on-the-wire contract: the `spec_encode_*`
//! functions say exactly which byte holds which field.

use vstd::prelude::*;
use vstd::bytes::{spec_u16_to_le_bytes, spec_u16_from_le_bytes};
use vstd::bytes::{spec_u32_to_le_bytes, spec_u64_to_le_bytes};

verus! {

/// Flag bit for `Request.flags`: the request expects a response payload.
pub const SSAM_CDEV_REQUEST_HAS_RESPONSE: u16 = 0x01;

/// Flag bit for `Request.flags`: the request is sent unsequenced.
pub const SSAM_CDEV_REQUEST_UNSEQUENCED: u16 = 0x02;

/// Size in bytes of the packed `EventHeader` on the wire.
pub const EVENT_HEADER_LEN: usize = 6;

/// Payload descriptor inside a wire request block: the raw address of the
/// caller's payload buffer, its length, and reserved padding.
#[derive(Debug, Clone, Copy, PartialEq, Eq)]
pub struct RequestPayload {
    pub data: u64,
    pub length: u16,
    pub __pad: [u8; 6],
}

/// Response descriptor inside a wire request block: the raw address of the
/// caller's response buffer, its length, and reserved padding.
#[derive(Debug, Clone, Copy, PartialEq, Eq)]
pub struct RequestResponse {
    pub data: u64,
    pub length: u16,
    pub __pad: [u8; 6],
}

/// The wire request block handed to the driver for a request/response
/// control call. The driver writes `status` and `response.length` back.
#[derive(Debug, Clone, Copy, PartialEq, Eq)]
pub struct Request {
    pub target_category: u8,
    pub target_id: u8,
    pub command_id: u8,
    pub instance_id: u8,
    pub flags: u16,
    pub status: i16,
    pub payload: RequestPayload,
    pub response: RequestResponse,
}

/// Wire descriptor for registering or unregistering a notifier.
#[derive(Debug, Clone, Copy, PartialEq, Eq)]
pub struct NotifierDesc {
    pub priority: i32,
    pub target_category: u8,
}

/// Wire identification of the commands that toggle a class of events.
#[derive(Debug, Clone, Copy, PartialEq, Eq)]
pub struct EventRegistry {
    pub target_category: u8,
    pub target_id: u8,
    pub cid_enable: u8,
    pub cid_disable: u8,
}

/// Wire identification of one event source instance.
#[derive(Debug, Clone, Copy, PartialEq, Eq)]
pub struct EventId {
    pub target_category: u8,
    pub instance: u8,
}

/// Wire descriptor for enabling or disabling a class of events.
#[derive(Debug, Clone, Copy, PartialEq, Eq)]
pub struct EventDesc {
    pub reg: EventRegistry,
    pub id: EventId,
    pub flags: u8,
}

/// The packed header that precedes each event payload in the byte stream
/// read from the device file: four identifying bytes, then the payload
/// length as a little-endian `u16`.
#[derive(Debug, Clone, Copy, PartialEq, Eq)]
pub struct EventHeader {
    pub target_category: u8,
    pub target_id: u8,
    pub command_id: u8,
    pub instance_id: u8,
    pub length: u16,
}

/// Size in bytes of the packed wire request block.
pub const REQUEST_BLOCK_LEN: usize = 40;

/// Size in bytes of the packed `NotifierDesc` on the wire.
pub const NOTIFIER_DESC_LEN: usize = 5;

/// Size in bytes of the packed `EventDesc` on the wire.
pub const EVENT_DESC_LEN: usize = 7;

/// The unsigned 16-bit pattern that carries an `i16` on the wire, two's
/// complement.
pub open spec fn spec_i16_as_u16(x: i16) -> u16 {
    if x >= 0 {
        x as u16
    } else {
        (x + 0x10000) as u16
    }
}

/// The unsigned 32-bit pattern that carries an `i32` on the wire, two's
/// complement.
pub open spec fn spec_i32_as_u32(x: i32) -> u32 {
    if x >= 0 {
        x as u32
    } else {
        (x + 0x1_0000_0000) as u32
    }
}

/// The exact bytes of a payload descriptor on the wire: buffer address,
/// length, six reserved bytes.
pub open spec fn spec_encode_request_payload(p: RequestPayload) -> Seq<u8> {
    spec_u64_to_le_bytes(p.data) + spec_u16_to_le_bytes(p.length) + p.__pad@
}

/// The exact bytes of a response descriptor on the wire: buffer address,
/// length, six reserved bytes.
pub open spec fn spec_encode_request_response(p: RequestResponse) -> Seq<u8> {
    spec_u64_to_le_bytes(p.data) + spec_u16_to_le_bytes(p.length) + p.__pad@
}

/// The exact bytes of the wire request block: the four identifying bytes,
/// flags, status, then the payload and response descriptors, packed in
/// that order with nothing between them.
pub open spec fn spec_encode_request(r: Request) -> Seq<u8> {
    seq![r.target_category, r.target_id, r.command_id, r.instance_id]
        + spec_u16_to_le_bytes(r.flags)
        + spec_u16_to_le_bytes(spec_i16_as_u16(r.status))
        + spec_encode_request_payload(r.payload)
        + spec_encode_request_response(r.response)
}

/// The exact bytes of a `NotifierDesc` on the wire: the priority, then the
/// category byte.
pub open spec fn spec_encode_notifier_desc(d: NotifierDesc) -> Seq<u8> {
    spec_u32_to_le_bytes(spec_i32_as_u32(d.priority)) + seq![d.target_category]
}

/// The exact bytes of an `EventDesc` on the wire: the registry's four
/// bytes, the id's two, then the flags byte.
pub open spec fn spec_encode_event_desc(d: EventDesc) -> Seq<u8> {
    seq![
        d.reg.target_category,
        d.reg.target_id,
        d.reg.cid_enable,
        d.reg.cid_disable,
        d.id.target_category,
        d.id.instance,
        d.flags,
    ]
}

/// The exact bytes of an `EventHeader` on the wire.
pub open spec fn spec_encode_event_header(h: EventHeader) -> Seq<u8> {
    seq![h.target_category, h.target_id, h.command_id, h.instance_id]
        + spec_u16_to_le_bytes(h.length)
}

/// The header whose encoding is the first `EVENT_HEADER_LEN` bytes of `s`.
pub open spec fn spec_decode_event_header(s: Seq<u8>) -> EventHeader
    recommends
        s.len() >= EVENT_HEADER_LEN,
{
    EventHeader {
        target_category: s[0],
        target_id: s[1],
        command_id: s[2],
        instance_id: s[3],
        length: spec_u16_from_le_bytes(s.subrange(4, 6)),
    }
}

/// Decoding inverts encoding: the six encoded bytes give back every header
/// field exactly.
pub proof fn lemma_event_header_roundtrip(h: EventHeader)
    ensures
        spec_encode_event_header(h).len() == EVENT_HEADER_LEN,
        spec_decode_event_header(spec_encode_event_header(h)) == h,
{
    vstd::bytes::lemma_auto_spec_u16_to_from_le_bytes();
    assert(spec_encode_event_header(h).subrange(4, 6) =~= spec_u16_to_le_bytes(h.length));
}

/// Reads an `EventHeader` out of the first six bytes of `bytes`.
pub fn decode_event_header(bytes: &[u8]) -> (h: EventHeader)
    requires
        bytes@.len() >= EVENT_HEADER_LEN,
    ensures
        h == spec_decode_event_header(bytes@),
{
    let length: u16 = vstd::bytes::u16_from_le_bytes(&bytes[4..6]);
    EventHeader {
        target_category: bytes[0],
        target_id: bytes[1],
        command_id: bytes[2],
        instance_id: bytes[3],
        length,
    }
}

/// Writes the six wire bytes of an `EventHeader`.
pub fn encode_event_header(h: &EventHeader) -> (out: Vec<u8>)
    ensures
        out@ == spec_encode_event_header(*h),
{
    let mut out: Vec<u8> = Vec::new();
    out.push(h.target_category);
    out.push(h.target_id);
    out.push(h.command_id);
    out.push(h.instance_id);
    let mut len_bytes = vstd::bytes::u16_to_le_bytes(h.length);
    out.append(&mut len_bytes);
    proof {
        assert(out@ =~= spec_encode_event_header(*h));
    }
    out
}

/// The 16-bit two's-complement pattern of a signed status field.
pub fn i16_as_u16(x: i16) -> (r: u16)
    ensures
        r == spec_i16_as_u16(x),
{
    if x >= 0 {
        x as u16
    } else {
        ((x as i32) + 0x10000) as u16
    }
}

/// The signed value a 16-bit two's-complement wire pattern carries.
pub fn u16_as_i16(x: u16) -> (r: i16)
    ensures
        spec_i16_as_u16(r) == x,
{
    if x < 0x8000 {
        x as i16
    } else {
        ((x as i32) - 0x10000) as i16
    }
}

/// The 32-bit two's-complement pattern of a signed priority field.
pub fn i32_as_u32(x: i32) -> (r: u32)
    ensures
        r == spec_i32_as_u32(x),
{
    if x >= 0 {
        x as u32
    } else {
        ((x as i64) + 0x1_0000_0000) as u32
    }
}

/// The signed value a 32-bit two's-complement wire pattern carries.
pub fn u32_as_i32(x: u32) -> (r: i32)
    ensures
        spec_i32_as_u32(r) == x,
{
    if x < 0x8000_0000 {
        x as i32
    } else {
        ((x as i64) - 0x1_0000_0000) as i32
    }
}

/// Writes the forty wire bytes of a request block.
pub fn encode_request(r: &Request) -> (out: Vec<u8>)
    ensures
        out@ == spec_encode_request(*r),
        out@.len() == REQUEST_BLOCK_LEN,
{
    let mut out: Vec<u8> = Vec::new();
    out.push(r.target_category);
    out.push(r.target_id);
    out.push(r.command_id);
    out.push(r.instance_id);
    let mut flags = vstd::bytes::u16_to_le_bytes(r.flags);
    out.append(&mut flags);
    let mut status = vstd::bytes::u16_to_le_bytes(i16_as_u16(r.status));
    out.append(&mut status);
    let mut p_data = vstd::bytes::u64_to_le_bytes(r.payload.data);
    out.append(&mut p_data);
    let mut p_len = vstd::bytes::u16_to_le_bytes(r.payload.length);
    out.append(&mut p_len);
    let mut i: usize = 0;
    while i < 6
        invariant
            i <= 6,
            out@ == seq![
                r.target_category,
                r.target_id,
                r.command_id,
                r.instance_id,
            ] + spec_u16_to_le_bytes(r.flags) + spec_u16_to_le_bytes(spec_i16_as_u16(r.status))
                + spec_u64_to_le_bytes(r.payload.data) + spec_u16_to_le_bytes(r.payload.length)
                + r.payload.__pad@.subrange(0, i as int),
        decreases 6 - i,
    {
        out.push(r.payload.__pad[i]);
        proof {
            assert(r.payload.__pad@.subrange(0, i + 1) =~= r.payload.__pad@.subrange(
                0,
                i as int,
            ).push(r.payload.__pad@[i as int]));
        }
        i += 1;
    }
    proof {
        assert(r.payload.__pad@.subrange(0, 6) =~= r.payload.__pad@);
    }
    let mut q_data = vstd::bytes::u64_to_le_bytes(r.response.data);
    out.append(&mut q_data);
    let mut q_len = vstd::bytes::u16_to_le_bytes(r.response.length);
    out.append(&mut q_len);
    let mut j: usize = 0;
    while j < 6
        invariant
            j <= 6,
            out@ == seq![
                r.target_category,
                r.target_id,
                r.command_id,
                r.instance_id,
            ] + spec_u16_to_le_bytes(r.flags) + spec_u16_to_le_bytes(spec_i16_as_u16(r.status))
                + spec_encode_request_payload(r.payload) + spec_u64_to_le_bytes(r.response.data)
                + spec_u16_to_le_bytes(r.response.length) + r.response.__pad@.subrange(0, j as int),
        decreases 6 - j,
    {
        out.push(r.response.__pad[j]);
        proof {
            assert(r.response.__pad@.subrange(0, j + 1) =~= r.response.__pad@.subrange(
                0,
                j as int,
            ).push(r.response.__pad@[j as int]));
        }
        j += 1;
    }
    proof {
        vstd::bytes::lemma_auto_spec_u16_to_from_le_bytes();
        vstd::bytes::lemma_auto_spec_u64_to_from_le_bytes();
        assert(r.response.__pad@.subrange(0, 6) =~= r.response.__pad@);
        assert(out@ =~= spec_encode_request(*r));
    }
    out
}

/// Reads a request block out of its forty wire bytes; every field of the
/// result, padding included, is pinned by the bytes.
pub fn decode_request(bytes: &[u8]) -> (r: Request)
    requires
        bytes@.len() == REQUEST_BLOCK_LEN,
    ensures
        spec_encode_request(r) == bytes@,
{
    proof {
        vstd::bytes::lemma_auto_spec_u16_to_from_le_bytes();
        vstd::bytes::lemma_auto_spec_u64_to_from_le_bytes();
    }
    let r = Request {
        target_category: bytes[0],
        target_id: bytes[1],
        command_id: bytes[2],
        instance_id: bytes[3],
        flags: vstd::bytes::u16_from_le_bytes(&bytes[4..6]),
        status: u16_as_i16(vstd::bytes::u16_from_le_bytes(&bytes[6..8])),
        payload: RequestPayload {
            data: vstd::bytes::u64_from_le_bytes(&bytes[8..16]),
            length: vstd::bytes::u16_from_le_bytes(&bytes[16..18]),
            __pad: [bytes[18], bytes[19], bytes[20], bytes[21], bytes[22], bytes[23]],
        },
        response: RequestResponse {
            data: vstd::bytes::u64_from_le_bytes(&bytes[24..32]),
            length: vstd::bytes::u16_from_le_bytes(&bytes[32..34]),
            __pad: [bytes[34], bytes[35], bytes[36], bytes[37], bytes[38], bytes[39]],
        },
    };
    proof {
        assert(spec_encode_request(r) =~= bytes@);
    }
    r
}

/// Two's-complement patterns are faithful: equal patterns carry equal
/// signed values.
pub proof fn lemma_i16_pattern_injective(x: i16, y: i16)
    requires
        spec_i16_as_u16(x) == spec_i16_as_u16(y),
    ensures
        x == y,
{
}

/// The wire bytes pin the block down bit for bit: two request blocks with
/// the same encoding are the same block, every field included. Together
/// with `encode_request` and `decode_request` this says that marshalling
/// through the wire layout loses nothing.
pub proof fn lemma_request_bytes_pin_fields(a: Request, b: Request)
    requires
        spec_encode_request(a) == spec_encode_request(b),
    ensures
        a == b,
{
    vstd::bytes::lemma_auto_spec_u16_to_from_le_bytes();
    vstd::bytes::lemma_auto_spec_u64_to_from_le_bytes();
    let ea = spec_encode_request(a);
    let eb = spec_encode_request(b);
    assert(ea[0] == a.target_category && ea[1] == a.target_id && ea[2] == a.command_id && ea[3]
        == a.instance_id);
    assert(eb[0] == b.target_category && eb[1] == b.target_id && eb[2] == b.command_id && eb[3]
        == b.instance_id);
    assert(ea.subrange(4, 6) =~= spec_u16_to_le_bytes(a.flags));
    assert(eb.subrange(4, 6) =~= spec_u16_to_le_bytes(b.flags));
    assert(a.flags == b.flags);
    assert(ea.subrange(6, 8) =~= spec_u16_to_le_bytes(spec_i16_as_u16(a.status)));
    assert(eb.subrange(6, 8) =~= spec_u16_to_le_bytes(spec_i16_as_u16(b.status)));
    lemma_i16_pattern_injective(a.status, b.status);
    assert(ea.subrange(8, 16) =~= spec_u64_to_le_bytes(a.payload.data));
    assert(eb.subrange(8, 16) =~= spec_u64_to_le_bytes(b.payload.data));
    assert(a.payload.data == b.payload.data);
    assert(ea.subrange(16, 18) =~= spec_u16_to_le_bytes(a.payload.length));
    assert(eb.subrange(16, 18) =~= spec_u16_to_le_bytes(b.payload.length));
    assert(a.payload.length == b.payload.length);
    assert(ea.subrange(18, 24) =~= a.payload.__pad@);
    assert(eb.subrange(18, 24) =~= b.payload.__pad@);
    assert(a.payload.__pad =~= b.payload.__pad);
    assert(ea.subrange(24, 32) =~= spec_u64_to_le_bytes(a.response.data));
    assert(eb.subrange(24, 32) =~= spec_u64_to_le_bytes(b.response.data));
    assert(a.response.data == b.response.data);
    assert(ea.subrange(32, 34) =~= spec_u16_to_le_bytes(a.response.length));
    assert(eb.subrange(32, 34) =~= spec_u16_to_le_bytes(b.response.length));
    assert(a.response.length == b.response.length);
    assert(ea.subrange(34, 40) =~= a.response.__pad@);
    assert(eb.subrange(34, 40) =~= b.response.__pad@);
    assert(a.response.__pad =~= b.response.__pad);
    assert(a.payload == b.payload);
    assert(a.response == b.response);
}

/// Writes the five wire bytes of a `NotifierDesc`.
pub fn encode_notifier_desc(d: &NotifierDesc) -> (out: Vec<u8>)
    ensures
        out@ == spec_encode_notifier_desc(*d),
        out@.len() == NOTIFIER_DESC_LEN,
{
    let mut out = vstd::bytes::u32_to_le_bytes(i32_as_u32(d.priority));
    out.push(d.target_category);
    proof {
        assert(out@ =~= spec_encode_notifier_desc(*d));
    }
    out
}

/// Writes the seven wire bytes of an `EventDesc`.
pub fn encode_event_desc(d: &EventDesc) -> (out: Vec<u8>)
    ensures
        out@ == spec_encode_event_desc(*d),
        out@.len() == EVENT_DESC_LEN,
{
    let mut out: Vec<u8> = Vec::new();
    out.push(d.reg.target_category);
    out.push(d.reg.target_id);
    out.push(d.reg.cid_enable);
    out.push(d.reg.cid_disable);
    out.push(d.id.target_category);
    out.push(d.id.instance);
    out.push(d.flags);
    proof {
        assert(out@ =~= spec_encode_event_desc(*d));
    }
    out
}

} // verus!
