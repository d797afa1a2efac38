//! The event stream: framed events parsed out of the byte stream read from
//! the device file, and the resumable assembler that builds one frame at a
//! time from however the underlying reads happen to be chunked.

use vstd::prelude::*;
use crate::uapi;
use crate::uapi::EVENT_HEADER_LEN;

verus! {

/// One framed event as handed to the caller: the four identifying header
/// bytes and the payload, owned.
#[derive(Debug, Clone, PartialEq, Eq)]
pub struct Event {
    pub target_category: u8,
    pub target_id: u8,
    pub command_id: u8,
    pub instance_id: u8,
    pub data: Vec<u8>,
}

/// The mathematical value of an `Event`: its header fields and the payload
/// as a byte sequence.
pub struct EventAbs {
    pub target_category: u8,
    pub target_id: u8,
    pub command_id: u8,
    pub instance_id: u8,
    pub data: Seq<u8>,
}

impl View for Event {
    type V = EventAbs;

    open spec fn view(&self) -> EventAbs {
        EventAbs {
            target_category: self.target_category,
            target_id: self.target_id,
            command_id: self.command_id,
            instance_id: self.instance_id,
            data: self.data@,
        }
    }
}

/// The payload length a frame's first six bytes declare.
pub open spec fn frame_payload_len(s: Seq<u8>) -> int
    recommends
        s.len() >= EVENT_HEADER_LEN,
{
    uapi::spec_decode_event_header(s).length as int
}

/// Total length of the frame whose header opens `s`: header plus declared
/// payload.
pub open spec fn frame_len(s: Seq<u8>) -> int
    recommends
        s.len() >= EVENT_HEADER_LEN,
{
    EVENT_HEADER_LEN + frame_payload_len(s)
}

/// `s` is exactly one whole frame: a full header and exactly the declared
/// number of payload bytes.
pub open spec fn is_complete_frame(s: Seq<u8>) -> bool {
    s.len() >= EVENT_HEADER_LEN && s.len() == frame_len(s)
}

/// `s` is a proper prefix of one frame: more bytes are still needed before
/// an event can be produced.
pub open spec fn is_partial_frame(s: Seq<u8>) -> bool {
    if s.len() < EVENT_HEADER_LEN {
        true
    } else {
        s.len() < frame_len(s)
    }
}

/// How many bytes are still missing before the frame being accumulated in
/// `s` is complete: first the rest of the header, then the rest of the
/// declared payload.
pub open spec fn frame_missing(s: Seq<u8>) -> int {
    if s.len() < EVENT_HEADER_LEN {
        EVENT_HEADER_LEN - s.len()
    } else {
        frame_len(s) - s.len()
    }
}

/// The event a complete frame decodes to: header fields from the first six
/// bytes, payload the rest.
pub open spec fn frame_event(s: Seq<u8>) -> EventAbs
    recommends
        is_complete_frame(s),
{
    let h = uapi::spec_decode_event_header(s);
    EventAbs {
        target_category: h.target_category,
        target_id: h.target_id,
        command_id: h.command_id,
        instance_id: h.instance_id,
        data: s.subrange(EVENT_HEADER_LEN as int, s.len() as int),
    }
}

/// Resumable assembler for one event frame.
///
/// It accumulates the bytes of the current frame, however the underlying
/// reads are chunked, and yields the completed `Event` the moment the last
/// declared payload byte arrives. Its abstract value (`self@`) is the byte
/// sequence of the still incomplete frame accumulated so far; a driver asks
/// `wanted` how many bytes it may read next, so that no read can run past
/// the end of the current frame, and hands whatever the read returned to
/// `push`. Dropping the assembler discards the partial frame.
#[derive(Debug)]
pub struct FrameAssembler {
    buf: Vec<u8>,
}

impl View for FrameAssembler {
    type V = Seq<u8>;

    closed spec fn view(&self) -> Seq<u8> {
        self.buf@
    }
}

impl FrameAssembler {
    /// The assembler only ever holds a proper prefix of a frame: completed
    /// frames are handed out at once and never retained.
    pub open spec fn wf(&self) -> bool {
        is_partial_frame(self@)
    }

    /// A fresh assembler, at a frame boundary.
    pub fn new() -> (a: FrameAssembler)
        ensures
            a.wf(),
            a@ == Seq::<u8>::empty(),
    {
        FrameAssembler { buf: Vec::new() }
    }

    /// How many bytes the current frame still misses. A read of at most
    /// this many bytes cannot run past the frame's end.
    pub fn wanted(&self) -> (n: usize)
        requires
            self.wf(),
        ensures
            n == frame_missing(self@),
            1 <= n <= EVENT_HEADER_LEN + 0xffff,
    {
        if self.buf.len() < EVENT_HEADER_LEN {
            EVENT_HEADER_LEN - self.buf.len()
        } else {
            let h = uapi::decode_event_header(self.buf.as_slice());
            EVENT_HEADER_LEN + h.length as usize - self.buf.len()
        }
    }

    /// Feeds the bytes one read obtained. The chunk must not be larger than
    /// `wanted` said, so it cannot span past the current frame's end: the
    /// assembler either completes exactly this frame with it, yielding the
    /// decoded `Event` and resetting to the next frame boundary, or keeps
    /// every byte for the next attempt. Either way no byte is duplicated or
    /// dropped, which is what makes the result independent of how the
    /// stream was chunked.
    pub fn push(&mut self, chunk: &[u8]) -> (r: Option<Event>)
        requires
            old(self).wf(),
            chunk@.len() <= frame_missing(old(self)@),
        ensures
            final(self).wf(),
            is_complete_frame(old(self)@ + chunk@) ==> (r matches Some(ev)
                && ev@ == frame_event(old(self)@ + chunk@)
                && final(self)@ == Seq::<u8>::empty()),
            !is_complete_frame(old(self)@ + chunk@) ==> (r is None
                && final(self)@ == old(self)@ + chunk@),
            final(self)@ == push_rest(old(self)@, chunk@),
            push_events(old(self)@, chunk@) == (match r {
                Some(ev) => seq![ev@],
                None => Seq::<EventAbs>::empty(),
            }),
    {
        let ghost s = old(self)@ + chunk@;
        let mut i: usize = 0;
        while i < chunk.len()
            invariant
                i <= chunk@.len(),
                self.buf@ == old(self)@ + chunk@.subrange(0, i as int),
            decreases chunk@.len() - i,
        {
            self.buf.push(chunk[i]);
            proof {
                assert(self.buf@ =~= old(self)@ + chunk@.subrange(0, i + 1));
            }
            i += 1;
        }
        proof {
            assert(chunk@.subrange(0, chunk@.len() as int) =~= chunk@);
        }
        assert(self.buf@ == s);

        if self.buf.len() < EVENT_HEADER_LEN {
            return None;
        }

        proof {
            lemma_frame_prefix_pins_header(old(self)@, chunk@);
        }
        let h = uapi::decode_event_header(self.buf.as_slice());
        let total: usize = EVENT_HEADER_LEN + h.length as usize;
        if self.buf.len() < total {
            return None;
        }
        assert(self.buf.len() == total);
        assert(is_complete_frame(s));

        let payload = vstd::slice::slice_subrange(self.buf.as_slice(), EVENT_HEADER_LEN, total);
        let data = vstd::slice::slice_to_vec(payload);
        let event = Event {
            target_category: h.target_category,
            target_id: h.target_id,
            command_id: h.command_id,
            instance_id: h.instance_id,
            data,
        };
        self.buf.clear();
        Some(event)
    }
}

/// No frame is ever produced with a mismatched buffer: the event a
/// complete frame decodes to carries exactly as many payload bytes as the
/// length its header declared — zero declared bytes give an empty payload,
/// present but empty.
pub proof fn lemma_event_data_matches_declared_length(s: Seq<u8>)
    requires
        is_complete_frame(s),
    ensures
        frame_event(s).data.len() == frame_payload_len(s),
{
}

/// The events a byte stream parses to: greedily, one self-delimiting frame
/// after the other, stopping at the first frame the stream cuts short.
pub open spec fn stream_events(s: Seq<u8>) -> Seq<EventAbs>
    decreases s.len(),
{
    if s.len() >= EVENT_HEADER_LEN && frame_len(s) <= s.len() {
        seq![frame_event(s.take(frame_len(s)))] + stream_events(s.skip(frame_len(s)))
    } else {
        seq![]
    }
}

/// The bytes left after every complete leading frame of the stream: the
/// partial frame the stream ends in, possibly empty.
pub open spec fn stream_rest(s: Seq<u8>) -> Seq<u8>
    decreases s.len(),
{
    if s.len() >= EVENT_HEADER_LEN && frame_len(s) <= s.len() {
        stream_rest(s.skip(frame_len(s)))
    } else {
        s
    }
}

/// The partial frame `FrameAssembler::push` retains after a chunk.
pub open spec fn push_rest(p: Seq<u8>, c: Seq<u8>) -> Seq<u8> {
    if is_complete_frame(p + c) {
        Seq::<u8>::empty()
    } else {
        p + c
    }
}

/// The events `FrameAssembler::push` yields for a chunk: one when the
/// chunk completes the frame, none otherwise.
pub open spec fn push_events(p: Seq<u8>, c: Seq<u8>) -> Seq<EventAbs> {
    if is_complete_frame(p + c) {
        seq![frame_event(p + c)]
    } else {
        seq![]
    }
}

/// Every chunk of the sequence respects the running `wanted` bound: no
/// read runs past the end of the frame in flight. Any driver that sizes
/// its reads by `FrameAssembler::wanted` satisfies this by construction.
pub open spec fn chunks_fit(p: Seq<u8>, chunks: Seq<Seq<u8>>) -> bool
    decreases chunks.len(),
{
    chunks.len() == 0 || (chunks[0].len() <= frame_missing(p) && chunks_fit(
        push_rest(p, chunks[0]),
        chunks.skip(1),
    ))
}

/// All events an assembler starting from partial frame `p` yields when the
/// chunks are pushed one after the other.
pub open spec fn run_events(p: Seq<u8>, chunks: Seq<Seq<u8>>) -> Seq<EventAbs>
    decreases chunks.len(),
{
    if chunks.len() == 0 {
        seq![]
    } else {
        push_events(p, chunks[0]) + run_events(push_rest(p, chunks[0]), chunks.skip(1))
    }
}

/// The partial frame an assembler is left with after pushing the chunks.
pub open spec fn run_rest(p: Seq<u8>, chunks: Seq<Seq<u8>>) -> Seq<u8>
    decreases chunks.len(),
{
    if chunks.len() == 0 {
        p
    } else {
        run_rest(push_rest(p, chunks[0]), chunks.skip(1))
    }
}

/// The chunks laid end to end: the bytes the underlying stream delivered.
pub open spec fn concat_chunks(chunks: Seq<Seq<u8>>) -> Seq<u8>
    decreases chunks.len(),
{
    if chunks.len() == 0 {
        Seq::<u8>::empty()
    } else {
        chunks[0] + concat_chunks(chunks.skip(1))
    }
}

/// One push commutes with the stream parse: against any continuation `t`
/// of the stream, pushing a bounded chunk emits exactly the frames the
/// whole stream parses to there, and leaves the parse of the rest to the
/// retained partial frame.
proof fn lemma_push_step(p: Seq<u8>, c: Seq<u8>, t: Seq<u8>)
    requires
        is_partial_frame(p),
        c.len() <= frame_missing(p),
    ensures
        is_partial_frame(push_rest(p, c)),
        stream_events(p + c + t) == push_events(p, c) + stream_events(push_rest(p, c) + t),
        stream_rest(p + c + t) == stream_rest(push_rest(p, c) + t),
{
    if p.len() >= EVENT_HEADER_LEN || (p + c).len() >= EVENT_HEADER_LEN {
        lemma_frame_prefix_pins_header(p, c);
    }
    if is_complete_frame(p + c) {
        let f = p + c;
        let n = frame_len(f);
        assert(f.len() == n && n >= EVENT_HEADER_LEN);
        assert((f + t).subrange(4, 6) =~= f.subrange(4, 6));
        assert(frame_len(f + t) == n);
        assert((f + t).take(n) =~= f);
        assert((f + t).skip(n) =~= t);
        assert(push_rest(p, c) + t =~= t);
        assert(stream_events(f + t) == seq![frame_event(f)] + stream_events(t));
        assert(push_events(p, c) + stream_events(t) == seq![frame_event(f)] + stream_events(t));
    } else {
        // The chunk stayed within the frame in flight, so `p + c` is still
        // a proper prefix of one frame.
        if (p + c).len() >= EVENT_HEADER_LEN {
            if p.len() >= EVENT_HEADER_LEN {
                assert((p + c).subrange(4, 6) =~= p.subrange(4, 6));
                assert(frame_len(p + c) == frame_len(p));
                assert((p + c).len() <= p.len() + frame_missing(p));
            } else {
                assert((p + c).len() == EVENT_HEADER_LEN);
            }
            assert((p + c).len() < frame_len(p + c));
        }
        assert(is_partial_frame(p + c));
        assert(stream_events(p + c + t) == push_events(p, c) + stream_events(push_rest(p, c) + t))
            by {
            assert(push_rest(p, c) + t == p + c + t);
            assert(push_events(p, c) =~= Seq::<EventAbs>::empty());
            assert(push_events(p, c) + stream_events(p + c + t) =~= stream_events(p + c + t));
        }
        assert(stream_rest(p + c + t) == stream_rest(push_rest(p, c) + t));
    }
}

/// The stream parse does not depend on chunking. An assembler that starts
/// at a frame boundary (or, generally, on partial frame `p`) and is fed
/// the stream in any chunks that respect its `wanted` bound yields exactly
/// the events the concatenated byte stream parses to, in order, and ends
/// holding exactly the stream's trailing partial frame. Two differently
/// chunked deliveries of the same bytes therefore yield the same events.
pub proof fn lemma_chunking_independence(p: Seq<u8>, chunks: Seq<Seq<u8>>)
    requires
        is_partial_frame(p),
        chunks_fit(p, chunks),
    ensures
        run_events(p, chunks) == stream_events(p + concat_chunks(chunks)),
        run_rest(p, chunks) == stream_rest(p + concat_chunks(chunks)),
    decreases chunks.len(),
{
    if chunks.len() == 0 {
        assert(p + concat_chunks(chunks) =~= p);
        if p.len() >= EVENT_HEADER_LEN {
            assert(!(frame_len(p) <= p.len()));
        }
        assert(stream_events(p) =~= Seq::<EventAbs>::empty());
    } else {
        let c = chunks[0];
        let rest = chunks.skip(1);
        lemma_push_step(p, c, concat_chunks(rest));
        lemma_chunking_independence(push_rest(p, c), rest);
        assert(p + concat_chunks(chunks) =~= p + c + concat_chunks(rest));
        assert(run_events(p, chunks) =~= push_events(p, c) + run_events(push_rest(p, c), rest));
    }
}

/// Two readers that consume the same byte stream — however differently
/// their reads are chunked — see the same sequence of events.
pub proof fn lemma_readers_agree(chunks1: Seq<Seq<u8>>, chunks2: Seq<Seq<u8>>)
    requires
        chunks_fit(Seq::<u8>::empty(), chunks1),
        chunks_fit(Seq::<u8>::empty(), chunks2),
        concat_chunks(chunks1) == concat_chunks(chunks2),
    ensures
        run_events(Seq::<u8>::empty(), chunks1) == run_events(Seq::<u8>::empty(), chunks2),
{
    lemma_chunking_independence(Seq::<u8>::empty(), chunks1);
    lemma_chunking_independence(Seq::<u8>::empty(), chunks2);
    assert(Seq::<u8>::empty() + concat_chunks(chunks1) =~= concat_chunks(chunks1));
    assert(Seq::<u8>::empty() + concat_chunks(chunks2) =~= concat_chunks(chunks2));
}

/// Once an accumulated partial frame already holds a full header, any bytes
/// appended within the frame's declared bounds leave the decoded header —
/// and with it the frame's declared length — unchanged.
proof fn lemma_frame_prefix_pins_header(p: Seq<u8>, c: Seq<u8>)
    requires
        p.len() >= EVENT_HEADER_LEN || (p + c).len() >= EVENT_HEADER_LEN,
    ensures
        (p + c).len() >= EVENT_HEADER_LEN ==> uapi::spec_decode_event_header(p + c)
            == if p.len() >= EVENT_HEADER_LEN {
                uapi::spec_decode_event_header(p)
            } else {
                uapi::spec_decode_event_header(p + c)
            },
{
    if p.len() >= EVENT_HEADER_LEN {
        assert((p + c).subrange(4, 6) =~= p.subrange(4, 6));
    }
}

} // verus!
