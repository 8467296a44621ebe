//! Framing of the byte stream between host and worker.
//!
//! A frame is a four-byte big-endian length followed by that many bytes of
//! payload. A [`FrameBuffer`] collects what was read from a connection, in
//! pieces of any size, and hands out the payloads one by one.

use vstd::prelude::*;

verus! {

/// The longest payload that a frame can carry, in bytes: the largest
/// length that the four bytes in front of it can announce.
pub const MAX_FRAME_LEN: usize = 4294967295;

/// The four bytes that announce a payload of `len` bytes.
pub open spec fn length_prefix(len: nat) -> Seq<u8> {
    seq![
        (len / 16777216) as u8,
        ((len / 65536) % 256) as u8,
        ((len / 256) % 256) as u8,
        (len % 256) as u8,
    ]
}

/// The length that the first four bytes of `bytes` announce.
pub open spec fn announced_len(bytes: Seq<u8>) -> nat {
    (bytes[0] as nat) * 16777216 + (bytes[1] as nat) * 65536 + (bytes[2] as nat) * 256 + (
    bytes[3] as nat)
}

/// The frame that carries `payload`.
pub open spec fn frame_of(payload: Seq<u8>) -> Seq<u8> {
    length_prefix(payload.len()) + payload
}

/// The frames of `payloads`, one after the other.
pub open spec fn stream_of(payloads: Seq<Seq<u8>>) -> Seq<u8>
    decreases payloads.len(),
{
    if payloads.len() == 0 {
        Seq::empty()
    } else {
        frame_of(payloads[0]) + stream_of(payloads.drop_first())
    }
}

/// What stands at the head of a sequence of buffered bytes.
pub enum Head {
    /// Not yet a whole frame: more bytes have to come.
    Incomplete,
    /// A whole frame with this payload, followed by `rest`.
    Frame { payload: Seq<u8>, rest: Seq<u8> },
}

/// What stands at the head of `bytes`.
pub open spec fn head_of(bytes: Seq<u8>) -> Head {
    if bytes.len() < 4 {
        Head::Incomplete
    } else if bytes.len() < 4 + announced_len(bytes) {
        Head::Incomplete
    } else {
        Head::Frame {
            payload: bytes.subrange(4, 4 + announced_len(bytes) as int),
            rest: bytes.skip(4 + announced_len(bytes) as int),
        }
    }
}

/// The payloads of the whole frames at the head of `bytes`, in order.
pub open spec fn whole_frames(bytes: Seq<u8>) -> Seq<Seq<u8>>
    decreases bytes.len(),
{
    match head_of(bytes) {
        Head::Frame { payload, rest } => seq![payload] + whole_frames(rest),
        _ => Seq::empty(),
    }
}

/// What is left of `bytes` once the whole frames at its head are taken off.
pub open spec fn after_whole_frames(bytes: Seq<u8>) -> Seq<u8>
    decreases bytes.len(),
{
    match head_of(bytes) {
        Head::Frame { payload, rest } => after_whole_frames(rest),
        _ => bytes,
    }
}

/// The contents of a list of payloads.
pub open spec fn payloads_of(frames: Seq<Vec<u8>>) -> Seq<Seq<u8>> {
    Seq::new(frames.len(), |i: int| frames[i]@)
}

/// The result of asking a [`FrameBuffer`] for its next frame.
#[derive(Debug, PartialEq, Eq)]
pub enum FrameStep {
    /// No whole frame is buffered yet.
    Incomplete,
    /// The payload of the next frame.
    Frame(Vec<u8>),
}

/// The bytes read from one connection and not yet handed out as frames.
pub struct FrameBuffer {
    pending: Vec<u8>,
}

impl View for FrameBuffer {
    type V = Seq<u8>;

    closed spec fn view(&self) -> Seq<u8> {
        self.pending@
    }
}

/// Wraps `payload` into a frame; `None` where the payload is longer than
/// [`MAX_FRAME_LEN`], so that no four bytes can announce its length.
pub fn encode_frame(payload: &[u8]) -> (r: Option<Vec<u8>>)
    ensures
        match r {
            Some(frame) => payload@.len() <= MAX_FRAME_LEN && frame@ == frame_of(payload@),
            None => payload@.len() > MAX_FRAME_LEN,
        },
{
    let len: usize = payload.len();
    if len > MAX_FRAME_LEN {
        return None;
    }
    let mut frame: Vec<u8> = Vec::new();
    frame.push((len / 16777216) as u8);
    frame.push(((len / 65536) % 256) as u8);
    frame.push(((len / 256) % 256) as u8);
    frame.push((len % 256) as u8);
    assert(frame@ =~= length_prefix(len as nat));
    frame.extend_from_slice(payload);
    assert(frame@ =~= frame_of(payload@));
    Some(frame)
}

impl FrameBuffer {
    /// An empty buffer.
    pub fn new() -> (buffer: Self)
        ensures
            buffer@ == Seq::<u8>::empty(),
    {
        FrameBuffer { pending: Vec::new() }
    }

    /// The number of buffered bytes.
    pub fn len(&self) -> (n: usize)
        ensures
            n == self@.len(),
    {
        self.pending.len()
    }

    /// Adds bytes that were read from the connection.
    pub fn push(&mut self, bytes: &[u8])
        ensures
            final(self)@ == old(self)@ + bytes@,
    {
        self.pending.extend_from_slice(bytes);
    }

    /// Takes the next frame off the buffer. Where none is complete the
    /// buffer stays as it is.
    pub fn next_frame(&mut self) -> (step: FrameStep)
        ensures
            match head_of(old(self)@) {
                Head::Incomplete => step == FrameStep::Incomplete && final(self)@ == old(self)@,
                Head::Frame { payload, rest } => step matches FrameStep::Frame(p) && p@ == payload
                    && final(self)@ == rest,
            },
    {
        if self.pending.len() < 4 {
            return FrameStep::Incomplete;
        }
        let b0: u64 = self.pending[0] as u64;
        let b1: u64 = self.pending[1] as u64;
        let b2: u64 = self.pending[2] as u64;
        let b3: u64 = self.pending[3] as u64;
        let announced: u64 = b0 * 16777216 + b1 * 65536 + b2 * 256 + b3;
        let available: u64 = (self.pending.len() - 4) as u64;
        if available < announced {
            return FrameStep::Incomplete;
        }
        let len: usize = announced as usize;
        let ghost before = self.pending@;
        let rest = self.pending.split_off(4 + len);
        let payload = self.pending.split_off(4);
        self.pending = rest;
        assert(payload@ =~= before.subrange(4, 4 + len));
        assert(self.pending@ =~= before.skip(4 + len));
        FrameStep::Frame(payload)
    }
}

impl FrameBuffer {
    /// Takes every whole frame off the buffer, in order. What stays is the
    /// beginning of a frame that has not arrived whole.
    pub fn drain(&mut self) -> (frames: Vec<Vec<u8>>)
        ensures
            payloads_of(frames@) == whole_frames(old(self)@),
            final(self)@ == after_whole_frames(old(self)@),
            !(head_of(final(self)@) is Frame),
    {
        let mut frames: Vec<Vec<u8>> = Vec::new();
        let mut more: bool = true;
        assert(payloads_of(frames@) =~= Seq::<Seq<u8>>::empty());
        while more
            invariant
                whole_frames(old(self)@) == payloads_of(frames@) + if more {
                    whole_frames(self@)
                } else {
                    Seq::<Seq<u8>>::empty()
                },
                after_whole_frames(old(self)@) == after_whole_frames(self@),
                !more ==> !(head_of(self@) is Frame),
            decreases
                    if more {
                        self@.len() + 1
                    } else {
                        0
                    },
        {
            let ghost before = payloads_of(frames@);
            match self.next_frame() {
                FrameStep::Frame(payload) => {
                    frames.push(payload);
                    assert(payloads_of(frames@) =~= before + seq![payload@]);
                },
                _ => {
                    more = false;
                },
            }
        }
        frames
    }
}

/// The frame of `payload` followed by any bytes splits into the payload and
/// those bytes.
pub proof fn lemma_frame_then_rest(payload: Seq<u8>, rest: Seq<u8>)
    requires
        payload.len() <= MAX_FRAME_LEN,
    ensures
        head_of(frame_of(payload) + rest) == (Head::Frame { payload, rest }),
{
    let bytes = frame_of(payload) + rest;
    let n = payload.len();
    assert(bytes[0] == (n / 16777216) as u8);
    assert(bytes[1] == ((n / 65536) % 256) as u8);
    assert(bytes[2] == ((n / 256) % 256) as u8);
    assert(bytes[3] == (n % 256) as u8);
    assert(announced_len(bytes) == n);
    assert(bytes.subrange(4, 4 + n as int) =~= payload);
    assert(bytes.skip(4 + n as int) =~= rest);
}

/// A frame that has not arrived whole is not mistaken for one: every proper
/// beginning of a frame is incomplete.
pub proof fn lemma_partial_frame_waits(payload: Seq<u8>, cut: int)
    requires
        payload.len() <= MAX_FRAME_LEN,
        0 <= cut < frame_of(payload).len(),
    ensures
        head_of(frame_of(payload).take(cut)) == Head::Incomplete,
{
    let bytes = frame_of(payload).take(cut);
    let n = payload.len();
    if cut >= 4 {
        assert(bytes[0] == (n / 16777216) as u8);
        assert(bytes[1] == ((n / 65536) % 256) as u8);
        assert(bytes[2] == ((n / 256) % 256) as u8);
        assert(bytes[3] == (n % 256) as u8);
        assert(announced_len(bytes) == n);
    }
}

/// Frames sent one after the other come out one by one, in order, whatever
/// follows them: the whole frames of `stream_of(payloads) + tail` are
/// `payloads` followed by the whole frames of `tail`.
pub proof fn lemma_stream_splits(payloads: Seq<Seq<u8>>, tail: Seq<u8>)
    requires
        forall|i: int| 0 <= i < payloads.len() ==> (#[trigger] payloads[i]).len() <= MAX_FRAME_LEN,
    ensures
        whole_frames(stream_of(payloads) + tail) == payloads + whole_frames(tail),
        after_whole_frames(stream_of(payloads) + tail) == after_whole_frames(tail),
    decreases payloads.len(),
{
    if payloads.len() == 0 {
        assert(stream_of(payloads) + tail =~= tail);
        assert(payloads + whole_frames(tail) =~= whole_frames(tail));
    } else {
        let first = payloads[0];
        let others = payloads.drop_first();
        let rest = stream_of(others) + tail;
        assert(stream_of(payloads) + tail =~= frame_of(first) + rest);
        lemma_frame_then_rest(first, rest);
        lemma_stream_splits(others, tail);
        assert(seq![first] + (others + whole_frames(tail)) =~= payloads + whole_frames(tail));
    }
}

/// A stream cut anywhere inside its last frame yields the frames before it
/// and keeps the beginning of the last one.
pub proof fn lemma_stream_with_partial_frame(payloads: Seq<Seq<u8>>, last: Seq<u8>, cut: int)
    requires
        forall|i: int| 0 <= i < payloads.len() ==> (#[trigger] payloads[i]).len() <= MAX_FRAME_LEN,
        last.len() <= MAX_FRAME_LEN,
        0 <= cut < frame_of(last).len(),
    ensures
        whole_frames(stream_of(payloads) + frame_of(last).take(cut)) == payloads,
        after_whole_frames(stream_of(payloads) + frame_of(last).take(cut)) == frame_of(
            last,
        ).take(cut),
{
    let partial = frame_of(last).take(cut);
    lemma_partial_frame_waits(last, cut);
    lemma_stream_splits(payloads, partial);
    assert(payloads + whole_frames(partial) =~= payloads);
}

} // verus!
