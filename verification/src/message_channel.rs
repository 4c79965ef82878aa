//! Binary framing of messages: a two-byte big-endian length, then the payload.
use vstd::prelude::*;

use crate::simple_error::{ChannelError, YuhaError};

verus! {

/// The largest payload that a frame can carry.
pub const MAX_PAYLOAD: usize = 65535;

/// The bytes of a frame that carries a payload.
pub open spec fn frame(payload: Seq<u8>) -> Seq<u8> {
    seq![(payload.len() / 256) as u8, (payload.len() % 256) as u8] + payload
}

/// The length announced by the first two bytes of a buffer.
pub open spec fn announced_len(buf: Seq<u8>) -> int {
    buf[0] as int * 256 + buf[1] as int
}

/// The first complete frame of a buffer, as its payload and what follows it; `None` while the
/// buffer does not yet hold a complete frame.
pub open spec fn split_frame(buf: Seq<u8>) -> Option<(Seq<u8>, Seq<u8>)> {
    if buf.len() >= 2 && buf.len() >= 2 + announced_len(buf) {
        Some(
            (
                buf.subrange(2, 2 + announced_len(buf)),
                buf.subrange(2 + announced_len(buf), buf.len() as int),
            ),
        )
    } else {
        None
    }
}

/// The concatenation of the frames of several payloads.
pub open spec fn frames(payloads: Seq<Seq<u8>>) -> Seq<u8>
    decreases payloads.len(),
{
    if payloads.len() == 0 {
        Seq::empty()
    } else {
        frames(payloads.drop_last()) + frame(payloads.last())
    }
}

/// The payloads of the complete frames at the start of a buffer, in order.
pub open spec fn payloads_of(buf: Seq<u8>) -> Seq<Seq<u8>>
    decreases buf.len(),
{
    match split_frame(buf) {
        Some((p, rest)) => seq![p] + payloads_of(rest),
        None => Seq::empty(),
    }
}

/// A payload that fits is read back whole from its frame, and whatever follows the frame is
/// left untouched.
pub proof fn lemma_frame_roundtrip(payload: Seq<u8>, rest: Seq<u8>)
    requires
        payload.len() <= MAX_PAYLOAD,
    ensures
        split_frame(frame(payload) + rest) == Some((payload, rest)),
{
    let buf = frame(payload) + rest;
    assert(buf[0] == (payload.len() / 256) as u8);
    assert(buf[1] == (payload.len() % 256) as u8);
    assert(announced_len(buf) == payload.len());
    assert(buf.subrange(2, 2 + payload.len() as int) =~= payload);
    assert(buf.subrange(2 + payload.len() as int, buf.len() as int) =~= rest);
}

proof fn lemma_frames_prepend(payloads: Seq<Seq<u8>>)
    requires
        payloads.len() > 0,
    ensures
        frames(payloads) =~= frame(payloads[0]) + frames(payloads.subrange(1, payloads.len() as int)),
    decreases payloads.len(),
{
    if payloads.len() > 1 {
        let tail = payloads.subrange(1, payloads.len() as int);
        lemma_frames_prepend(payloads.drop_last());
        assert(payloads.drop_last()[0] == payloads[0]);
        assert(payloads.drop_last().subrange(1, payloads.len() - 1) =~= tail.drop_last());
        assert(tail.last() == payloads.last());
    } else {
        assert(payloads.drop_last() =~= Seq::<Seq<u8>>::empty());
        assert(payloads.subrange(1, payloads.len() as int) =~= Seq::<Seq<u8>>::empty());
    }
}

/// Writing several payloads one after the other and reading the stream back yields the same
/// payloads in the same order.
pub proof fn lemma_frames_roundtrip(payloads: Seq<Seq<u8>>)
    requires
        forall|i: int| 0 <= i < payloads.len() ==> #[trigger] payloads[i].len() <= MAX_PAYLOAD,
    ensures
        payloads_of(frames(payloads)) =~= payloads,
    decreases payloads.len(),
{
    if payloads.len() == 0 {
        assert(split_frame(Seq::<u8>::empty()) is None);
    } else {
        let tail = payloads.subrange(1, payloads.len() as int);
        lemma_frames_prepend(payloads);
        lemma_frame_roundtrip(payloads[0], frames(tail));
        assert forall|i: int| 0 <= i < tail.len() implies #[trigger] tail[i].len() <= MAX_PAYLOAD by {
            assert(tail[i] == payloads[i + 1]);
        }
        lemma_frames_roundtrip(tail);
        assert(payloads =~= seq![payloads[0]] + tail);
    }
}

/// Frames a payload; a payload longer than `MAX_PAYLOAD` bytes is refused.
pub fn encode_frame(payload: &[u8]) -> (r: Result<Vec<u8>, YuhaError>)
    ensures
        payload@.len() <= MAX_PAYLOAD ==> (r matches Ok(v) && v@ == frame(payload@)),
        payload@.len() > MAX_PAYLOAD ==> (r matches Err(
            YuhaError::Channel(ChannelError::BufferOverflow { size }),
        ) && size == payload@.len()),
{
    let n = payload.len();
    if n > MAX_PAYLOAD {
        return Err(YuhaError::Channel(ChannelError::buffer_overflow(n)));
    }
    let mut out: Vec<u8> = Vec::new();
    out.push((n / 256) as u8);
    out.push((n % 256) as u8);
    let mut i: usize = 0;
    while i < n
        invariant
            n == payload@.len(),
            n <= MAX_PAYLOAD,
            i <= n,
            out@ =~= seq![(n / 256) as u8, (n % 256) as u8] + payload@.subrange(0, i as int),
        decreases n - i,
    {
        out.push(payload[i]);
        i = i + 1;
    }
    proof {
        assert(payload@.subrange(0, n as int) =~= payload@);
    }
    Ok(out)
}

/// Accumulates received bytes and hands out the payloads of complete frames.
#[derive(Debug)]
pub struct FrameDecoder {
    buffer: Vec<u8>,
}

impl View for FrameDecoder {
    type V = Seq<u8>;

    closed spec fn view(&self) -> Seq<u8> {
        self.buffer@
    }
}

impl FrameDecoder {
    /// A decoder holding no bytes.
    pub fn new() -> (r: Self)
        ensures
            r@ == Seq::<u8>::empty(),
    {
        FrameDecoder { buffer: Vec::new() }
    }

    /// Appends received bytes.
    pub fn push_bytes(&mut self, data: &[u8])
        ensures
            final(self)@ == old(self)@ + data@,
    {
        let mut i: usize = 0;
        while i < data.len()
            invariant
                i <= data@.len(),
                self@ =~= old(self)@ + data@.subrange(0, i as int),
            decreases data@.len() - i,
        {
            self.buffer.push(data[i]);
            i = i + 1;
        }
        proof {
            assert(data@.subrange(0, data@.len() as int) =~= data@);
        }
    }

    /// The number of bytes held.
    pub fn buffered_len(&self) -> (r: usize)
        ensures
            r == self@.len(),
    {
        self.buffer.len()
    }

    /// Takes the payload of the first complete frame, if the bytes held contain one.
    pub fn next_frame(&mut self) -> (r: Option<Vec<u8>>)
        ensures
            match split_frame(old(self)@) {
                Some((p, rest)) => r matches Some(v) && v@ == p && final(self)@ == rest,
                None => r is None && final(self)@ == old(self)@,
            },
    {
        if self.buffer.len() < 2 {
            return None;
        }
        let payload_len: usize = (self.buffer[0] as usize) * 256 + (self.buffer[1] as usize);
        if self.buffer.len() - 2 < payload_len {
            return None;
        }
        let ghost whole = self.buffer@;
        let rest = self.buffer.split_off(2 + payload_len);
        let payload = self.buffer.split_off(2);
        self.buffer = rest;
        proof {
            assert(payload@ =~= whole.subrange(2, 2 + payload_len));
        }
        Some(payload)
    }
}

} // verus!
