//! Framing on the byte stream: each message travels as a `u64` length
//! followed by that many bytes. Bytes that arrive in pieces are buffered
//! until a whole frame is there.
use crate::wire::{append_slice, enc_bytes, parse_bytes, read_bytes, write_bytes};
use vstd::prelude::*;

verus! {

/// The frame that carries `body`.
pub open spec fn enc_frame(body: Seq<u8>) -> Seq<u8> {
    enc_bytes(body)
}

/// The first frame of `s` and what follows it, or `None` while `s` does not
/// yet hold a whole frame.
pub open spec fn parse_frame(s: Seq<u8>) -> Option<(Seq<u8>, Seq<u8>)> {
    parse_bytes(s)
}

/// Wraps `body` in a frame.
pub fn frame(body: &Vec<u8>) -> (r: Vec<u8>)
    ensures
        r@ == enc_frame(body@),
{
    let mut out: Vec<u8> = Vec::new();
    write_bytes(&mut out, body.as_slice());
    assert(out@ =~= enc_frame(body@));
    out
}

/// Bytes received and not yet cut into frames.
pub struct FrameReader {
    buf: Vec<u8>,
}

impl View for FrameReader {
    type V = Seq<u8>;

    closed spec fn view(&self) -> Seq<u8> {
        self.buf@
    }
}

impl FrameReader {
    pub fn new() -> (r: FrameReader)
        ensures
            r@ == Seq::<u8>::empty(),
    {
        FrameReader { buf: Vec::new() }
    }

    /// Adds bytes read from the stream.
    pub fn push(&mut self, data: &[u8])
        ensures
            final(self)@ == old(self)@ + data@,
    {
        append_slice(&mut self.buf, data);
    }

    /// Takes the first whole frame out of the buffer, if there is one.
    pub fn next_frame(&mut self) -> (r: Option<Vec<u8>>)
        ensures
            match parse_frame(old(self)@) {
                None => r is None && final(self)@ == old(self)@,
                Some((body, rest)) => r matches Some(b) && b@ == body && final(self)@ == rest,
            },
    {
        match read_bytes(&self.buf, 0) {
            None => {
                assert(self.buf@.skip(0) =~= self.buf@);
                None
            },
            Some((body, q)) => {
                assert(self.buf@.skip(0) =~= self.buf@);
                let mut rest: Vec<u8> = Vec::new();
                append_slice(
                    &mut rest,
                    vstd::slice::slice_subrange(self.buf.as_slice(), q, self.buf.len()),
                );
                assert(rest@ =~= self.buf@.skip(q as int));
                self.buf = rest;
                Some(body)
            },
        }
    }
}

} // verus!
