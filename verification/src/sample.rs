//! The immutable record derived from one completed request.

use vstd::prelude::*;

verus! {

/// A byte count of a fully drained response body.
#[derive(Clone, Copy, PartialEq, Eq, Structural, Debug)]
pub struct ContentLength {
    pub bytes: u64,
}

impl ContentLength {
    pub fn new(bytes: u64) -> (c: ContentLength)
        ensures
            c.bytes == bytes,
    {
        ContentLength { bytes }
    }
}

/// One benchmark observation: the HTTP status code, the elapsed wall-clock
/// time of the whole request (connect, send, receive and body drain), and
/// the drained body's byte count.  The engine hands each sample to the
/// collector and keeps no copy.
#[derive(Clone, Copy, PartialEq, Eq, Structural, Debug)]
pub struct Sample {
    pub status: u16,
    pub duration_nanos: u128,
    pub length: ContentLength,
}

impl Sample {
    pub fn record(status: u16, duration_nanos: u128, length: ContentLength) -> (s: Sample)
        ensures
            s.status == status,
            s.duration_nanos == duration_nanos,
            s.length == length,
    {
        Sample { status, duration_nanos, length }
    }
}

/// Derives the sample for one completed iteration.  `body_len` is the byte
/// length of the drained response body, or `None` when the body could not
/// be decoded as text: that failure is soft, and the sample records a
/// content length of zero — whatever any declared header length said.
pub fn make_sample(status: u16, duration_nanos: u128, body_len: Option<usize>) -> (s: Sample)
    ensures
        s.status == status,
        s.duration_nanos == duration_nanos,
        s.length.bytes == (match body_len {
            Some(n) => n as u64,
            None => 0u64,
        }),
{
    let bytes: u64 = match body_len {
        Some(n) => n as u64,
        None => 0u64,
    };
    Sample::record(status, duration_nanos, ContentLength::new(bytes))
}

} // verus!
