//! Turns the outcome of a request into what crosses the boundary to the host:
//! a value of the reply's type, or the one value of that type that stands for
//! a failure.

use vstd::prelude::*;
use crate::buffer::{after_empty_text, after_text, write_empty_text, write_text};
use crate::error::Failure;

verus! {

/// What an integer request returns when it fails.
pub const INT_FAILURE: i32 = -1;

/// What a float request returns when it fails: the bits of `-1.0`.
pub const FLOAT_FAILURE_BITS: u32 = 0xBF80_0000;

/// What a size request returns when it fails.
pub const SIZE_FAILURE: usize = 0;

/// The integer that stands for a failure, whatever the failure.
pub open spec fn int_sentinel(failure: Failure) -> i32 {
    INT_FAILURE
}

/// The float, as its bits, that stands for a failure, whatever the failure.
pub open spec fn float_sentinel_bits(failure: Failure) -> u32 {
    FLOAT_FAILURE_BITS
}

/// The size that stands for a failure, whatever the failure.
pub open spec fn size_sentinel(failure: Failure) -> usize {
    SIZE_FAILURE
}

/// The integer handed to the host for an outcome.
pub open spec fn int_reply_of(outcome: Result<i32, Failure>) -> i32 {
    match outcome {
        Ok(value) => value,
        Err(failure) => int_sentinel(failure),
    }
}

/// The float, as its bits, handed to the host for an outcome.
pub open spec fn float_reply_of(outcome: Result<u32, Failure>) -> u32 {
    match outcome {
        Ok(bits) => bits,
        Err(failure) => float_sentinel_bits(failure),
    }
}

/// The size handed to the host for an outcome.
pub open spec fn size_reply_of(outcome: Result<usize, Failure>) -> usize {
    match outcome {
        Ok(size) => size,
        Err(failure) => size_sentinel(failure),
    }
}

/// The host's buffer after a text request: what a write of the text gives
/// where the request gave one, and what a write of the empty text gives
/// where the request failed. Either write leaves the buffer as it was
/// where the text and its terminator do not fit with room to spare.
pub open spec fn text_reply_of(before: Seq<u8>, outcome: Result<Seq<u8>, Failure>) -> Seq<u8> {
    match outcome {
        Ok(text) => after_text(before, text),
        Err(_) => after_empty_text(before),
    }
}

/// The integer to hand to the host.
pub fn int_reply(outcome: Result<i32, Failure>) -> (value: i32)
    ensures
        value == int_reply_of(outcome),
{
    match outcome {
        Ok(value) => value,
        Err(_) => INT_FAILURE,
    }
}

/// The float to hand to the host, as its bits.
pub fn float_reply(outcome: Result<u32, Failure>) -> (bits: u32)
    ensures
        bits == float_reply_of(outcome),
{
    match outcome {
        Ok(bits) => bits,
        Err(_) => FLOAT_FAILURE_BITS,
    }
}

/// The size to hand to the host.
pub fn size_reply(outcome: Result<usize, Failure>) -> (size: usize)
    ensures
        size == size_reply_of(outcome),
{
    match outcome {
        Ok(size) => size,
        Err(_) => SIZE_FAILURE,
    }
}

/// Puts the reply to a text request into the host's buffer. Returns
/// whether the buffer now holds the reply: `false` where the text, or the
/// empty text of a failure, did not fit and nothing was written.
pub fn text_reply(dest: &mut [u8], outcome: Result<&[u8], Failure>) -> (written: bool)
    ensures
        final(dest)@.len() == old(dest)@.len(),
        match outcome {
            Ok(text) => final(dest)@ == text_reply_of(old(dest)@, Ok(text@)),
            Err(failure) => final(dest)@ == text_reply_of(old(dest)@, Err(failure)),
        },
        written == match outcome {
            Ok(text) => text@.len() + 1 < old(dest)@.len(),
            Err(_) => old(dest)@.len() > 1,
        },
        !written ==> final(dest)@ == old(dest)@,
{
    match outcome {
        Ok(text) => write_text(dest, text),
        Err(_) => write_empty_text(dest),
    }
}

} // verus!
