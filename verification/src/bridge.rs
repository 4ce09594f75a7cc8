//! The syscall bridge: writing a byte sequence to a file descriptor.
//! The bridge performs no retry, no buffering and no interpretation of a
//! failure; a negative result is handed to the caller verbatim and a
//! caller that ignores it simply loses the error.  Only the standard
//! output descriptor can be served from verified code; the raw
//! any-descriptor entry point belongs to the unverified process
//! boundary.

use vstd::prelude::*;

verus! {

/// Relies on `std::io::Write::write` on `std::io::Stdout`: a call hands
/// the byte sequence to the host exactly once, and `Ok(n)` guarantees
/// that `n <= buf.len()` bytes were consumed.  Whether the call succeeds
/// and how many bytes the host takes depend on the host's state, so no
/// more is stated of the outcome.
#[verifier::external_body]
fn write_stdout(buf: &[u8]) -> (outcome: Option<usize>)
    ensures
        outcome matches Some(count) ==> count <= buf@.len(),
{
    match std::io::Write::write(&mut std::io::stdout(), buf) {
        Ok(count) => Some(count),
        Err(_) => None,
    }
}

/// Encode one bridge outcome as the caller-visible result, unmodified: a
/// byte count passes through as itself, and a failure becomes a negative
/// value (the failure's exact encoding is host-defined and opaque to
/// this layer, so nothing of it is kept).
pub fn encode_outcome(outcome: Option<usize>) -> (written: isize)
    requires
        outcome matches Some(count) ==> count <= isize::MAX,
    ensures
        outcome matches Some(count) ==> written == count,
        outcome is None ==> written < 0,
{
    match outcome {
        Some(count) => count as isize,
        None => -1,
    }
}

/// Write a byte sequence to the standard output descriptor and hand back
/// the bridge's answer unmodified: the non-negative count of bytes the
/// host consumed (at most the sequence's length), or a negative value on
/// failure, with no partial-write handling performed by this layer.
pub fn print(msg: &[u8]) -> (written: isize)
    requires
        msg@.len() <= isize::MAX,
    ensures
        written < 0 || written <= msg@.len(),
{
    let outcome = write_stdout(msg);
    encode_outcome(outcome)
}

} // verus!
