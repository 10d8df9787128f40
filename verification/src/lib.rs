//! A guest module's arithmetic export together with the record of what it
//! reports to its host.
//!
//! The guest never talks to the host by itself. Every function here takes the
//! values it needs and hands back the values that the embedding code is to
//! pass on, so that each contract can say exactly what the host will see.

use vstd::prelude::*;

verus! {

/// The value that `add` reports to the host before it reports the sum.
pub const LOG_MARKER: u32 = 1968;

/// Adds two unsigned 32-bit integers, wrapping round on overflow, and records
/// in `log` the two values that the host's log is to receive: `LOG_MARKER`,
/// then the sum. The entries already in `log` are kept, in their order, in
/// front of the new ones.
pub fn add(a: u32, b: u32, log: &mut Vec<u32>) -> (sum: u32)
    ensures
        sum == (a + b) % 0x1_0000_0000,
        final(log)@ == old(log)@.push(LOG_MARKER).push(sum),
{
    let sum: u32 = a.wrapping_add(b);
    log.push(LOG_MARKER);
    log.push(sum);
    sum
}

/// The greeting of the standalone entry point. It depends on nothing: every
/// call returns the same text.
pub fn greeting() -> (text: &'static str)
    ensures
        text@ == "Hello, world!"@,
{
    "Hello, world!"
}

} // verus!
