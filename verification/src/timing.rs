//! The cooperative-cancellation predicate.
//!
//! The engine polls a stop callback at checkpoints of its own choosing; the
//! callback reads a monotonic clock and asks this predicate whether the
//! configured limit has elapsed. It is pure, cheap, and allocation-free, so
//! it is safe to evaluate from whatever execution context the engine uses.

use vstd::prelude::*;

verus! {

/// Whether `elapsed_nanos` of wall-clock time has reached a limit of
/// `limit_nanos`: exactly when the elapsed time is at least the limit.
pub fn deadline_reached(elapsed_nanos: u128, limit_nanos: u64) -> (r: bool)
    ensures
        r == (elapsed_nanos >= limit_nanos as u128),
{
    elapsed_nanos >= limit_nanos as u128
}

} // verus!
