//! The monotonic clock capability that bounds the deadline-bound publish
//! loop.

use vstd::prelude::*;

verus! {

/// A clock in nanoseconds. The library assumes nothing of the values it
/// returns: a real implementation reads the system clock, a test one may
/// script any sequence.
pub trait NanoClock {
    fn nano_time(&self) -> i64;
}

} // verus!
