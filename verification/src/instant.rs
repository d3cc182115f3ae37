//! Instants on the UTC time line, at nanosecond resolution.

use vstd::prelude::*;

verus! {

/// Nanoseconds in one second.
pub const NANOS_PER_SECOND: u32 = 1_000_000_000;

/// Nanoseconds in one millisecond.
pub const NANOS_PER_MILLI: u32 = 1_000_000;

/// A point in time: whole seconds since the Unix epoch and a nanosecond offset from them.
///
/// The two fields add up, so `nanos` may exceed one second; two values with the same sum
/// denote the same instant without being equal as structs.
#[derive(Clone, Copy, Debug, PartialEq, Eq, Structural)]
pub struct Instant {
    pub secs: i64,
    pub nanos: u32,
}

impl View for Instant {
    type V = int;

    /// Nanoseconds since the Unix epoch.
    open spec fn view(&self) -> int {
        self.secs * NANOS_PER_SECOND + self.nanos
    }
}

impl Instant {
    /// The nanoseconds from `earlier` to `self`: below zero if `self` is the earlier one.
    pub fn nanos_since(&self, earlier: &Instant) -> (elapsed: i128)
        ensures
            elapsed == self@ - earlier@,
    {
        let secs: i128 = self.secs as i128 - earlier.secs as i128;
        let nanos: i128 = self.nanos as i128 - earlier.nanos as i128;
        secs * 1_000_000_000 + nanos
    }
}

} // verus!
