//! The clock: frame times of any length, handed on as whole milliseconds.

use vstd::prelude::*;

verus! {

/// Nanoseconds in a millisecond.
pub const NANOS_PER_MILLI: u64 = 1_000_000;

/// Keeps the fraction of a millisecond that a frame time leaves over, so
/// that the ticks of a run add up to the time that has passed.
#[derive(Clone, Copy, Debug, PartialEq, Eq, Structural)]
pub struct Clock {
    /// Nanoseconds that have passed and are not handed on yet.
    pub carry: u32,
}

impl Clock {
    /// The whole milliseconds in a frame time of `seconds` seconds and
    /// `nanos` nanoseconds, together with what the clock has kept.
    pub open spec fn millis(self, seconds: u64, nanos: u32) -> int {
        seconds * 1000 + (self.carry + nanos) / (NANOS_PER_MILLI as int)
    }

    /// A clock that has kept nothing.
    pub open spec fn spec_new() -> Clock {
        Clock { carry: 0 }
    }

    /// A clock that has kept nothing.
    #[verifier::when_used_as_spec(spec_new)]
    pub fn new() -> (clock: Clock)
        ensures
            clock == Self::spec_new(),
    {
        Clock { carry: 0 }
    }

    /// Takes the time of one frame and returns the length of the tick in
    /// milliseconds, at most `u64::MAX`. The fraction of a millisecond
    /// that is left over is kept for the next frame, so that no time is
    /// lost from one tick to the next.
    pub fn advance(&mut self, seconds: u64, nanos: u32) -> (delta: u64)
        ensures
            delta == if old(self).millis(seconds, nanos) <= u64::MAX {
                old(self).millis(seconds, nanos)
            } else {
                u64::MAX as int
            },
            final(self).carry == (old(self).carry + nanos) % (NANOS_PER_MILLI as int),
            delta < u64::MAX ==> delta * NANOS_PER_MILLI + final(self).carry == seconds
                * 1_000_000_000 + nanos + old(self).carry,
    {
        let part: u64 = self.carry as u64 + nanos as u64;
        let whole: u128 = seconds as u128 * 1000 + (part / NANOS_PER_MILLI) as u128;
        self.carry = (part % NANOS_PER_MILLI) as u32;
        if whole > u64::MAX as u128 {
            u64::MAX
        } else {
            whole as u64
        }
    }
}

} // verus!
