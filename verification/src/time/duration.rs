//! A duration counted in timer ticks.
//!
//! The mocks never measure time, so a duration is plain data: the tick count
//! it was built from travels through the capture channel unchanged. The
//! second- and millisecond-based constructors use the reference tick rate of
//! one megahertz.

use vstd::prelude::*;

verus! {

/// Timer ticks in one second at the reference tick rate.
pub const TICKS_PER_SECOND: u64 = 1_000_000;

/// Timer ticks in one millisecond at the reference tick rate.
pub const TICKS_PER_MILLISECOND: u64 = 1_000;

/// A span of time, counted in timer ticks.
#[derive(Clone, Copy, Debug, PartialEq, Eq, Structural)]
pub struct Duration {
    ticks: u64,
}

impl Duration {
    /// The tick count this duration holds.
    pub closed spec fn ticks(self) -> u64 {
        self.ticks
    }

    /// A duration of exactly `ticks` timer ticks.
    pub fn from_ticks(ticks: u64) -> (d: Duration)
        ensures
            d.ticks() == ticks,
    {
        Duration { ticks }
    }

    /// A duration of `millis` milliseconds at the reference tick rate.
    pub fn from_millis(millis: u64) -> (d: Duration)
        requires
            millis <= u64::MAX / TICKS_PER_MILLISECOND,
        ensures
            d.ticks() == millis * TICKS_PER_MILLISECOND,
    {
        Duration { ticks: millis * TICKS_PER_MILLISECOND }
    }

    /// A duration of `secs` seconds at the reference tick rate.
    pub fn from_secs(secs: u64) -> (d: Duration)
        requires
            secs <= u64::MAX / TICKS_PER_SECOND,
        ensures
            d.ticks() == secs * TICKS_PER_SECOND,
    {
        Duration { ticks: secs * TICKS_PER_SECOND }
    }

    /// The tick count this duration holds.
    pub fn as_ticks(&self) -> (ticks: u64)
        ensures
            ticks == self.ticks(),
    {
        self.ticks
    }
}

} // verus!
