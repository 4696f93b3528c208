//! Points in time and spans of time, counted in ticks of the system clock.
//!
//! The arithmetic on them is that of `embassy_time`.

use vstd::prelude::*;

verus! {

/// Ticks of the system clock in one second, as the feature `tick-hz-1_000_000`
/// of `embassy_time` has it.
pub const TICK_HZ: u64 = 1_000_000;

/// The ticks in `n` seconds.
pub open spec fn secs(n: int) -> int {
    n * TICK_HZ
}

/// The ticks in `n` milliseconds.
pub open spec fn millis(n: int) -> int {
    n * 1_000
}

/// The ticks in `n` microseconds.
pub open spec fn micros(n: int) -> int {
    n
}

/// A span of time.
#[derive(Clone, Copy, PartialEq, Eq, Debug, Structural)]
pub struct Duration {
    pub ticks: u64,
}

/// A point in time, counted from the start of the system.
#[derive(Clone, Copy, PartialEq, Eq, Debug, Structural)]
pub struct Instant {
    pub ticks: u64,
}

impl Duration {
    /// `embassy_time::Duration::from_secs`: the span has `TICK_HZ` ticks for
    /// each second. The product must fit in 64 bits.
    #[verifier::external_body]
    pub(crate) fn from_secs(n: u64) -> (d: Duration)
        requires
            secs(n as int) <= u64::MAX,
        ensures
            d.ticks == secs(n as int),
    {
        Duration { ticks: embassy_time::Duration::from_secs(n).as_ticks() }
    }

    /// `embassy_time::Duration::from_millis`: the span has one thousandth of
    /// `TICK_HZ` ticks for each millisecond. The product must lie below the
    /// largest 64-bit number, since the call rounds up.
    #[verifier::external_body]
    pub(crate) fn from_millis(n: u64) -> (d: Duration)
        requires
            millis(n as int) < u64::MAX,
        ensures
            d.ticks == millis(n as int),
    {
        Duration { ticks: embassy_time::Duration::from_millis(n).as_ticks() }
    }

    /// `embassy_time::Duration::from_micros`: the span has one tick for each
    /// microsecond. Their number must lie below the largest 64-bit number,
    /// since the call rounds up.
    #[verifier::external_body]
    pub(crate) fn from_micros(n: u64) -> (d: Duration)
        requires
            micros(n as int) < u64::MAX,
        ensures
            d.ticks == micros(n as int),
    {
        Duration { ticks: embassy_time::Duration::from_micros(n).as_ticks() }
    }
}

impl Instant {
    /// Whether the instant `d` after this one can be represented.
    pub open spec fn reaches(self, d: int) -> bool {
        self.ticks + d <= u64::MAX
    }

    /// Addition of an `embassy_time::Duration` to an `embassy_time::Instant`:
    /// the ticks are added. The sum must fit in 64 bits.
    #[verifier::external_body]
    pub(crate) fn plus(self, d: Duration) -> (t: Instant)
        requires
            self.reaches(d.ticks as int),
        ensures
            t.ticks == self.ticks + d.ticks,
    {
        let sum = embassy_time::Instant::from_ticks(self.ticks)
            + embassy_time::Duration::from_ticks(d.ticks);
        Instant { ticks: sum.as_ticks() }
    }

    /// Subtraction of two `embassy_time::Instant`s: the span from `earlier` to
    /// this instant. `earlier` must not lie after it.
    #[verifier::external_body]
    pub(crate) fn since(self, earlier: Instant) -> (d: Duration)
        requires
            earlier.ticks <= self.ticks,
        ensures
            d.ticks == self.ticks - earlier.ticks,
    {
        let span = embassy_time::Instant::from_ticks(self.ticks)
            - embassy_time::Instant::from_ticks(earlier.ticks);
        Duration { ticks: span.as_ticks() }
    }
}

/// A second is a thousand milliseconds, and a millisecond a thousand
/// microseconds, each of which is one tick.
pub proof fn units_agree(n: int)
    ensures
        secs(n) == millis(1_000 * n),
        millis(n) == micros(1_000 * n),
        micros(n) == n,
{
}

} // verus!
