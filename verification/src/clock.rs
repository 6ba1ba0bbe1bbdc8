//! Points in time, as nanoseconds since a clock was started.

use std::time::{Duration, Instant};
use vstd::prelude::*;

verus! {

/// Nanoseconds since the start of a `Clock`.
pub type Nanos = u128;

/// The longest time that a `Duration` can hold.
pub const MAX_NANOS: u128 = 18_446_744_073_709_551_615_999_999_999;

/// `std::time::Instant`, carried as an opaque value.
#[verifier::external_type_specification]
#[verifier::external_body]
pub struct ExInstant(Instant);

/// `Instant::now` reads the monotonic clock. Nothing is known of the instant that it returns.
pub assume_specification[ Instant::now ]() -> Instant
;

/// `Instant::elapsed` returns the time that has passed since the instant. Nothing is known of
/// how long that is.
pub assume_specification[ Instant::elapsed ](instant: &Instant) -> Duration
;

/// `Duration::as_nanos` returns the duration in nanoseconds. A duration holds at most
/// `u64::MAX` whole seconds and 999,999,999 nanoseconds on top of them.
pub assume_specification[ Duration::as_nanos ](duration: &Duration) -> (nanos: u128)
    ensures
        nanos <= MAX_NANOS,
;

/// A monotonic clock.
#[derive(Clone, Copy, Debug)]
pub struct Clock {
    pub start: Instant,
}

impl Clock {
    /// A clock that starts at the instant that `Instant::now` returns. Nothing is known of when
    /// that is.
    pub fn started() -> (clock: Clock)
        ensures
            call_ensures(Instant::now, (), clock.start),
    {
        Clock { start: Instant::now() }
    }

    /// The time since the clock was started: what `Instant::elapsed` returns, in nanoseconds. Two
    /// readings may differ; every reading leaves room to add an interval to it.
    pub fn elapsed(&self) -> (now: Nanos)
        ensures
            exists|passed: Duration| #[trigger]
                call_ensures(Instant::elapsed, (&self.start,), passed) && call_ensures(
                    Duration::as_nanos,
                    (&passed,),
                    now,
                ),
            now <= MAX_NANOS,
    {
        self.start.elapsed().as_nanos()
    }
}

/// A clock starts at the instant that it reads.
pub proof fn law_clocks_start_at_once(clock: Clock)
    requires
        call_ensures(Clock::started, (), clock),
    ensures
        call_ensures(Instant::now, (), clock.start),
{
}

/// A clock shows the nanoseconds that have passed since it was started.
pub proof fn law_clocks_count_nanoseconds(clock: Clock, now: Nanos)
    requires
        call_ensures(Clock::elapsed, (&clock,), now),
    ensures
        exists|passed: Duration| #[trigger]
            call_ensures(Instant::elapsed, (&clock.start,), passed) && call_ensures(
                Duration::as_nanos,
                (&passed,),
                now,
            ),
{
}

} // verus!
