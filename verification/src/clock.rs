//! A monotonic clock that reports nanoseconds since it was started.

use std::time::Duration;
use std::time::Instant;
use vstd::prelude::*;

verus! {

#[verifier::external_type_specification]
#[verifier::external_body]
pub struct ExInstant(Instant);

/// Calls `std::time::Instant::now`. The reading depends on the machine's
/// monotonic clock, so nothing is claimed of it.
#[verifier::external_body]
fn instant_now() -> Instant {
    Instant::now()
}

/// Calls `std::time::Instant::elapsed`. The result depends on the time of the
/// call, so nothing is claimed of it.
#[verifier::external_body]
fn instant_elapsed(origin: &Instant) -> Duration {
    origin.elapsed()
}

/// Calls `std::time::Duration::as_nanos`. `Duration` is opaque here, so the
/// whole number of nanoseconds it returns is not stated.
#[verifier::external_body]
fn duration_as_nanos(d: &Duration) -> u128 {
    d.as_nanos()
}

/// Nanoseconds from the reading `since` to the reading `now`, or zero if
/// `now` is not later.
pub open spec fn elapsed_ns(since: u64, now: u64) -> u64 {
    if now > since { (now - since) as u64 } else { 0 }
}

/// The reading for `nanos` nanoseconds elapsed when the previous reading
/// was `last`: `nanos` capped at `u64::MAX`, and never below `last`.
pub open spec fn reading_of(nanos: u128, last: u64) -> u64 {
    let capped: u64 = if nanos > u64::MAX { u64::MAX } else { nanos as u64 };
    if capped > last { capped } else { last }
}

/// Computes the reading for `nanos` nanoseconds elapsed when the previous
/// reading was `last`.
fn next_reading(nanos: u128, last: u64) -> (r: u64)
    ensures
        r == reading_of(nanos, last),
{
    let capped: u64 = if nanos > 18_446_744_073_709_551_615u128 {
        u64::MAX
    } else {
        nanos as u64
    };
    if capped > last { capped } else { last }
}

/// A clock whose readings are nanoseconds since `Clock::start` was called.
/// Readings never go back: each is at least the one before.
#[derive(Clone, Copy, Debug)]
pub struct Clock {
    origin: Instant,
    last_ns: u64,
}

impl View for Clock {
    type V = u64;

    /// The last reading, or 0 before the first.
    closed spec fn view(&self) -> u64 {
        self.last_ns
    }
}

impl Clock {
    /// Starts a clock at the current instant; no reading has been taken.
    pub fn start() -> (c: Clock)
        ensures
            c@ == 0,
    {
        Clock { origin: instant_now(), last_ns: 0 }
    }

    /// Nanoseconds elapsed since the clock was started, saturating at
    /// `u64::MAX` (about 584 years), and never less than the previous
    /// reading.
    pub fn now_ns(&mut self) -> (r: u64)
        ensures
            r >= old(self)@,
            final(self)@ == r,
            exists|nanos: u128| r == #[trigger] reading_of(nanos, old(self)@),
    {
        let elapsed = instant_elapsed(&self.origin);
        let nanos = duration_as_nanos(&elapsed);
        let r = next_reading(nanos, self.last_ns);
        assert(r == reading_of(nanos, old(self)@));
        self.last_ns = r;
        r
    }
}

} // verus!
