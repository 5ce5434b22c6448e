//! The time source of the frame loop.
//!
//! A time source holds one reading of the clock, its reference point. What
//! it does with a reading is stated over the reading; the functions that
//! read the clock themselves hand the reading on.

use std::time::{Duration, Instant};
use vstd::prelude::*;

verus! {

#[verifier::external_type_specification]
#[verifier::external_body]
pub struct ExInstant(std::time::Instant);

/// The time that `Instant::duration_since` measures from `earlier` to
/// `later`: the time that has passed between the two, and none where
/// `earlier` is the later of them.
pub uninterp spec fn elapsed_between(later: Instant, earlier: Instant) -> Duration;

/// `Instant::now` reads the clock. Nothing is claimed of what it returns.
pub assume_specification[ Instant::now ]() -> (now: Instant);

/// `Instant::duration_since` measures from `earlier` to `this`, and gives
/// zero where `earlier` is the later of the two. The contract claims only
/// that what it returns depends on the two readings and on nothing else.
pub assume_specification[ Instant::duration_since ](this: &Instant, earlier: Instant) -> (elapsed:
    Duration)
    ensures
        elapsed == elapsed_between(*this, earlier),
;

/// Remembers when the last frame was finished.
#[derive(Clone, Copy, Debug)]
pub struct Time {
    last_time: Instant,
}

impl Time {
    /// The reference point: the reading of the clock that time is measured
    /// from.
    pub closed spec fn reference(&self) -> Instant {
        self.last_time
    }

    /// A time source whose reference point is `now`.
    pub fn at(now: Instant) -> (time: Self)
        ensures
            time.reference() == now,
    {
        Self { last_time: now }
    }

    /// A time source whose reference point is the clock's reading.
    pub fn new() -> (time: Self) {
        Self::at(Instant::now())
    }

    /// The time from the reference point to `now`. The reference point
    /// stays.
    pub fn delta_at(&self, now: Instant) -> (elapsed: Duration)
        ensures
            elapsed == elapsed_between(now, self.reference()),
    {
        now.duration_since(self.last_time)
    }

    /// The time that has passed since the reference point: the time from
    /// there to some reading of the clock.
    pub fn time_delta(&self) -> (elapsed: Duration)
        ensures
            exists|now: Instant| elapsed == elapsed_between(now, self.reference()),
    {
        self.delta_at(Instant::now())
    }

    /// Moves the reference point to `now`, wherever it was.
    pub fn advance_to(&mut self, now: Instant)
        ensures
            final(self).reference() == now,
    {
        self.last_time = now;
    }

    /// Moves the reference point to the clock's reading.
    pub fn post_update(&mut self) {
        self.advance_to(Instant::now());
    }
}

} // verus!
