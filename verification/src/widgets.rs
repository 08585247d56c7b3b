//! Frame counting for the rendering loop.
//!
//! [`FrameCounter`] counts redraw ticks and, once every
//! [`FRAMERATE_UPDATE_INTERVAL`] ticks, derives a frames-per-second estimate
//! from the time the interval took.  The clock decides the elapsed time, so
//! the contracts pin the arithmetic on it: how the estimate is bounded, and
//! that sampling never disturbs the tick count.

use std::time::{Duration, Instant};
use vstd::arithmetic::div_mod::lemma_div_nonincreasing;
use vstd::prelude::*;

verus! {

/// std::time::Instant, declared so a monotonic timestamp can be held in a
/// field; nothing inside a value of it is visible.
#[verifier::external_type_specification]
#[verifier::external_body]
pub struct ExInstant(Instant);

/// Relies on std::time::Instant::now: an opaque monotonic timestamp.  The
/// clock decides the value, so nothing is promised of it.
pub assume_specification[ Instant::now ]() -> Instant;

/// Relies on std::time::Instant::elapsed: the time since the instant.  The
/// clock decides the value, so nothing is promised of it.
pub assume_specification[ Instant::elapsed ](this: &Instant) -> Duration;

/// Relies on core::time::Duration::as_millis: the duration in whole
/// milliseconds.  No caller here needs more than the value itself.
pub assume_specification[ Duration::as_millis ](this: &Duration) -> u128;

/// Ticks between framerate recomputations.
pub const FRAMERATE_UPDATE_INTERVAL: u64 = 10;

/// Counts redraw ticks and keeps a frames-per-second estimate, refreshed
/// every [`FRAMERATE_UPDATE_INTERVAL`] ticks.
pub struct FrameCounter {
    last_frame: Instant,
    tick_number: u64,
    framerate: u32,
}

impl FrameCounter {
    /// How many ticks have been registered.
    pub closed spec fn spec_tick_number(self) -> u64 {
        self.tick_number
    }

    /// The current frames-per-second estimate.
    pub closed spec fn spec_framerate(self) -> u32 {
        self.framerate
    }

    /// A freshly derived estimate: 99 when the interval took under a
    /// millisecond, otherwise at most one frame per millisecond over the
    /// interval, which caps it at 1000 times the interval length.
    pub open spec fn framerate_in_range(rate: u32) -> bool {
        rate == 99 || rate <= 1000 * FRAMERATE_UPDATE_INTERVAL
    }

    /// A counter at tick zero with no estimate yet.
    pub fn new() -> (r: Self)
        ensures
            r.spec_tick_number() == 0,
            r.spec_framerate() == 0,
    {
        FrameCounter { last_frame: Instant::now(), tick_number: 0, framerate: 0 }
    }

    /// Registers one tick.  The tick count advances by one (wrapping at the
    /// top of its range); at the end of each interval the framerate is
    /// resampled and the reference instant reset, and between interval ends
    /// the estimate is untouched.
    pub fn register_tick(&mut self)
        ensures
            old(self).spec_tick_number() < u64::MAX ==> final(self).spec_tick_number()
                == old(self).spec_tick_number() + 1,
            old(self).spec_tick_number() == u64::MAX ==> final(self).spec_tick_number() == 0,
            final(self).spec_tick_number() as int % FRAMERATE_UPDATE_INTERVAL as int == 0
                ==> Self::framerate_in_range(final(self).spec_framerate()),
            final(self).spec_tick_number() as int % FRAMERATE_UPDATE_INTERVAL as int != 0
                ==> final(self).spec_framerate() == old(self).spec_framerate(),
    {
        self.tick_number = self.tick_number.wrapping_add(1);
        if self.tick_number % FRAMERATE_UPDATE_INTERVAL == 0 {
            self.update_framerate();
            self.update_delta_time();
        }
    }

    /// Resamples the framerate from the time since the reference instant:
    /// 99 when no whole millisecond elapsed, otherwise the interval length
    /// in ticks, times 1000, divided by the elapsed milliseconds.  Returns
    /// the new estimate.
    pub fn update_framerate(&mut self) -> (r: u32)
        ensures
            r == final(self).spec_framerate(),
            Self::framerate_in_range(r),
            final(self).spec_tick_number() == old(self).spec_tick_number(),
    {
        let delta_time: u128 = self.last_frame.elapsed().as_millis();
        if delta_time == 0 {
            self.framerate = 99;
        } else {
            let rate: u128 = (FRAMERATE_UPDATE_INTERVAL as u128 * 1000) / delta_time;
            proof {
                lemma_div_nonincreasing(
                    FRAMERATE_UPDATE_INTERVAL as int * 1000,
                    delta_time as int,
                );
            }
            self.framerate = rate as u32;
        }
        self.framerate
    }

    /// Resets the reference instant to now, leaving the tick count and the
    /// estimate alone.
    pub fn update_delta_time(&mut self)
        ensures
            final(self).spec_tick_number() == old(self).spec_tick_number(),
            final(self).spec_framerate() == old(self).spec_framerate(),
    {
        self.last_frame = Instant::now();
    }

    /// The current frames-per-second estimate.
    pub fn fps(&self) -> (r: u32)
        ensures
            r == self.spec_framerate(),
    {
        self.framerate
    }
}

} // verus!
