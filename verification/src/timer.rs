//! The countdown timer: a deadline on a millisecond clock, with extension,
//! reduction and expiry checks, plus the 10-segment display bar contract.
//!
//! The timer never reads a clock itself: every query takes the current
//! reading of a monotonic millisecond clock as an argument, so the whole
//! component is a pure function of plain values. Arithmetic on the deadline
//! saturates at the representable range instead of overflowing; a reduction
//! past zero is a legal "already expired" state, not an error.

use vstd::prelude::*;

verus! {

/// An integer clipped to the `i64` range.
pub open spec fn spec_clip_i64(x: int) -> int {
    if x > i64::MAX {
        i64::MAX as int
    } else if x < i64::MIN {
        i64::MIN as int
    } else {
        x
    }
}

/// Saturating sum of two millisecond values.
pub open spec fn spec_sat_add(a: int, b: int) -> int {
    spec_clip_i64(a + b)
}

/// Saturating difference of two millisecond values.
pub open spec fn spec_sat_sub(a: int, b: int) -> int {
    spec_clip_i64(a - b)
}

/// Saturating addition on `i64`.
pub fn sat_add(a: i64, b: i64) -> (r: i64)
    ensures
        r == spec_sat_add(a as int, b as int),
{
    if b >= 0 {
        if a > i64::MAX - b {
            i64::MAX
        } else {
            a + b
        }
    } else {
        if a < i64::MIN - b {
            i64::MIN
        } else {
            a + b
        }
    }
}

/// Saturating subtraction on `i64`.
pub fn sat_sub(a: i64, b: i64) -> (r: i64)
    ensures
        r == spec_sat_sub(a as int, b as int),
{
    if b <= 0 {
        if a > i64::MAX + b {
            i64::MAX
        } else {
            a - b
        }
    } else {
        if a < i64::MIN + b {
            i64::MIN
        } else {
            a - b
        }
    }
}

/// An unsigned millisecond count clipped to the `i64` range.
pub open spec fn spec_clip_u64_ms(ms: int) -> int {
    if ms > i64::MAX {
        i64::MAX as int
    } else {
        ms
    }
}

/// Narrows an unsigned millisecond count to `i64`, saturating at the top.
pub fn ms_to_i64(ms: u64) -> (r: i64)
    ensures
        r == spec_clip_u64_ms(ms as int),
        r >= 0,
{
    if ms > i64::MAX as u64 {
        i64::MAX
    } else {
        ms as i64
    }
}

/// Color band of the display bar, by filled-segment count: 2 or fewer
/// segments are urgent, 3 to 5 a warning, more than 5 nominal.
#[derive(Debug, Clone, Copy, PartialEq, Eq, Structural)]
pub enum TimerBand {
    Urgent,
    Warning,
    Nominal,
}

/// The band that a filled-segment count falls in.
pub open spec fn spec_band(segments: int) -> TimerBand {
    if segments <= 2 {
        TimerBand::Urgent
    } else if segments <= 5 {
        TimerBand::Warning
    } else {
        TimerBand::Nominal
    }
}

/// Filled segments of the 10-segment bar: the ceiling of the remaining time
/// divided by a tenth of the initial duration, clamped to 0 through 10.
pub open spec fn spec_segments(remaining: int, initial: int) -> int
    recommends
        initial >= 10,
{
    let step = initial / 10;
    if remaining <= 0 {
        0
    } else if (remaining - 1) / step + 1 > 10 {
        10
    } else {
        (remaining - 1) / step + 1
    }
}

/// Tracks an absolute deadline on a millisecond clock, together with the
/// duration it was started from.
pub struct GameTimer {
    pub initial_ms: i64,
    pub deadline_ms: i64,
}

impl GameTimer {
    /// Structural invariant: the timer was started from a non-negative
    /// duration.
    pub open spec fn wf(self) -> bool {
        self.initial_ms >= 0
    }

    /// Milliseconds left until the deadline as seen at clock reading
    /// `now_ms`; negative once the deadline has passed.
    pub open spec fn spec_remaining(self, now_ms: int) -> int {
        spec_sat_sub(self.deadline_ms as int, now_ms)
    }

    /// Whether the timer has expired as seen at clock reading `now_ms`.
    pub open spec fn spec_is_over(self, now_ms: int) -> bool {
        self.spec_remaining(now_ms) <= 0
    }

    /// A timer whose deadline lies `dur_ms` after the clock reading
    /// `now_ms`.
    pub fn start_from(dur_ms: i64, now_ms: i64) -> (t: GameTimer)
        requires
            dur_ms >= 0,
        ensures
            t.wf(),
            t.initial_ms == dur_ms,
            t.deadline_ms == spec_sat_add(now_ms as int, dur_ms as int),
    {
        GameTimer { initial_ms: dur_ms, deadline_ms: sat_add(now_ms, dur_ms) }
    }

    /// Milliseconds left until the deadline; negative once it has passed.
    pub fn remaining(&self, now_ms: i64) -> (r: i64)
        ensures
            r == self.spec_remaining(now_ms as int),
    {
        sat_sub(self.deadline_ms, now_ms)
    }

    /// Whether the deadline has passed: expiry is exactly `deadline <= now`.
    pub fn is_over(&self, now_ms: i64) -> (r: bool)
        ensures
            r == self.spec_is_over(now_ms as int),
            r <==> self.deadline_ms <= now_ms,
    {
        self.remaining(now_ms) <= 0
    }

    /// Pushes the deadline `dur_ms` further into the future.
    pub fn add(&mut self, dur_ms: i64)
        requires
            dur_ms >= 0,
        ensures
            final(self).initial_ms == old(self).initial_ms,
            final(self).deadline_ms == spec_sat_add(old(self).deadline_ms as int, dur_ms as int),
    {
        self.deadline_ms = sat_add(self.deadline_ms, dur_ms);
    }

    /// Pulls the deadline `dur_ms` back, possibly into the past; there is no
    /// floor, so a reduction past zero simply leaves the timer expired.
    pub fn sub(&mut self, dur_ms: i64)
        requires
            dur_ms >= 0,
        ensures
            final(self).initial_ms == old(self).initial_ms,
            final(self).deadline_ms == spec_sat_sub(old(self).deadline_ms as int, dur_ms as int),
    {
        self.deadline_ms = sat_sub(self.deadline_ms, dur_ms);
    }

    /// Restarts the countdown: the deadline moves to the initial duration
    /// after the clock reading `now_ms`.
    pub fn reset(&mut self, now_ms: i64)
        ensures
            final(self).initial_ms == old(self).initial_ms,
            final(self).deadline_ms == spec_sat_add(now_ms as int, old(self).initial_ms as int),
    {
        self.deadline_ms = sat_add(now_ms, self.initial_ms);
    }

    /// Filled-segment count of the 10-segment display bar at clock reading
    /// `now_ms`.
    pub fn bar_segments(&self, now_ms: i64) -> (n: u8)
        requires
            self.initial_ms >= 10,
        ensures
            n == spec_segments(self.spec_remaining(now_ms as int), self.initial_ms as int),
            n <= 10,
    {
        let step = self.initial_ms / 10;
        let rem = self.remaining(now_ms);
        if rem <= 0 {
            0
        } else {
            let ceiled = (rem - 1) / step + 1;
            if ceiled > 10 {
                10
            } else {
                ceiled as u8
            }
        }
    }
}

/// The color band of a filled-segment count.
pub fn band_of_segments(segments: u8) -> (band: TimerBand)
    ensures
        band == spec_band(segments as int),
{
    if segments <= 2 {
        TimerBand::Urgent
    } else if segments <= 5 {
        TimerBand::Warning
    } else {
        TimerBand::Nominal
    }
}

/// A reduction that consumes at least the remaining time leaves the deadline
/// at or before `now`, so the very next expiry check reports the timer
/// expired (and the check itself can neither fail nor wrap around).
pub proof fn lemma_reduce_past_zero_expires(t: GameTimer, dur_ms: i64, now_ms: i64)
    requires
        dur_ms >= t.deadline_ms - now_ms,
    ensures
        spec_sat_sub(t.deadline_ms as int, dur_ms as int) <= now_ms,
        (GameTimer {
            initial_ms: t.initial_ms,
            deadline_ms: spec_sat_sub(t.deadline_ms as int, dur_ms as int) as i64,
        }).spec_is_over(now_ms as int),
{
}

} // verus!
