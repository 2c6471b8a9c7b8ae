//! The timer-resolution controller: the kernel's allowed timer-interrupt
//! bounds, the clamp policy for requested values, and the bookkeeping for an
//! applied resolution.

use vstd::prelude::*;

verus! {

/// Timer-resolution bounds and the value currently in force, all in
/// 100-nanosecond units, as reported by the kernel.
///
/// The NT convention is inverted from intuition: `min` is the *largest*
/// allowed tick value (coarsest resolution) and `max` is the *smallest*
/// allowed tick value (finest resolution). The inversion mirrors the
/// kernel's own naming and is deliberately not "fixed" here.
#[derive(Debug, Clone, Copy, Eq, PartialEq, Ord, PartialOrd)]
pub struct TimerResolutionInfo {
    pub cur: u32,
    pub min: u32,
    pub max: u32,
}

impl TimerResolutionInfo {
    /// Bounds in the order the kernel promises them: the finest allowed
    /// value does not exceed the coarsest.
    pub open spec fn bounds_ordered(self) -> bool {
        self.max <= self.min
    }

    /// The clamp policy: a request coarser than the coarsest allowed value
    /// is pulled down to `min`, a request finer than the finest allowed
    /// value is pulled up to `max`, anything in range passes unchanged.
    pub open spec fn spec_clamp(self, value: u32) -> u32 {
        if value > self.min {
            self.min
        } else if value < self.max {
            self.max
        } else {
            value
        }
    }

    /// The state after the kernel reports `applied` as the resolution now in
    /// force: `cur` is refreshed, the bounds stay untouched.
    pub open spec fn with_applied(self, applied: u32) -> Self {
        TimerResolutionInfo { cur: applied, min: self.min, max: self.max }
    }

    /// Clamps a requested timer value into the allowed range. Pure: no
    /// kernel call is made and `self` is not changed.
    pub fn clamp_timer_value(&self, value: u32) -> (r: u32)
        ensures
            r == self.spec_clamp(value),
    {
        if value > self.min {
            self.min
        } else if value < self.max {
            self.max
        } else {
            value
        }
    }

    /// True when the fetched bounds respect the kernel's own convention
    /// (`max <= min`). A report violating it is a platform anomaly that
    /// callers are expected to surface before trusting the clamp policy.
    pub fn bounds_ok(&self) -> (r: bool)
        ensures
            r == self.bounds_ordered(),
    {
        self.max <= self.min
    }

    /// Records the resolution the kernel actually applied. The kernel may
    /// adjust a requested value further (depending on the active clock
    /// source), so `cur` is always refreshed from the kernel's answer, never
    /// from the request.
    pub fn record_applied(&mut self, applied: u32)
        ensures
            *final(self) == old(self).with_applied(applied),
    {
        self.cur = applied;
    }
}

/// Law: for well-ordered bounds, any request at or below the finest allowed
/// value clamps to that finest value `max`.
pub proof fn lemma_clamp_at_or_below_finest(info: TimerResolutionInfo, value: u32)
    requires
        info.bounds_ordered(),
        value <= info.max,
    ensures
        info.spec_clamp(value) == info.max,
{
}

/// Law: for well-ordered bounds, any request at or above the coarsest
/// allowed value clamps to that coarsest value `min`.
pub proof fn lemma_clamp_at_or_above_coarsest(info: TimerResolutionInfo, value: u32)
    requires
        info.bounds_ordered(),
        value >= info.min,
    ensures
        info.spec_clamp(value) == info.min,
{
}

/// Law: a request strictly between the two bounds passes through the clamp
/// unchanged.
pub proof fn lemma_clamp_in_range(info: TimerResolutionInfo, value: u32)
    requires
        info.max < value < info.min,
    ensures
        info.spec_clamp(value) == value,
{
}

/// Law: applying a timer value is idempotent. Clamping an already-clamped
/// request changes nothing, recording an applied value does not move the
/// bounds the clamp works from, and with a stable clock source — the kernel
/// answering the same request with the same applied value — a second apply
/// leaves the same `cur` as the first.
pub proof fn lemma_apply_timer_idempotent(info: TimerResolutionInfo, value: u32, applied: u32)
    requires
        info.bounds_ordered(),
    ensures
        info.spec_clamp(info.spec_clamp(value)) == info.spec_clamp(value),
        info.with_applied(applied).spec_clamp(value) == info.spec_clamp(value),
        info.with_applied(applied).with_applied(applied) == info.with_applied(applied),
{
}

} // verus!
