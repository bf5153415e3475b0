//! The two-phase interval timer: it alternates a fixed-length work phase and
//! a fixed-length break phase, flipping on a periodic tick once the elapsed
//! time strictly exceeds the current phase's length. Running to exactly the
//! boundary does not flip the phase.

use vstd::prelude::*;

use crate::config::Config;

verus! {

/// The timer's phase: a closed set of variants, so that call sites need not
/// widen if further phases are ever added.
#[derive(Clone, Copy, PartialEq, Eq, Structural, Debug)]
pub enum Phase {
    Working,
    OnBreak,
}

/// The phase that follows a transition.
pub open spec fn spec_flip(p: Phase) -> Phase {
    match p {
        Phase::Working => Phase::OnBreak,
        Phase::OnBreak => Phase::Working,
    }
}

/// The two-phase timer: fixed positive phase lengths, the current phase, and
/// the instant (milliseconds on a monotonic scale) at which it began.
pub struct TimerCycle {
    /// Length of the work phase, in milliseconds; positive and immutable.
    pub work_length: u64,
    /// Length of the break phase, in milliseconds; positive and immutable.
    pub break_length: u64,
    /// The current phase.
    pub phase: Phase,
    /// When the current phase began; reset to `now` on every transition.
    pub phase_start: u64,
}

impl TimerCycle {
    /// Both phase lengths are positive.
    pub open spec fn wf(&self) -> bool {
        self.work_length > 0 && self.break_length > 0
    }

    /// The length of the current phase.
    pub open spec fn spec_current_length(&self) -> u64 {
        match self.phase {
            Phase::Working => self.work_length,
            Phase::OnBreak => self.break_length,
        }
    }

    /// Time spent in the current phase at `now`.
    pub open spec fn spec_elapsed(&self, now: u64) -> int {
        now - self.phase_start
    }

    /// Time left in the current phase at `now`, floored at zero however far
    /// the elapsed time overshoots the phase length.
    pub open spec fn spec_remaining(&self, now: u64) -> int {
        if self.spec_elapsed(now) >= self.spec_current_length() {
            0
        } else {
            self.spec_current_length() - self.spec_elapsed(now)
        }
    }

    /// Starts a timer in the work phase at `now`, with the configured phase
    /// lengths.
    pub fn new(config: &Config, now: u64) -> (t: TimerCycle)
        requires
            config.wf(),
        ensures
            t.wf(),
            t.work_length == config.work_length,
            t.break_length == config.break_length,
            t.phase == Phase::Working,
            t.phase_start == now,
    {
        TimerCycle {
            work_length: config.work_length,
            break_length: config.break_length,
            phase: Phase::Working,
            phase_start: now,
        }
    }

    /// The length of the current phase.
    pub fn current_length(&self) -> (r: u64)
        ensures
            r == self.spec_current_length(),
    {
        match self.phase {
            Phase::Working => self.work_length,
            Phase::OnBreak => self.break_length,
        }
    }

    /// Time spent in the current phase at `now`, which must not precede the
    /// phase's start (the clock is monotonic).
    pub fn elapsed(&self, now: u64) -> (r: u64)
        requires
            now >= self.phase_start,
        ensures
            r == self.spec_elapsed(now),
    {
        now - self.phase_start
    }

    /// Time left in the current phase at `now`: the phase length minus the
    /// elapsed time, floored at zero.
    pub fn remaining(&self, now: u64) -> (r: u64)
        requires
            now >= self.phase_start,
        ensures
            r == self.spec_remaining(now),
    {
        self.current_length().saturating_sub(self.elapsed(now))
    }

    /// How far the current phase has progressed at `now`, as a percentage
    /// capped at 100.
    pub open spec fn spec_progress_percent(&self, now: u64) -> int {
        let p = self.spec_elapsed(now) * 100 / (self.spec_current_length() as int);
        if p < 100 {
            p
        } else {
            100
        }
    }

    /// How far the current phase has progressed at `now`, as a percentage of
    /// its length, capped at 100 (for a gauge display).
    pub fn progress_percent(&self, now: u64) -> (r: u16)
        requires
            self.wf(),
            now >= self.phase_start,
        ensures
            r == self.spec_progress_percent(now),
            r <= 100,
    {
        let len = self.current_length();
        let e = self.elapsed(now);
        let p = (e as u128) * 100 / (len as u128);
        if p >= 100 {
            100
        } else {
            p as u16
        }
    }

    /// The remaining time at `now`, split into whole minutes and leftover
    /// whole seconds (for a clock display).
    pub fn remaining_clock(&self, now: u64) -> (r: (u64, u64))
        requires
            now >= self.phase_start,
        ensures
            r.0 == self.spec_remaining(now) / 1000 / 60,
            r.1 == self.spec_remaining(now) / 1000 % 60,
    {
        let secs = self.remaining(now) / 1000;
        (secs / 60, secs % 60)
    }

    /// Advances the state machine at `now`: flips the phase exactly once and
    /// restarts it at `now` when the elapsed time strictly exceeds the
    /// current phase's length, and changes nothing otherwise — in particular
    /// nothing changes when the elapsed time equals the length exactly.
    /// Returns whether a transition happened, so that the caller can fire an
    /// alert; a failing alert is the caller's affair and cannot roll the
    /// committed transition back.
    pub fn tick(&mut self, now: u64) -> (alert: bool)
        requires
            old(self).wf(),
            now >= old(self).phase_start,
        ensures
            final(self).wf(),
            final(self).work_length == old(self).work_length,
            final(self).break_length == old(self).break_length,
            alert == (old(self).spec_elapsed(now) > old(self).spec_current_length()),
            alert ==> final(self).phase == spec_flip(old(self).phase) && final(self).phase_start
                == now,
            !alert ==> *final(self) == *old(self),
            final(self).phase_start >= old(self).phase_start,
    {
        if self.elapsed(now) > self.current_length() {
            self.phase = match self.phase {
                Phase::Working => Phase::OnBreak,
                Phase::OnBreak => Phase::Working,
            };
            self.phase_start = now;
            true
        } else {
            false
        }
    }
}

/// The remaining time is never negative, however far the elapsed time
/// overshoots the current phase's length.
pub proof fn lemma_remaining_nonneg(t: &TimerCycle, now: u64)
    requires
        now >= t.phase_start,
    ensures
        t.spec_remaining(now) >= 0,
{
}

} // verus!
