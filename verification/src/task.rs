//! A task: a display name, a completion flag, and an ordered log of the
//! wall-clock periods during which the task was the actively selected one.
//!
//! A period is a pair of timestamps `(start, end)` with `start <= end`. The
//! last period of the log may be *open*, signified by `start == end`: the
//! task was activated and has not been deactivated yet. An open period
//! contributes zero to the total duration.

use vstd::prelude::*;

verus! {

/// One recorded work interval, as a pair of timestamps in milliseconds on a
/// monotonic scale. `start == end` marks the interval as still open.
#[derive(Clone, Copy, PartialEq, Eq, Structural, Debug)]
pub struct Period {
    pub start: u64,
    pub end: u64,
}

/// The period's end does not precede its start.
pub open spec fn period_wf(p: Period) -> bool {
    p.start <= p.end
}

/// The period has been closed: it spans a positive amount of time.
pub open spec fn period_closed(p: Period) -> bool {
    p.start < p.end
}

/// The period is still open (the sentinel `start == end`).
pub open spec fn period_open(p: Period) -> bool {
    p.start == p.end
}

/// A well-formed period log: every period is well formed, the periods are
/// chronological (each one ends no later than the next one starts), and
/// every period except possibly the last is closed.
pub open spec fn periods_wf(s: Seq<Period>) -> bool {
    &&& forall|i: int| 0 <= i < s.len() ==> period_wf(#[trigger] s[i])
    &&& forall|i: int| 0 <= i && i + 1 < s.len() ==> (#[trigger] s[i]).end <= s[i + 1].start
    &&& forall|i: int| 0 <= i && i + 1 < s.len() ==> period_closed(#[trigger] s[i])
}

/// The log's last period, if any, is closed.
pub open spec fn last_closed_or_none(s: Seq<Period>) -> bool {
    s.len() == 0 || period_closed(s.last())
}

/// Every period of the log ends strictly before `now`.
pub open spec fn ends_strictly_before(s: Seq<Period>, now: u64) -> bool {
    forall|i: int| 0 <= i < s.len() ==> (#[trigger] s[i]).end < now
}

/// No period of the log ends after `now`.
pub open spec fn ends_at_most(s: Seq<Period>, now: u64) -> bool {
    forall|i: int| 0 <= i < s.len() ==> (#[trigger] s[i]).end <= now
}

/// Total recorded duration of a log: the sum of `end - start` over all its
/// periods. An open period contributes exactly zero.
pub open spec fn dur_sum(s: Seq<Period>) -> int
    decreases s.len(),
{
    if s.len() == 0 {
        0
    } else {
        dur_sum(s.drop_last()) + s.last().end - s.last().start
    }
}

/// What activation does to a period log: append a fresh open period.
pub open spec fn spec_activate(s: Seq<Period>, now: u64) -> Seq<Period> {
    s.push(Period { start: now, end: now })
}

/// What deactivation does to a period log: close the last period if it is
/// open, and change nothing otherwise (so a second deactivation in a row has
/// no effect).
pub open spec fn spec_deactivate(s: Seq<Period>, now: u64) -> Seq<Period> {
    if s.len() > 0 && period_open(s.last()) {
        s.update(s.len() - 1, Period { start: s.last().start, end: now })
    } else {
        s
    }
}

/// What `str::trim` returns on a given string; the result depends on the
/// characters alone.
pub uninterp spec fn trimmed(s: Seq<char>) -> Seq<char>;

/// Relies on `str::trim`: returns the string with its leading and trailing
/// whitespace removed, so the result is never longer than the input.
#[verifier::external_body]
fn trim_str(s: &str) -> (r: String)
    ensures
        r@ == trimmed(s@),
        r@.len() <= s@.len(),
{
    s.trim().to_owned()
}

/// A task of the run: created once at startup, never destroyed, mutated only
/// through activation, deactivation and completion toggling.
pub struct Task {
    /// Display name, trimmed of surrounding whitespace at creation.
    pub name: String,
    /// User-toggled completion flag; no automatic transition.
    pub is_complete: bool,
    /// Ordered log of work intervals; append-only except for the mutation of
    /// the last pair's end.
    pub work_periods: Vec<Period>,
}

impl Task {
    /// The period log is well formed.
    pub open spec fn wf(&self) -> bool {
        periods_wf(self.work_periods@)
    }

    /// The task's last period, if any, is closed: the task is not currently
    /// active.
    pub open spec fn last_closed_or_none(&self) -> bool {
        last_closed_or_none(self.work_periods@)
    }

    /// Every recorded timestamp of the task lies strictly before `now`.
    pub open spec fn ends_strictly_before(&self, now: u64) -> bool {
        ends_strictly_before(self.work_periods@, now)
    }

    /// No recorded timestamp of the task lies after `now`.
    pub open spec fn ends_at_most(&self, now: u64) -> bool {
        ends_at_most(self.work_periods@, now)
    }

    /// Total recorded duration of the task, as a mathematical integer.
    pub open spec fn spec_total_duration(&self) -> int {
        dur_sum(self.work_periods@)
    }

    /// Creates a task with the given name trimmed of surrounding whitespace,
    /// not complete, with an empty period log.
    pub fn new(name: &str) -> (t: Task)
        ensures
            t.name@ == trimmed(name@),
            !t.is_complete,
            t.work_periods@.len() == 0,
            t.wf(),
            t.last_closed_or_none(),
    {
        Task { name: trim_str(name), is_complete: false, work_periods: Vec::new() }
    }

    /// Opens a new work period at `now`. The caller must not activate a task
    /// that is already active (its last period still open), and `now` must
    /// not precede any timestamp already recorded.
    pub fn activate(&mut self, now: u64)
        requires
            old(self).wf(),
            old(self).last_closed_or_none(),
            old(self).ends_at_most(now),
        ensures
            final(self).name == old(self).name,
            final(self).is_complete == old(self).is_complete,
            final(self).work_periods@ == spec_activate(old(self).work_periods@, now),
            final(self).wf(),
            final(self).ends_at_most(now),
    {
        self.work_periods.push(Period { start: now, end: now });
    }

    /// Closes the task's open period, if there is one, at `now`; otherwise
    /// does nothing, so a second deactivation in a row has no effect.
    pub fn deactivate(&mut self, now: u64)
        requires
            old(self).wf(),
            old(self).ends_at_most(now),
        ensures
            final(self).name == old(self).name,
            final(self).is_complete == old(self).is_complete,
            final(self).work_periods@ == spec_deactivate(old(self).work_periods@, now),
            final(self).wf(),
            final(self).ends_at_most(now),
            old(self).ends_strictly_before(now) ==> final(self).last_closed_or_none(),
            old(self).last_closed_or_none() ==> final(self).work_periods@ == old(self).work_periods@,
    {
        let n = self.work_periods.len();
        if n > 0 {
            let last = &mut self.work_periods[n - 1];
            if last.start == last.end {
                last.end = now;
            }
        }
        proof {
            if !(old(self).work_periods@.len() > 0 && period_open(old(self).work_periods@.last())) {
                assert(self.work_periods@ =~= spec_deactivate(old(self).work_periods@, now));
            }
        }
    }

    /// Flips the completion flag; the time tracking is untouched.
    pub fn toggle_complete(&mut self)
        ensures
            final(self).name == old(self).name,
            final(self).is_complete == !old(self).is_complete,
            final(self).work_periods == old(self).work_periods,
    {
        self.is_complete = !self.is_complete;
    }

    /// Sets the completion flag; the time tracking is untouched.
    pub fn set_complete(&mut self, value: bool)
        ensures
            final(self).name == old(self).name,
            final(self).is_complete == value,
            final(self).work_periods == old(self).work_periods,
    {
        self.is_complete = value;
    }

    /// Sums `end - start` over all recorded periods. An open period
    /// contributes exactly zero; the result is never negative.
    pub fn total_duration(&self) -> (total: u64)
        requires
            self.wf(),
        ensures
            total == self.spec_total_duration(),
    {
        let s = Ghost(self.work_periods@);
        let mut total: u64 = 0;
        let mut i: usize = 0;
        while i < self.work_periods.len()
            invariant
                self.wf(),
                s@ == self.work_periods@,
                0 <= i <= s@.len(),
                total == dur_sum(s@.take(i as int)),
            decreases s@.len() - i,
        {
            let p = self.work_periods[i];
            proof {
                assert(s@.take(i + 1).drop_last() =~= s@.take(i as int));
                assert(s@.take(i + 1).last() == s@[i as int]);
                lemma_periods_wf_prefix(s@, i + 1);
                lemma_dur_sum_bounds(s@.take(i + 1));
            }
            total = total + (p.end - p.start);
            i = i + 1;
        }
        proof {
            assert(s@.take(s@.len() as int) =~= s@);
        }
        total
    }
}

/// Every prefix of a well-formed period log is well formed.
pub proof fn lemma_periods_wf_prefix(s: Seq<Period>, n: int)
    requires
        periods_wf(s),
        0 <= n <= s.len(),
    ensures
        periods_wf(s.take(n)),
{
}

/// A well-formed log's total duration is never negative and never exceeds
/// the span from the log's first start to its last end.
pub proof fn lemma_dur_sum_bounds(s: Seq<Period>)
    requires
        periods_wf(s),
    ensures
        dur_sum(s) >= 0,
        s.len() > 0 ==> dur_sum(s) <= s.last().end - s[0].start,
    decreases s.len(),
{
    if s.len() > 0 {
        let s0 = s.drop_last();
        assert(periods_wf(s0)) by {
            assert(forall|i: int| 0 <= i < s0.len() ==> s0[i] == s[i]);
        }
        lemma_dur_sum_bounds(s0);
        if s0.len() > 0 {
            assert(s0.last() == s[s.len() - 2]);
            assert(s[s.len() - 2].end <= s[s.len() - 1].start);
        }
    }
}

/// A task's total recorded duration is never negative, and a task that was
/// never activated (its period log empty) has total zero.
pub proof fn lemma_total_duration_nonneg(t: &Task)
    requires
        t.wf(),
    ensures
        t.spec_total_duration() >= 0,
        t.work_periods@.len() == 0 ==> t.spec_total_duration() == 0,
{
    lemma_dur_sum_bounds(t.work_periods@);
}

/// Deactivation is idempotent: after an activation at `t0` and a first
/// deactivation at a strictly later `now1`, a second deactivation at any
/// `now2` changes nothing — the closed period stays as the first
/// deactivation left it.
pub proof fn lemma_deactivate_idempotent(s: Seq<Period>, t0: u64, now1: u64, now2: u64)
    requires
        t0 < now1,
    ensures
        ({
            let once = spec_deactivate(spec_activate(s, t0), now1);
            spec_deactivate(once, now2) == once
        }),
{
    let activated = spec_activate(s, t0);
    let once = spec_deactivate(activated, now1);
    assert(activated.last() == (Period { start: t0, end: t0 }));
    assert(once.last() == (Period { start: t0, end: now1 }));
    assert(period_closed(once.last()));
}

} // verus!
