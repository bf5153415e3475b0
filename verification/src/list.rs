//! An ordered list of tasks with a single optional selection and circular
//! next/previous navigation. Every selection change first deactivates the
//! previously selected task (closing its open work period) and only then
//! activates the newly selected one (opening a fresh period); this ordering
//! is the list's load-bearing contract.
//!
//! Navigation on an empty list is a no-op: the selection stays at none.

use vstd::prelude::*;

use crate::task::period_closed;
use crate::task::spec_activate;
use crate::task::spec_deactivate;
use crate::task::Task;

verus! {

/// The index selected by a step forward: one past the current index, with
/// wraparound to the front, or the front when nothing was selected.
pub open spec fn spec_next_index(sel: Option<usize>, len: int) -> int {
    match sel {
        Some(i) => if i as int + 1 < len {
            i as int + 1
        } else {
            0
        },
        None => 0,
    }
}

/// The index selected by a step backward: one before the current index, with
/// wraparound to the back, or the front when nothing was selected.
pub open spec fn spec_prev_index(sel: Option<usize>, len: int) -> int {
    match sel {
        Some(i) => if i == 0 {
            len - 1
        } else {
            i as int - 1
        },
        None => 0,
    }
}

/// `post` is `pre` with its open work period (if any) closed at `now`; the
/// name and the completion flag are untouched.
pub open spec fn deactivated(pre: Task, post: Task, now: u64) -> bool {
    &&& post.name == pre.name
    &&& post.is_complete == pre.is_complete
    &&& post.work_periods@ == spec_deactivate(pre.work_periods@, now)
}

/// `post` is `pre` with a fresh open work period appended at `now`; the name
/// and the completion flag are untouched.
pub open spec fn activated(pre: Task, post: Task, now: u64) -> bool {
    &&& post.name == pre.name
    &&& post.is_complete == pre.is_complete
    &&& post.work_periods@ == spec_activate(pre.work_periods@, now)
}

/// `post` is `pre` deactivated and then activated again at `now` (the case
/// of a selection step that lands on the same task).
pub open spec fn reactivated(pre: Task, post: Task, now: u64) -> bool {
    &&& post.name == pre.name
    &&& post.is_complete == pre.is_complete
    &&& post.work_periods@ == spec_activate(spec_deactivate(pre.work_periods@, now), now)
}

/// How a selection change at `now` to index `j` rewrites a list: the
/// previously selected task (if any) is deactivated, the task at `j` is
/// activated, every other task is untouched, and `j` becomes the selection.
pub open spec fn moved_to(pre: SelectableList, post: SelectableList, j: int, now: u64) -> bool {
    &&& 0 <= j < pre.items@.len()
    &&& post.selected == Some(j as usize)
    &&& post.items@.len() == pre.items@.len()
    &&& forall|k: int|
        0 <= k < pre.items@.len() && k != j && pre.selected != Some(k as usize)
            ==> post.items@[k] == pre.items@[k]
    &&& match pre.selected {
        Some(i) => if i as int == j {
            reactivated(pre.items@[j], post.items@[j], now)
        } else {
            deactivated(pre.items@[i as int], post.items@[i as int], now)
                && activated(pre.items@[j], post.items@[j], now)
        },
        None => activated(pre.items@[j], post.items@[j], now),
    }
}

/// An ordered, fixed set of tasks with one optional selected index and
/// circular navigation.
pub struct SelectableList {
    /// The tasks, in their fixed order for the run.
    pub items: Vec<Task>,
    /// The selected index, if any; always within bounds.
    pub selected: Option<usize>,
}

impl SelectableList {
    /// The selected index, when present, is within the list.
    pub open spec fn sel_in_bounds(&self) -> bool {
        match self.selected {
            Some(i) => (i as int) < self.items@.len(),
            None => true,
        }
    }

    /// Well-formedness: every task's period log is well formed, the selected
    /// index is within bounds, and no task other than the selected one has
    /// an open work period.
    pub open spec fn wf(&self) -> bool {
        &&& forall|k: int| 0 <= k < self.items@.len() ==> (#[trigger] self.items@[k]).wf()
        &&& self.sel_in_bounds()
        &&& forall|k: int|
            0 <= k < self.items@.len() && self.selected != Some(k as usize)
                ==> (#[trigger] self.items@[k]).last_closed_or_none()
    }

    /// `now` lies strictly after every timestamp recorded anywhere in the
    /// list: the clock has advanced since the last operation.
    pub open spec fn fresh_for(&self, now: u64) -> bool {
        forall|k: int|
            0 <= k < self.items@.len() ==> (#[trigger] self.items@[k]).ends_strictly_before(now)
    }

    /// Builds a list from tasks none of which is currently active, with no
    /// selection.
    pub fn with_items(items: Vec<Task>) -> (l: SelectableList)
        requires
            forall|k: int| 0 <= k < items@.len() ==> (#[trigger] items@[k]).wf(),
            forall|k: int|
                0 <= k < items@.len() ==> (#[trigger] items@[k]).last_closed_or_none(),
        ensures
            l.items == items,
            l.selected is None,
            l.wf(),
    {
        SelectableList { items, selected: None }
    }

    /// Moves the selection one step forward, wrapping to the front, after
    /// deactivating the previously selected task; selects the front when
    /// nothing was selected. A no-op on an empty list.
    pub fn select_next(&mut self, now: u64)
        requires
            old(self).wf(),
            old(self).fresh_for(now),
        ensures
            final(self).wf(),
            old(self).items@.len() == 0 ==> *final(self) == *old(self),
            old(self).items@.len() > 0 ==> moved_to(
                *old(self),
                *final(self),
                spec_next_index(old(self).selected, old(self).items@.len() as int),
                now,
            ),
    {
        let len = self.items.len();
        if len == 0 {
            return;
        }
        let target: usize = match self.selected {
            Some(i) => {
                self.items[i].deactivate(now);
                if i + 1 < len {
                    i + 1
                } else {
                    0
                }
            },
            None => 0,
        };
        self.items[target].activate(now);
        self.selected = Some(target);
    }

    /// Moves the selection one step backward, wrapping to the back, after
    /// deactivating the previously selected task; selects the front when
    /// nothing was selected. A no-op on an empty list.
    pub fn select_previous(&mut self, now: u64)
        requires
            old(self).wf(),
            old(self).fresh_for(now),
        ensures
            final(self).wf(),
            old(self).items@.len() == 0 ==> *final(self) == *old(self),
            old(self).items@.len() > 0 ==> moved_to(
                *old(self),
                *final(self),
                spec_prev_index(old(self).selected, old(self).items@.len() as int),
                now,
            ),
    {
        let len = self.items.len();
        if len == 0 {
            return;
        }
        let target: usize = match self.selected {
            Some(i) => {
                self.items[i].deactivate(now);
                if i == 0 {
                    len - 1
                } else {
                    i - 1
                }
            },
            None => 0,
        };
        self.items[target].activate(now);
        self.selected = Some(target);
    }

    /// Deactivates the selected task, if any, and sets the selection to
    /// none.
    pub fn clear_selection(&mut self, now: u64)
        requires
            old(self).wf(),
            old(self).fresh_for(now),
        ensures
            final(self).wf(),
            final(self).selected is None,
            final(self).items@.len() == old(self).items@.len(),
            forall|k: int|
                0 <= k < old(self).items@.len() && old(self).selected != Some(k as usize)
                    ==> final(self).items@[k] == old(self).items@[k],
            match old(self).selected {
                Some(i) => deactivated(
                    old(self).items@[i as int],
                    final(self).items@[i as int],
                    now,
                ),
                None => final(self).items == old(self).items,
            },
    {
        proof {
            // the item count fits in usize, so distinct view indices stay
            // distinct as usize selections
            assert(self.items.len() == self.items@.len());
        }
        match self.selected {
            Some(i) => {
                proof {
                    assert(old(self).items@[i as int].ends_strictly_before(now));
                }
                self.items[i].deactivate(now);
            },
            None => {},
        }
        self.selected = None;
    }

    /// The selected task by reference, or nothing when the selection is
    /// none.
    pub fn selected_task(&self) -> (r: Option<&Task>)
        requires
            self.wf(),
        ensures
            match (r, self.selected) {
                (Some(t), Some(i)) => *t == self.items@[i as int],
                (None, None) => true,
                _ => false,
            },
    {
        match self.selected {
            Some(i) => Some(&self.items[i]),
            None => None,
        }
    }

    /// The selected task by mutable reference, or nothing when the selection
    /// is none. What the caller writes through the reference becomes the
    /// selected task's new value.
    pub fn selected_task_mut(&mut self) -> (r: Option<&mut Task>)
        requires
            old(self).wf(),
        ensures
            final(self).selected == old(self).selected,
            match (r, old(self).selected) {
                (Some(t), Some(i)) => {
                    &&& *t == old(self).items@[i as int]
                    &&& final(self).items@ == old(self).items@.update(i as int, *final(t))
                },
                (None, None) => *final(self) == *old(self),
                _ => false,
            },
    {
        match self.selected {
            Some(i) => Some(&mut self.items[i]),
            None => None,
        }
    }

    /// Flips the selected task's completion flag; a no-op (and no panic)
    /// when the selection is none. No task's name or time tracking changes.
    pub fn toggle_selected_complete(&mut self)
        requires
            old(self).wf(),
        ensures
            final(self).wf(),
            final(self).selected == old(self).selected,
            final(self).items@.len() == old(self).items@.len(),
            old(self).selected is None ==> *final(self) == *old(self),
            forall|k: int|
                0 <= k < old(self).items@.len() && old(self).selected != Some(k as usize)
                    ==> final(self).items@[k] == old(self).items@[k],
            match old(self).selected {
                Some(i) => {
                    &&& final(self).items@[i as int].is_complete == !old(self).items@[
                        i as int
                    ].is_complete
                    &&& final(self).items@[i as int].name == old(self).items@[i as int].name
                    &&& final(self).items@[i as int].work_periods == old(self).items@[
                        i as int
                    ].work_periods
                },
                None => true,
            },
    {
        match self.selected {
            Some(i) => {
                self.items[i].toggle_complete();
            },
            None => {},
        }
    }

    /// Sets the selected task's completion flag; a no-op (and no panic) when
    /// the selection is none. No task's name or time tracking changes.
    pub fn set_selected_complete(&mut self, value: bool)
        requires
            old(self).wf(),
        ensures
            final(self).wf(),
            final(self).selected == old(self).selected,
            final(self).items@.len() == old(self).items@.len(),
            old(self).selected is None ==> *final(self) == *old(self),
            forall|k: int|
                0 <= k < old(self).items@.len() && old(self).selected != Some(k as usize)
                    ==> final(self).items@[k] == old(self).items@[k],
            match old(self).selected {
                Some(i) => {
                    &&& final(self).items@[i as int].is_complete == value
                    &&& final(self).items@[i as int].name == old(self).items@[i as int].name
                    &&& final(self).items@[i as int].work_periods == old(self).items@[
                        i as int
                    ].work_periods
                },
                None => true,
            },
    {
        match self.selected {
            Some(i) => {
                self.items[i].set_complete(value);
            },
            None => {},
        }
    }
}

/// In a well-formed list the selected index, when present, is always within
/// `[0, N)`, whatever sequence of navigation calls produced the list.
pub proof fn lemma_selected_in_bounds(l: &SelectableList)
    requires
        l.wf(),
    ensures
        match l.selected {
            Some(i) => 0 <= (i as int) < l.items@.len(),
            None => true,
        },
{
}

/// In a well-formed list only the selected task can have an open work
/// period: every activation was preceded by the deactivation of the task
/// selected before it.
pub proof fn lemma_open_period_only_at_selection(l: &SelectableList)
    requires
        l.wf(),
    ensures
        forall|k: int|
            0 <= k < l.items@.len() && l.selected != Some(k as usize)
                ==> (#[trigger] l.items@[k]).last_closed_or_none(),
{
}

/// Across the whole list at most one work period is open at any time: every
/// period of every task is closed, except possibly the last period of the
/// selected task.
pub proof fn lemma_at_most_one_open_period(l: &SelectableList)
    requires
        l.wf(),
    ensures
        forall|k: int, j: int|
            0 <= k < l.items@.len() && 0 <= j < l.items@[k].work_periods@.len() && !(l.selected
                == Some(k as usize) && j == l.items@[k].work_periods@.len() - 1)
                ==> period_closed(#[trigger] l.items@[k].work_periods@[j]),
{
    assert forall|k: int, j: int|
        0 <= k < l.items@.len() && 0 <= j < l.items@[k].work_periods@.len() && !(l.selected
            == Some(k as usize) && j == l.items@[k].work_periods@.len() - 1)
            implies period_closed(#[trigger] l.items@[k].work_periods@[j]) by {
        assert(l.items@[k].wf());
        if j == l.items@[k].work_periods@.len() - 1 {
            assert(l.items@[k].last_closed_or_none());
        }
    }
}

} // verus!
