//! The composition root: a selectable task list plus the two-phase timer,
//! exposing the input-driven operations and the periodic tick entry point
//! that an outer render/input loop drives, and a read-only snapshot for
//! rendering.

use vstd::prelude::*;

use crate::config::Config;
use crate::list::moved_to;
use crate::list::spec_next_index;
use crate::list::spec_prev_index;
use crate::list::SelectableList;
use crate::task::trimmed;
use crate::task::Task;
use crate::timer::spec_flip;
use crate::timer::Phase;
use crate::timer::TimerCycle;

verus! {

/// What a renderer needs to know of one task.
pub struct TaskView {
    pub name: String,
    pub is_complete: bool,
    pub total_duration: u64,
}

/// A read-only view of the whole session at one instant: current phase,
/// remaining time, and each task's name, completion flag and total recorded
/// duration.
pub struct Snapshot {
    pub phase: Phase,
    pub remaining: u64,
    pub current_length: u64,
    pub selected: Option<usize>,
    pub tasks: Vec<TaskView>,
}

/// The session: the task list and the timer, driven by navigation and toggle
/// commands and by the periodic tick.
pub struct Session {
    pub tasks: SelectableList,
    pub timer: TimerCycle,
}

impl Session {
    /// Both components are well formed.
    pub open spec fn wf(&self) -> bool {
        self.tasks.wf() && self.timer.wf()
    }

    /// `now` lies strictly after every timestamp recorded in the task list.
    pub open spec fn fresh_for(&self, now: u64) -> bool {
        self.tasks.fresh_for(now)
    }

    /// Builds a session from the startup task names (each trimmed of
    /// surrounding whitespace) and the configured phase lengths, starting
    /// the work phase at `now` with no task selected.
    pub fn new(names: &Vec<String>, config: &Config, now: u64) -> (s: Session)
        requires
            config.wf(),
        ensures
            s.wf(),
            s.tasks.selected is None,
            s.tasks.items@.len() == names@.len(),
            forall|i: int|
                0 <= i < names@.len() ==> {
                    &&& (#[trigger] s.tasks.items@[i]).name@ == trimmed(names@[i]@)
                    &&& !s.tasks.items@[i].is_complete
                    &&& s.tasks.items@[i].work_periods@.len() == 0
                },
            s.timer.work_length == config.work_length,
            s.timer.break_length == config.break_length,
            s.timer.phase == Phase::Working,
            s.timer.phase_start == now,
    {
        let mut items: Vec<Task> = Vec::new();
        let mut i: usize = 0;
        while i < names.len()
            invariant
                0 <= i <= names@.len(),
                items@.len() == i,
                forall|j: int|
                    0 <= j < i as int ==> {
                        &&& (#[trigger] items@[j]).name@ == trimmed(names@[j]@)
                        &&& !items@[j].is_complete
                        &&& items@[j].work_periods@.len() == 0
                        &&& items@[j].wf()
                        &&& items@[j].last_closed_or_none()
                    },
            decreases names@.len() - i,
        {
            items.push(Task::new(names[i].as_str()));
            i = i + 1;
        }
        Session {
            tasks: SelectableList::with_items(items),
            timer: TimerCycle::new(config, now),
        }
    }

    /// Moves the selection one step forward (see
    /// [`SelectableList::select_next`]); the timer is untouched.
    pub fn handle_select_next(&mut self, now: u64)
        requires
            old(self).wf(),
            old(self).fresh_for(now),
        ensures
            final(self).wf(),
            final(self).timer == old(self).timer,
            old(self).tasks.items@.len() == 0 ==> final(self).tasks == old(self).tasks,
            old(self).tasks.items@.len() > 0 ==> moved_to(
                old(self).tasks,
                final(self).tasks,
                spec_next_index(old(self).tasks.selected, old(self).tasks.items@.len() as int),
                now,
            ),
    {
        self.tasks.select_next(now);
    }

    /// Moves the selection one step backward (see
    /// [`SelectableList::select_previous`]); the timer is untouched.
    pub fn handle_select_previous(&mut self, now: u64)
        requires
            old(self).wf(),
            old(self).fresh_for(now),
        ensures
            final(self).wf(),
            final(self).timer == old(self).timer,
            old(self).tasks.items@.len() == 0 ==> final(self).tasks == old(self).tasks,
            old(self).tasks.items@.len() > 0 ==> moved_to(
                old(self).tasks,
                final(self).tasks,
                spec_prev_index(old(self).tasks.selected, old(self).tasks.items@.len() as int),
                now,
            ),
    {
        self.tasks.select_previous(now);
    }

    /// Flips the selected task's completion flag; a no-op (no panic, no
    /// mutation of any task) when nothing is selected. The timer and every
    /// task's time tracking are untouched.
    pub fn handle_toggle_complete(&mut self)
        requires
            old(self).wf(),
        ensures
            final(self).wf(),
            final(self).timer == old(self).timer,
            final(self).tasks.selected == old(self).tasks.selected,
            final(self).tasks.items@.len() == old(self).tasks.items@.len(),
            old(self).tasks.selected is None ==> *final(self) == *old(self),
            forall|k: int|
                0 <= k < old(self).tasks.items@.len() && old(self).tasks.selected != Some(
                    k as usize,
                ) ==> final(self).tasks.items@[k] == old(self).tasks.items@[k],
            match old(self).tasks.selected {
                Some(i) => {
                    &&& final(self).tasks.items@[i as int].is_complete == !old(self).tasks.items@[i as int].is_complete
                    &&& final(self).tasks.items@[i as int].name == old(self).tasks.items@[
                        i as int
                    ].name
                    &&& final(self).tasks.items@[i as int].work_periods == old(self).tasks.items@[i as int].work_periods
                },
                None => true,
            },
    {
        self.tasks.toggle_selected_complete();
    }

    /// Marks or unmarks the selected task as complete; a no-op when nothing
    /// is selected. The timer and every task's time tracking are untouched.
    pub fn handle_set_complete(&mut self, value: bool)
        requires
            old(self).wf(),
        ensures
            final(self).wf(),
            final(self).timer == old(self).timer,
            final(self).tasks.selected == old(self).tasks.selected,
            final(self).tasks.items@.len() == old(self).tasks.items@.len(),
            old(self).tasks.selected is None ==> *final(self) == *old(self),
            forall|k: int|
                0 <= k < old(self).tasks.items@.len() && old(self).tasks.selected != Some(
                    k as usize,
                ) ==> final(self).tasks.items@[k] == old(self).tasks.items@[k],
            match old(self).tasks.selected {
                Some(i) => {
                    &&& final(self).tasks.items@[i as int].is_complete == value
                    &&& final(self).tasks.items@[i as int].name == old(self).tasks.items@[
                        i as int
                    ].name
                    &&& final(self).tasks.items@[i as int].work_periods == old(self).tasks.items@[i as int].work_periods
                },
                None => true,
            },
    {
        self.tasks.set_selected_complete(value);
    }

    /// Advances the timer at `now` (see [`TimerCycle::tick`]); the task
    /// selection and every task are untouched. Returns whether a phase
    /// transition happened, so that the caller can fire a one-shot alert.
    pub fn handle_tick(&mut self, now: u64) -> (alert: bool)
        requires
            old(self).wf(),
            now >= old(self).timer.phase_start,
        ensures
            final(self).wf(),
            final(self).tasks == old(self).tasks,
            final(self).timer.work_length == old(self).timer.work_length,
            final(self).timer.break_length == old(self).timer.break_length,
            alert == (old(self).timer.spec_elapsed(now) > old(self).timer.spec_current_length()),
            alert ==> final(self).timer.phase == spec_flip(old(self).timer.phase) && final(self).timer.phase_start == now,
            !alert ==> final(self).timer == old(self).timer,
            final(self).timer.phase_start >= old(self).timer.phase_start,
    {
        self.timer.tick(now)
    }

    /// The selected task's name, or nothing when the selection is none.
    pub fn selected_task_name(&self) -> (r: Option<&String>)
        requires
            self.wf(),
        ensures
            match (r, self.tasks.selected) {
                (Some(n), Some(i)) => n == self.tasks.items@[i as int].name,
                (None, None) => true,
                _ => false,
            },
    {
        match self.tasks.selected_task() {
            Some(t) => Some(&t.name),
            None => None,
        }
    }

    /// A read-only view of the session at `now` for rendering: the current
    /// phase, the remaining time, the selection, and each task's name,
    /// completion flag and total recorded duration. Never mutates state
    /// (`&self`).
    pub fn snapshot(&self, now: u64) -> (snap: Snapshot)
        requires
            self.wf(),
            now >= self.timer.phase_start,
        ensures
            snap.phase == self.timer.phase,
            snap.remaining == self.timer.spec_remaining(now),
            snap.current_length == self.timer.spec_current_length(),
            snap.selected == self.tasks.selected,
            snap.tasks@.len() == self.tasks.items@.len(),
            forall|i: int|
                0 <= i < self.tasks.items@.len() ==> {
                    &&& (#[trigger] snap.tasks@[i]).name == self.tasks.items@[i].name
                    &&& snap.tasks@[i].is_complete == self.tasks.items@[i].is_complete
                    &&& snap.tasks@[i].total_duration == self.tasks.items@[
                        i
                    ].spec_total_duration()
                },
    {
        let mut views: Vec<TaskView> = Vec::new();
        let mut i: usize = 0;
        while i < self.tasks.items.len()
            invariant
                self.wf(),
                0 <= i <= self.tasks.items@.len(),
                views@.len() == i,
                forall|j: int|
                    0 <= j < i as int ==> {
                        &&& (#[trigger] views@[j]).name == self.tasks.items@[j].name
                        &&& views@[j].is_complete == self.tasks.items@[j].is_complete
                        &&& views@[j].total_duration == self.tasks.items@[
                            j
                        ].spec_total_duration()
                    },
            decreases self.tasks.items@.len() - i,
        {
            let t = &self.tasks.items[i];
            views.push(
                TaskView {
                    name: t.name.clone(),
                    is_complete: t.is_complete,
                    total_duration: t.total_duration(),
                },
            );
            i = i + 1;
        }
        Snapshot {
            phase: self.timer.phase,
            remaining: self.timer.remaining(now),
            current_length: self.timer.current_length(),
            selected: self.tasks.selected,
            tasks: views,
        }
    }
}

} // verus!
