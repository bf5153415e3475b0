use pomors::config::Config;
use pomors::session::Session;
use pomors::task::Period;
use pomors::timer::Phase;

fn names(list: &[&str]) -> Vec<String> {
    let mut v: Vec<String> = Vec::new();
    for n in list {
        v.push((*n).to_string());
    }
    v
}

fn three_task_session() -> Session {
    Session::new(&names(&["a", "b", "c"]), &Config::sanitized(100, 50), 0)
}

#[test]
fn new_session_has_no_selection_and_trimmed_names() {
    let s = Session::new(&names(&[" a ", "b\t"]), &Config::sanitized(100, 50), 0);
    assert_eq!(s.tasks.selected, None);
    assert_eq!(s.tasks.items.len(), 2);
    assert_eq!(s.tasks.items[0].name, "a");
    assert_eq!(s.tasks.items[1].name, "b");
    assert_eq!(s.timer.phase, Phase::Working);
}

#[test]
fn select_next_wraps_around_three_tasks() {
    let mut s = three_task_session();
    s.handle_select_next(1);
    assert_eq!(s.tasks.selected, Some(0));
    s.handle_select_next(2);
    assert_eq!(s.tasks.selected, Some(1));
    s.handle_select_next(3);
    assert_eq!(s.tasks.selected, Some(2));
    s.handle_select_next(4);
    // wraparound: three steps from the front lead back to the front
    assert_eq!(s.tasks.selected, Some(0));

    // each transition closed exactly the period that was open before it
    assert_eq!(
        s.tasks.items[0].work_periods,
        vec![Period { start: 1, end: 2 }, Period { start: 4, end: 4 }]
    );
    assert_eq!(s.tasks.items[1].work_periods, vec![Period { start: 2, end: 3 }]);
    assert_eq!(s.tasks.items[2].work_periods, vec![Period { start: 3, end: 4 }]);
}

#[test]
fn select_previous_wraps_to_the_back() {
    let mut s = three_task_session();
    s.handle_select_next(1);
    assert_eq!(s.tasks.selected, Some(0));
    s.handle_select_previous(2);
    assert_eq!(s.tasks.selected, Some(2));
    s.handle_select_previous(3);
    assert_eq!(s.tasks.selected, Some(1));
    // the first task's period was closed before the last one was opened
    assert_eq!(s.tasks.items[0].work_periods, vec![Period { start: 1, end: 2 }]);
    assert_eq!(s.tasks.items[2].work_periods, vec![Period { start: 2, end: 3 }]);
    assert_eq!(s.tasks.items[1].work_periods, vec![Period { start: 3, end: 3 }]);
}

#[test]
fn select_previous_from_none_selects_the_front() {
    let mut s = three_task_session();
    s.handle_select_previous(1);
    assert_eq!(s.tasks.selected, Some(0));
}

#[test]
fn navigation_on_an_empty_list_is_a_noop() {
    let mut s = Session::new(&names(&[]), &Config::sanitized(100, 50), 0);
    s.handle_select_next(1);
    assert_eq!(s.tasks.selected, None);
    s.handle_select_previous(2);
    assert_eq!(s.tasks.selected, None);
    let snap = s.snapshot(3);
    assert_eq!(snap.selected, None);
    assert_eq!(snap.tasks.len(), 0);
}

#[test]
fn toggle_on_unselected_list_is_a_noop() {
    let mut s = three_task_session();
    assert_eq!(s.tasks.selected, None);
    s.handle_toggle_complete();
    assert_eq!(s.tasks.selected, None);
    for t in &s.tasks.items {
        assert!(!t.is_complete);
        assert_eq!(t.work_periods.len(), 0);
    }
}

#[test]
fn toggle_flips_only_the_selected_task() {
    let mut s = three_task_session();
    s.handle_select_next(1);
    s.handle_select_next(2);
    s.handle_toggle_complete();
    assert!(!s.tasks.items[0].is_complete);
    assert!(s.tasks.items[1].is_complete);
    assert!(!s.tasks.items[2].is_complete);
    s.handle_toggle_complete();
    assert!(!s.tasks.items[1].is_complete);
}

#[test]
fn set_complete_marks_and_unmarks_the_selected_task() {
    let mut s = three_task_session();
    s.handle_select_next(1);
    s.handle_set_complete(true);
    assert!(s.tasks.items[0].is_complete);
    s.handle_set_complete(false);
    assert!(!s.tasks.items[0].is_complete);
}

#[test]
fn tick_crossing_the_boundary_starts_the_break() {
    // work length 1 unit, break length 1 unit, starting phase Working
    let mut s = Session::new(&names(&["a"]), &Config::sanitized(1, 1), 0);
    assert_eq!(s.timer.phase, Phase::Working);
    // elapsed time has crossed the 1-unit boundary
    let alert = s.handle_tick(2);
    assert!(alert);
    assert_eq!(s.timer.phase, Phase::OnBreak);
    assert!(s.timer.remaining(2) <= 1);
}

#[test]
fn tick_does_not_touch_the_selection() {
    let mut s = three_task_session();
    s.handle_select_next(1);
    let _ = s.handle_tick(200);
    assert_eq!(s.tasks.selected, Some(0));
    assert_eq!(s.tasks.items[0].work_periods, vec![Period { start: 1, end: 1 }]);
}

#[test]
fn clear_selection_closes_the_open_period() {
    let mut s = three_task_session();
    s.handle_select_next(1);
    s.tasks.clear_selection(5);
    assert_eq!(s.tasks.selected, None);
    assert_eq!(s.tasks.items[0].work_periods, vec![Period { start: 1, end: 5 }]);
}

#[test]
fn selected_task_name_follows_the_selection() {
    let mut s = three_task_session();
    assert_eq!(s.selected_task_name(), None);
    s.handle_select_next(1);
    assert_eq!(s.selected_task_name(), Some(&"a".to_string()));
    s.handle_select_next(2);
    assert_eq!(s.selected_task_name(), Some(&"b".to_string()));
}

#[test]
fn selected_task_follows_the_selection() {
    let mut s = three_task_session();
    assert!(s.tasks.selected_task().is_none());
    s.handle_select_next(1);
    let t = s.tasks.selected_task().expect("a task should be selected");
    assert_eq!(t.name, "a");
    assert_eq!(t.work_periods, vec![Period { start: 1, end: 1 }]);
}

#[test]
fn selected_task_mut_gives_write_access() {
    let mut s = three_task_session();
    assert!(s.tasks.selected_task_mut().is_none());
    s.handle_select_next(1);
    match s.tasks.selected_task_mut() {
        Some(t) => t.set_complete(true),
        None => panic!("a task should be selected"),
    }
    assert!(s.tasks.items[0].is_complete);
    assert!(!s.tasks.items[1].is_complete);
}

#[test]
fn snapshot_reports_the_whole_state() {
    let mut s = three_task_session();
    s.handle_select_next(1);
    s.handle_select_next(5);
    s.handle_toggle_complete();
    let snap = s.snapshot(30);
    assert_eq!(snap.phase, Phase::Working);
    assert_eq!(snap.remaining, 70);
    assert_eq!(snap.current_length, 100);
    assert_eq!(snap.selected, Some(1));
    assert_eq!(snap.tasks.len(), 3);
    assert_eq!(snap.tasks[0].name, "a");
    assert_eq!(snap.tasks[0].total_duration, 4);
    assert!(!snap.tasks[0].is_complete);
    assert_eq!(snap.tasks[1].name, "b");
    assert_eq!(snap.tasks[1].total_duration, 0);
    assert!(snap.tasks[1].is_complete);
}
