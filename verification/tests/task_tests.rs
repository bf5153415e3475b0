use pomors::task::Period;
use pomors::task::Task;

#[test]
fn new_trims_surrounding_whitespace() {
    let t = Task::new("  write report \t");
    assert_eq!(t.name, "write report");
}

#[test]
fn new_task_is_incomplete_with_zero_duration() {
    let t = Task::new("a");
    assert!(!t.is_complete);
    assert_eq!(t.work_periods.len(), 0);
    assert_eq!(t.total_duration(), 0);
}

#[test]
fn activate_appends_open_period() {
    let mut t = Task::new("a");
    t.activate(10);
    assert_eq!(t.work_periods, vec![Period { start: 10, end: 10 }]);
    // an open period contributes exactly zero
    assert_eq!(t.total_duration(), 0);
}

#[test]
fn deactivate_closes_the_open_period() {
    let mut t = Task::new("a");
    t.activate(10);
    t.deactivate(12);
    assert_eq!(t.work_periods, vec![Period { start: 10, end: 12 }]);
    assert_eq!(t.total_duration(), 2);
}

#[test]
fn deactivate_twice_equals_deactivate_once() {
    let mut once = Task::new("a");
    once.activate(10);
    once.deactivate(12);

    let mut twice = Task::new("a");
    twice.activate(10);
    twice.deactivate(12);
    twice.deactivate(40);

    assert_eq!(once.work_periods, twice.work_periods);
    assert_eq!(once.total_duration(), twice.total_duration());
}

#[test]
fn deactivate_without_periods_is_a_noop() {
    let mut t = Task::new("a");
    t.deactivate(5);
    assert_eq!(t.work_periods.len(), 0);
}

#[test]
fn total_duration_sums_all_closed_periods() {
    let mut t = Task::new("a");
    t.activate(10);
    t.deactivate(13);
    t.activate(20);
    t.deactivate(27);
    assert_eq!(
        t.work_periods,
        vec![Period { start: 10, end: 13 }, Period { start: 20, end: 27 }]
    );
    assert_eq!(t.total_duration(), 10);
}

#[test]
fn total_duration_ignores_trailing_open_period() {
    let mut t = Task::new("a");
    t.activate(10);
    t.deactivate(13);
    t.activate(20);
    assert_eq!(t.total_duration(), 3);
}

#[test]
fn toggle_and_set_complete() {
    let mut t = Task::new("a");
    t.toggle_complete();
    assert!(t.is_complete);
    t.toggle_complete();
    assert!(!t.is_complete);
    t.set_complete(true);
    assert!(t.is_complete);
    t.set_complete(false);
    assert!(!t.is_complete);
    assert_eq!(t.work_periods.len(), 0);
}
