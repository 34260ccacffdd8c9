//! The thread coordinator's bookkeeping: first-come waiting and the
//! spawn-ordered report.

use battlebots::threading::{Coordinator, Outcome};

#[test]
fn wait_next_returns_a_finished_task_never_the_blocked_one() {
    // Three tasks: one returns a value at once, one panics at once, one
    // blocks forever and never reports.
    let mut coord: Coordinator<i64> = Coordinator::new();
    let quick = coord.spawn();
    let panicky = coord.spawn();
    let blocked = coord.spawn();
    assert_eq!((quick, panicky, blocked), (0, 1, 2));

    // The two finished tasks report, in whatever order they raced in;
    // the blocked one never does.
    assert!(coord.deliver(quick, Outcome::Finished(1)));
    assert!(coord.deliver(panicky, Outcome::Panicked));

    let first = coord.wait_next().expect("something finished");
    assert!(first == Outcome::Finished(1) || first == Outcome::Panicked);

    // Torn down before the blocked task finishes: the report holds both
    // finished outcomes under their numbers and leaves the blocked one
    // unreported.
    let report = coord.wait_all();
    assert_eq!(report.len(), 3);
    assert_eq!(report[2], None);
    let reported: Vec<usize> =
        (0..3).filter(|i| report[*i as usize].is_some()).collect();
    assert_eq!(reported.len(), 1);
}

#[test]
fn wait_next_with_nothing_spawned_returns_none_instantly() {
    let mut coord: Coordinator<u32> = Coordinator::new();
    assert!(coord.wait_next().is_none());
}

#[test]
fn outcomes_are_reported_in_spawn_order_not_arrival_order() {
    let mut coord: Coordinator<&'static str> = Coordinator::new();
    let a = coord.spawn();
    let b = coord.spawn();
    let c = coord.spawn();

    assert!(coord.deliver(c, Outcome::Finished("late spawn, first done")));
    assert!(coord.deliver(a, Outcome::Finished("early spawn, second done")));
    assert!(coord.deliver(b, Outcome::Panicked));

    let report = coord.wait_all();
    assert_eq!(report[a], Some(Outcome::Finished("early spawn, second done")));
    assert_eq!(report[b], Some(Outcome::Panicked));
    assert_eq!(report[c], Some(Outcome::Finished("late spawn, first done")));
}

#[test]
fn each_task_reports_exactly_once() {
    let mut coord: Coordinator<u32> = Coordinator::new();
    let id = coord.spawn();
    assert!(coord.deliver(id, Outcome::Finished(5)));
    assert!(!coord.deliver(id, Outcome::Finished(6)));
    assert!(!coord.deliver(99, Outcome::Panicked));
}
