use arcy::cell::{release_observes_zero, CellState, ReleaseAction};
use arcy::handle::{AsyncDrop, SharedCell};
use std::cell::RefCell;
use std::rc::Rc;

/// A payload whose finalizer counts how many times it ran.
struct Probe {
    runs: Rc<RefCell<u32>>,
}

impl AsyncDrop for Probe {
    fn async_drop(self) {
        *self.runs.borrow_mut() += 1;
    }
}

#[test]
fn scenario_create_clone_release_release_finalize() {
    let runs = Rc::new(RefCell::new(0u32));
    let (mut cell, original) = SharedCell::new(Probe { runs: Rc::clone(&runs) });
    assert_eq!(cell.state.count, 1);

    let cloned = cell.clone_handle(&original);
    assert_eq!(cell.state.count, 2);

    let first = cell.release(original);
    assert_eq!(first, ReleaseAction::Keep);
    assert_eq!(cell.state.count, 1);
    assert!(!cell.state.signaled);
    assert_eq!(*runs.borrow(), 0);

    let last = cell.release(cloned);
    assert_eq!(last, ReleaseAction::Signal);
    assert_eq!(cell.state.count, 0);
    assert!(cell.state.signaled);
    assert_eq!(*runs.borrow(), 0);

    cell.finalize();
    assert_eq!(*runs.borrow(), 1);
}

#[test]
fn n_clones_then_all_releases_signal_exactly_once_at_last() {
    let runs = Rc::new(RefCell::new(0u32));
    let (mut cell, first) = SharedCell::new(Probe { runs: Rc::clone(&runs) });
    let mut handles = vec![first];
    for _ in 0..3 {
        let fresh = {
            let held = handles.last().unwrap();
            cell.clone_handle(held)
        };
        handles.push(fresh);
    }
    assert_eq!(cell.state.count, 4);

    let total = handles.len();
    let mut signals = 0u32;
    for (i, handle) in handles.into_iter().enumerate() {
        let action = cell.release(handle);
        if action == ReleaseAction::Signal {
            signals += 1;
            assert_eq!(i, total - 1);
        }
    }
    assert_eq!(signals, 1);
    assert_eq!(cell.state.count, 0);

    assert_eq!(*runs.borrow(), 0);
    cell.finalize();
    assert_eq!(*runs.borrow(), 1);
}

#[test]
fn sole_handle_release_signals_immediately() {
    let (mut cell, only) = SharedCell::new(5u64);
    let action = cell.release(only);
    assert_eq!(action, ReleaseAction::Signal);
    assert!(cell.state.signaled);
}

#[test]
fn access_reads_the_payload_while_live() {
    let (mut cell, original) = SharedCell::new(42u64);
    assert_eq!(*cell.access(&original), 42);
    let cloned = cell.clone_handle(&original);
    assert_eq!(*cell.access(&cloned), 42);
    cell.release(original);
    assert_eq!(*cell.access(&cloned), 42);
    cell.release(cloned);
}

#[test]
fn into_value_recovers_the_payload_after_the_signal() {
    let (mut cell, only) = SharedCell::new(String::from("payload"));
    let action = cell.release(only);
    assert_eq!(action, ReleaseAction::Signal);
    let value = cell.into_value();
    assert_eq!(value, "payload");
}

#[test]
fn fresh_state_has_one_handle_and_no_signal() {
    let state = CellState::new();
    assert_eq!(state.count, 1);
    assert!(!state.signaled);
}

#[test]
fn step_functions_track_the_count() {
    let mut state = CellState::new();
    state.clone_step();
    state.clone_step();
    assert_eq!(state.count, 3);
    assert_eq!(state.release_step(), ReleaseAction::Keep);
    assert_eq!(state.release_step(), ReleaseAction::Keep);
    assert!(!state.signaled);
    assert_eq!(state.release_step(), ReleaseAction::Signal);
    assert_eq!(state.count, 0);
    assert!(state.signaled);
}

#[test]
fn zero_transition_is_observed_only_at_previous_count_one() {
    assert!(release_observes_zero(1));
    assert!(!release_observes_zero(2));
    assert!(!release_observes_zero(17));
}
