use tympan_aspl::realtime::spsc::{is_empty, is_full, next_position, occupancy, slot};
use tympan_aspl::realtime::{Refcount, State, StateCell};
use tympan_aspl::RealtimeContext;

#[test]
fn new_starts_at_one() {
    let rc = Refcount::new();
    assert_eq!(rc.count(), 1);
    assert!(!rc.is_zero());
}

#[test]
fn new_unowned_starts_at_zero() {
    let rc = Refcount::new_unowned();
    assert_eq!(rc.count(), 0);
    assert!(rc.is_zero());
}

#[test]
fn refcount_default_matches_new() {
    assert_eq!(Refcount::default().count(), 1);
}

#[test]
fn add_ref_returns_incremented_count() {
    let mut rc = Refcount::new_unowned();
    assert_eq!(rc.add_ref(), 1);
    assert_eq!(rc.add_ref(), 2);
    assert_eq!(rc.add_ref(), 3);
    assert_eq!(rc.count(), 3);
    assert!(!rc.is_zero());
}

#[test]
fn release_returns_decremented_count() {
    let mut rc = Refcount::new_unowned();
    rc.add_ref();
    rc.add_ref();
    rc.add_ref();
    assert_eq!(rc.release(), 2);
    assert_eq!(rc.release(), 1);
    assert_eq!(rc.release(), 0);
    assert!(rc.is_zero());
}

#[test]
fn owning_refcount_releases_to_zero() {
    let mut rc = Refcount::new();
    assert_eq!(rc.release(), 0);
    assert!(rc.is_zero());
}

#[test]
fn many_round_trips_preserve_invariants() {
    let mut rc = Refcount::new_unowned();
    for i in 1..=100 {
        assert_eq!(rc.add_ref(), i);
    }
    for i in (0..100).rev() {
        assert_eq!(rc.release(), i);
    }
    assert!(rc.is_zero());
}

#[test]
fn new_cell_starts_uninitialized() {
    let s = StateCell::new();
    assert_eq!(s.load(), State::Uninitialized);
    assert!(!s.is_running());
}

#[test]
fn state_default_matches_new() {
    assert_eq!(StateCell::default().load(), State::Uninitialized);
}

#[test]
fn initialize_uninitialized_to_initialized() {
    let mut s = StateCell::new();
    assert!(s.initialize().is_ok());
    assert_eq!(s.load(), State::Initialized);
}

#[test]
fn initialize_when_already_initialized_errors() {
    let mut s = StateCell::new();
    s.initialize().unwrap();
    let err = s.initialize().unwrap_err();
    assert_eq!(err.expected, State::Uninitialized);
    assert_eq!(err.attempted, State::Initialized);
    assert_eq!(err.actual, State::Initialized);
}

#[test]
fn state_start_requires_initialized() {
    let mut s = StateCell::new();
    let err = s.start().unwrap_err();
    assert_eq!(err.expected, State::Initialized);
    assert_eq!(err.attempted, State::Running);
    assert_eq!(err.actual, State::Uninitialized);

    s.initialize().unwrap();
    assert!(s.start().is_ok());
    assert!(s.is_running());
    assert!(s.load().allows_io());
}

#[test]
fn start_when_already_running_errors() {
    let mut s = StateCell::new();
    s.initialize().unwrap();
    s.start().unwrap();
    let err = s.start().unwrap_err();
    assert_eq!(err.actual, State::Running);
}

#[test]
fn stop_requires_running() {
    let mut s = StateCell::new();
    let err = s.stop().unwrap_err();
    assert_eq!(err.expected, State::Running);
    assert_eq!(err.attempted, State::Initialized);
    assert_eq!(err.actual, State::Uninitialized);
}

#[test]
fn stop_returns_to_initialized() {
    let mut s = StateCell::new();
    s.initialize().unwrap();
    s.start().unwrap();
    s.stop().unwrap();
    assert_eq!(s.load(), State::Initialized);
}

#[test]
fn reset_from_any_state() {
    let mut s = StateCell::new();
    assert_eq!(s.reset(), State::Uninitialized);

    s.initialize().unwrap();
    assert_eq!(s.reset(), State::Initialized);
    assert_eq!(s.load(), State::Uninitialized);

    s.initialize().unwrap();
    s.start().unwrap();
    assert_eq!(s.reset(), State::Running);
    assert_eq!(s.load(), State::Uninitialized);
}

#[test]
fn state_full_lifecycle_round_trip() {
    let mut s = StateCell::new();
    s.initialize().unwrap();
    s.start().unwrap();
    s.stop().unwrap();
    s.start().unwrap();
    s.stop().unwrap();
    let prior = s.reset();
    assert_eq!(prior, State::Initialized);
    assert_eq!(s.load(), State::Uninitialized);
}

#[test]
fn allows_io_only_in_running() {
    assert!(!State::Uninitialized.allows_io());
    assert!(!State::Initialized.allows_io());
    assert!(State::Running.allows_io());
}

#[test]
fn constructor_is_callable() {
    let _ctx = RealtimeContext::new_unchecked();
    assert_eq!(core::mem::size_of::<RealtimeContext>(), 0);
}

#[test]
fn failed_transitions_leave_the_state_alone() {
    let mut s = StateCell::new();
    assert!(s.stop().is_err());
    assert_eq!(s.load(), State::Uninitialized);
    s.initialize().unwrap();
    assert!(s.stop().is_err());
    assert_eq!(s.load(), State::Initialized);
    s.start().unwrap();
    assert!(s.initialize().is_err());
    assert_eq!(s.load(), State::Running);
}

#[test]
fn add_ref_then_release_restores_the_count() {
    let mut rc = Refcount::new();
    let before = rc.count();
    rc.add_ref();
    rc.release();
    assert_eq!(rc.count(), before);
}

#[test]
fn spsc_positions_wrap_and_count_in_flight_items() {
    assert_eq!(occupancy(3, 3), 0);
    assert_eq!(occupancy(3, 7), 4);
    assert_eq!(occupancy(usize::MAX, 1), 2);
    assert!(is_empty(5, 5));
    assert!(!is_empty(5, 6));
    assert!(is_full(0, 4, 4));
    assert!(!is_full(1, 4, 4));
    assert!(is_full(usize::MAX - 1, 2, 4));
    assert_eq!(slot(10, 4), 2);
    assert_eq!(next_position(usize::MAX), 0);
    assert_eq!(next_position(9), 10);
}
