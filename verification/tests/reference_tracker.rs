use roboticsinrust::pid::PidState;
use roboticsinrust::reference::{CycleOutcome, ReferenceTracker, DEFAULT_ORTHONORM_INTERVAL};

fn advance(reference: &i64) -> i64 {
    reference + 1
}

fn renew(reference: i64) -> i64 {
    reference * 100
}

#[test]
fn new_tracker_starts_tracking_with_default_interval() {
    let tracker = ReferenceTracker::new(7i64, 10u32);
    assert!(!tracker.holding());
    assert_eq!(*tracker.reference(), 7);
    assert_eq!(tracker.cycle_count(), 0);
    assert_eq!(tracker.orthonorm_interval(), 50);
    assert_eq!(tracker.epsilon(), 10);
    assert_eq!(DEFAULT_ORTHONORM_INTERVAL, 50);
}

#[test]
fn with_interval_keeps_the_interval() {
    let tracker = ReferenceTracker::with_interval('r', 10u32, 3);
    assert_eq!(tracker.orthonorm_interval(), 3);
    assert_eq!(tracker.cycle_count(), 0);
    assert!(!tracker.holding());
    assert_eq!(*tracker.reference(), 'r');
}

#[test]
fn first_idle_cycle_captures_the_current_pose() {
    let mut tracker = ReferenceTracker::new(0i64, 10u32);
    let outcome = tracker.step(0, 10, 42, advance, renew);
    assert_eq!(outcome, CycleOutcome::Captured);
    assert!(tracker.holding());
    assert_eq!(*tracker.reference(), 42);
}

#[test]
fn zero_velocity_holds_the_reference_constant() {
    let mut tracker = ReferenceTracker::new(0i64, 10u32);
    assert_eq!(tracker.step(0, 10, 42, advance, renew), CycleOutcome::Captured);
    for cycle in 0..200i64 {
        let outcome = tracker.step(0, 10, 1000 + cycle, advance, renew);
        assert_eq!(outcome, CycleOutcome::Held);
        assert!(tracker.holding());
        assert_eq!(*tracker.reference(), 42);
        assert_eq!(tracker.cycle_count(), 0);
    }
}

#[test]
fn holding_does_not_call_the_integrator() {
    let mut tracker = ReferenceTracker::new(5i64, 10u32);
    let calls = std::cell::Cell::new(0u32);
    for _ in 0..3 {
        tracker.step(
            10,
            9,
            9,
            |r: &i64| {
                calls.set(calls.get() + 1);
                *r
            },
            |r: i64| {
                calls.set(calls.get() + 1);
                r
            },
        );
    }
    assert_eq!(calls.get(), 0);
}

#[test]
fn either_component_above_threshold_means_tracking() {
    for (linear, angular) in [(11u32, 0u32), (0, 11), (11, 11), (u32::MAX, 10)] {
        let mut tracker = ReferenceTracker::new(10i64, 10u32);
        tracker.step(0, 10, 20, advance, renew);
        assert!(tracker.holding());
        let outcome = tracker.step(linear, angular, 99, advance, renew);
        assert_eq!(outcome, CycleOutcome::Integrated);
        assert!(!tracker.holding());
        assert_eq!(*tracker.reference(), 21);
    }
}

#[test]
fn tracking_integrates_the_reference_every_cycle() {
    let mut tracker = ReferenceTracker::new(0i64, 10u32);
    for cycle in 1..=10i64 {
        assert_eq!(tracker.step(11, 0, -1, advance, renew), CycleOutcome::Integrated);
        assert_eq!(*tracker.reference(), cycle);
        assert!(!tracker.holding());
    }
}

#[test]
fn reference_is_renewed_after_exactly_the_interval() {
    let mut tracker = ReferenceTracker::new(0i64, 10u32);
    for cycle in 1..50i64 {
        assert_eq!(tracker.step(50, 60, -1, advance, renew), CycleOutcome::Integrated);
        assert_eq!(*tracker.reference(), cycle);
        assert_eq!(tracker.cycle_count(), cycle as usize);
    }
    assert_eq!(
        tracker.step(50, 60, -1, advance, renew),
        CycleOutcome::Reorthonormalized
    );
    assert_eq!(*tracker.reference(), 5000);
    assert_eq!(tracker.cycle_count(), 0);
}

#[test]
fn renewal_recurs_at_every_multiple_of_the_interval() {
    let mut tracker = ReferenceTracker::with_interval(0i64, 10u32, 4);
    let mut renewed_at = Vec::new();
    for cycle in 1..=20usize {
        let outcome = tracker.step(11, 0, -1, |r: &i64| *r, |r: i64| r);
        if outcome == CycleOutcome::Reorthonormalized {
            renewed_at.push(cycle);
        }
        assert_eq!(tracker.cycle_count(), cycle % 4);
    }
    assert_eq!(renewed_at, vec![4, 8, 12, 16, 20]);
}

#[test]
fn interval_of_one_renews_every_tracking_cycle() {
    let mut tracker = ReferenceTracker::with_interval(1i64, 10u32, 1);
    for _ in 0..5 {
        assert_eq!(
            tracker.step(3, 4000, 0, |r: &i64| *r, |r: i64| -r),
            CycleOutcome::Reorthonormalized
        );
        assert_eq!(tracker.cycle_count(), 0);
    }
    assert_eq!(*tracker.reference(), -1);
}

#[test]
fn holding_does_not_advance_the_schedule() {
    let mut tracker = ReferenceTracker::with_interval(0i64, 10u32, 3);
    tracker.step(11, 0, -1, advance, renew);
    tracker.step(11, 0, -1, advance, renew);
    assert_eq!(tracker.cycle_count(), 2);
    for _ in 0..10 {
        tracker.step(0, 10, 7, advance, renew);
        assert_eq!(tracker.cycle_count(), 2);
    }
    assert_eq!(*tracker.reference(), 7);
    assert_eq!(
        tracker.step(11, 0, -1, advance, renew),
        CycleOutcome::Reorthonormalized
    );
    assert_eq!(*tracker.reference(), 800);
}

#[test]
fn release_captures_the_pose_once() {
    let mut tracker = ReferenceTracker::new(0i64, 10u32);
    tracker.step(11, 0, -1, advance, renew);
    tracker.step(11, 0, -1, advance, renew);
    assert_eq!(tracker.step(0, 10, 300, advance, renew), CycleOutcome::Captured);
    assert_eq!(tracker.step(0, 10, 301, advance, renew), CycleOutcome::Held);
    assert_eq!(tracker.step(0, 10, 302, advance, renew), CycleOutcome::Held);
    assert_eq!(*tracker.reference(), 300);
    tracker.step(3, 4000, -1, advance, renew);
    assert_eq!(*tracker.reference(), 301);
    assert_eq!(tracker.step(0, 10, 400, advance, renew), CycleOutcome::Captured);
    assert_eq!(*tracker.reference(), 400);
}

#[test]
fn speed_equal_to_the_threshold_is_no_command() {
    let mut tracker = ReferenceTracker::new(0i64, 10u32);
    assert_eq!(tracker.step(10, 10, 5, advance, renew), CycleOutcome::Captured);
    assert_eq!(tracker.step(10, 11, 6, advance, renew), CycleOutcome::Integrated);
    assert_eq!(tracker.step(11, 10, 6, advance, renew), CycleOutcome::Integrated);
    assert_eq!(tracker.step(10, 10, 7, advance, renew), CycleOutcome::Captured);
    assert_eq!(*tracker.reference(), 7);
}

#[test]
fn outcome_tells_tracking_from_holding() {
    assert!(CycleOutcome::Integrated.is_tracking());
    assert!(CycleOutcome::Reorthonormalized.is_tracking());
    assert!(!CycleOutcome::Held.is_tracking());
    assert!(!CycleOutcome::Captured.is_tracking());
}

#[test]
fn pid_state_starts_with_what_it_is_given() {
    let state = PidState::new(3, 4);
    assert_eq!(*state.integral_error(), 3);
    assert_eq!(*state.prev_error(), 4);
}

#[test]
fn pid_update_accumulates_then_commands_then_remembers() {
    let mut state = PidState::new(0i64, 0i64);
    let dt = 2;
    let mut commands = Vec::new();
    for error in [10i64, 7, 7, -1] {
        let command = state.update(
            error,
            |integral: &i64, error: &i64| integral + error * dt,
            |error: &i64, integral: &i64, prev: &i64| {
                1000 * error + 100 * integral + (error - prev) / dt
            },
        );
        commands.push(command);
        assert_eq!(*state.prev_error(), error);
    }
    assert_eq!(
        commands,
        vec![
            10_000 + 2_000 + 5,
            7_000 + 3_400 - 1,
            7_000 + 4_800,
            -1_000 + 4_600 - 4,
        ]
    );
    assert_eq!(*state.integral_error(), 46);
}

#[test]
fn pid_derivative_is_taken_against_the_previous_error() {
    let mut state = PidState::new(0i64, 5i64);
    let seen = state.update(
        9,
        |integral: &i64, _error: &i64| *integral,
        |error: &i64, _integral: &i64, prev: &i64| (*error, *prev),
    );
    assert_eq!(seen, (9, 5));
    let seen = state.update(
        2,
        |integral: &i64, _error: &i64| *integral,
        |error: &i64, _integral: &i64, prev: &i64| (*error, *prev),
    );
    assert_eq!(seen, (2, 9));
}

#[test]
fn pid_reset_forgets_the_accumulated_errors() {
    let mut state = PidState::new(0i64, 0i64);
    state.update(
        8,
        |integral: &i64, error: &i64| integral + error,
        |_error: &i64, _integral: &i64, _prev: &i64| (),
    );
    assert_eq!(*state.integral_error(), 8);
    state.reset(0, 0);
    assert_eq!(*state.integral_error(), 0);
    assert_eq!(*state.prev_error(), 0);
}
