use finwatch_bridge::sidecar::backoff_secs;
use finwatch_bridge::{SidecarState, SidecarSupervisor};
use std::sync::Arc;
use std::time::Duration;

#[test]
fn new_supervisor_starts_stopped() {
    let sup = SidecarSupervisor::new(3);
    assert_eq!(sup.state(), SidecarState::Stopped);
}

#[test]
fn record_started_sets_running() {
    let mut sup = SidecarSupervisor::new(3);
    sup.record_started();
    assert_eq!(sup.state(), SidecarState::Running);
}

#[test]
fn record_crash_increments_count() {
    let mut sup = SidecarSupervisor::new(3);
    sup.record_started();
    sup.record_crash();
    assert_eq!(sup.state(), SidecarState::Crashed { restart_count: 1 });
    sup.record_crash();
    assert_eq!(sup.state(), SidecarState::Crashed { restart_count: 2 });
}

#[test]
fn should_restart_true_under_max() {
    let mut sup = SidecarSupervisor::new(3);
    sup.record_started();
    sup.record_crash(); // count = 1
    assert!(sup.should_restart());
    sup.record_crash(); // count = 2
    assert!(sup.should_restart());
}

#[test]
fn should_restart_false_at_max() {
    let mut sup = SidecarSupervisor::new(2);
    sup.record_started();
    sup.record_crash(); // 1
    sup.record_crash(); // 2 = max
    assert!(!sup.should_restart());
}

#[test]
fn should_restart_false_when_stopped() {
    let sup = SidecarSupervisor::new(3);
    assert!(!sup.should_restart());
}

#[test]
fn record_stopped_resets() {
    let mut sup = SidecarSupervisor::new(3);
    sup.record_started();
    sup.record_crash();
    sup.record_stopped();
    assert_eq!(sup.state(), SidecarState::Stopped);
}

#[test]
fn backoff_starts_at_one_second() {
    let sup = SidecarSupervisor::new(10);
    // Not crashed yet, so backoff should be 1s
    assert_eq!(sup.backoff_duration(), Duration::from_secs(1));
}

#[test]
fn backoff_increases_exponentially() {
    let mut sup = SidecarSupervisor::new(10);
    sup.record_started();

    sup.record_crash(); // count = 1
    assert_eq!(sup.backoff_duration(), Duration::from_secs(2));

    sup.record_crash(); // count = 2
    assert_eq!(sup.backoff_duration(), Duration::from_secs(4));

    sup.record_crash(); // count = 3
    assert_eq!(sup.backoff_duration(), Duration::from_secs(8));

    sup.record_crash(); // count = 4
    assert_eq!(sup.backoff_duration(), Duration::from_secs(16));
}

#[test]
fn backoff_caps_at_30_seconds() {
    let mut sup = SidecarSupervisor::new(20);
    sup.record_started();

    // 5 crashes: 2^5 = 32 > 30, should cap
    for _ in 0..5 {
        sup.record_crash();
    }
    assert_eq!(sup.backoff_duration(), Duration::from_secs(30));

    // Even more crashes should still cap at 30
    for _ in 0..5 {
        sup.record_crash();
    }
    assert_eq!(sup.backoff_duration(), Duration::from_secs(30));
}

#[test]
fn restart_count_returns_zero_when_not_crashed() {
    let mut sup = SidecarSupervisor::new(3);
    assert_eq!(sup.restart_count(), 0);
    sup.record_started();
    assert_eq!(sup.restart_count(), 0);
}

#[test]
fn restart_count_tracks_crashes() {
    let mut sup = SidecarSupervisor::new(5);
    sup.record_started();
    sup.record_crash();
    assert_eq!(sup.restart_count(), 1);
    sup.record_crash();
    assert_eq!(sup.restart_count(), 2);
}

#[test]
fn backoff_sequence_for_counts_zero_to_six() {
    let expected = [1u64, 2, 4, 8, 16, 30, 30];
    for (count, secs) in expected.iter().enumerate() {
        assert_eq!(backoff_secs(count as u32), *secs);
    }
    assert_eq!(backoff_secs(u32::MAX), 30);
}

#[test]
fn set_state_and_max_restarts_are_kept() {
    let mut sup = SidecarSupervisor::new(7);
    sup.set_state(SidecarState::Starting);
    assert_eq!(sup.state(), SidecarState::Starting);
    assert_eq!(sup.max_restarts(), 7);
}

#[test]
fn snapshot_round_trips_through_arc() {
    let mut sup = SidecarSupervisor::new(4);
    sup.record_started();
    sup.record_crash();
    let snapshot = sup.state_arc();
    assert_eq!(*snapshot, SidecarState::Crashed { restart_count: 1 });
    let copy = SidecarSupervisor::from_arc(Arc::clone(&snapshot), 4);
    assert_eq!(copy.state(), SidecarState::Crashed { restart_count: 1 });
    assert_eq!(copy.max_restarts(), 4);
    assert!(copy.should_restart());
}

#[test]
fn crash_count_saturates_at_the_largest_count() {
    let mut sup = SidecarSupervisor::new(3);
    sup.set_state(SidecarState::Crashed { restart_count: u32::MAX });
    sup.record_crash();
    assert_eq!(sup.restart_count(), u32::MAX);
}
