use finwatch_bridge::jsonrpc::JsonRpcResponse;
use finwatch_bridge::pending::timeout_message;
use finwatch_bridge::PendingRequestTracker;
use serde_json::Value;
use std::time::Duration;

fn make_response(id: u64) -> JsonRpcResponse {
    let mut result = serde_json::Map::new();
    result.insert("status".to_string(), Value::String("ok".to_string()));
    JsonRpcResponse {
        jsonrpc: "2.0".to_string(),
        id,
        result: Some(Value::Object(result)),
        error: None,
    }
}

#[test]
fn register_and_resolve_delivers_response() {
    let mut tracker = PendingRequestTracker::new();
    let rx = tracker.register(1, 30_000, 0);
    assert_eq!(tracker.len(), 1);

    let response = make_response(1);
    assert!(tracker.resolve(1, response.clone()));
    assert_eq!(tracker.len(), 0);

    let received = rx.recv_timeout(Duration::from_millis(100)).unwrap();
    assert!(received.is_ok());
    assert_eq!(received.unwrap().id, 1);
}

#[test]
fn resolve_unknown_id_returns_false() {
    let mut tracker = PendingRequestTracker::new();
    let response = make_response(999);
    assert!(!tracker.resolve(999, response));
}

#[test]
fn timeout_fires_on_expired_request() {
    let mut tracker = PendingRequestTracker::new();
    // Register with a very short timeout
    let rx = tracker.register(42, 1, 0);
    assert_eq!(tracker.len(), 1);

    // The sweep runs after the deadline has passed
    tracker.check_timeouts(10);
    assert_eq!(tracker.len(), 0);

    let received = rx.recv_timeout(Duration::from_millis(100)).unwrap();
    assert!(received.is_err());
    assert!(received.unwrap_err().contains("timed out"));
}

#[test]
fn non_expired_request_survives_timeout_check() {
    let mut tracker = PendingRequestTracker::new();
    let _rx = tracker.register(1, 60_000, 0);

    tracker.check_timeouts(0);
    assert_eq!(tracker.len(), 1);
}

#[test]
fn fail_all_fails_every_pending_request() {
    let mut tracker = PendingRequestTracker::new();
    let rx1 = tracker.register(1, 30_000, 0);
    let rx2 = tracker.register(2, 30_000, 0);
    assert_eq!(tracker.len(), 2);

    tracker.fail_all("sidecar killed");
    assert_eq!(tracker.len(), 0);

    let r1 = rx1.recv_timeout(Duration::from_millis(100)).unwrap();
    let r2 = rx2.recv_timeout(Duration::from_millis(100)).unwrap();
    assert!(r1.is_err());
    assert!(r2.is_err());
    assert!(r1.unwrap_err().contains("sidecar killed"));
    assert!(r2.unwrap_err().contains("sidecar killed"));
}

#[test]
fn multiple_requests_tracked_independently() {
    let mut tracker = PendingRequestTracker::new();
    let rx1 = tracker.register(10, 30_000, 0);
    let rx2 = tracker.register(20, 30_000, 0);
    assert_eq!(tracker.len(), 2);

    // Resolve only the second one
    assert!(tracker.resolve(20, make_response(20)));
    assert_eq!(tracker.len(), 1);

    let r2 = rx2.recv_timeout(Duration::from_millis(100)).unwrap();
    assert!(r2.is_ok());
    assert_eq!(r2.unwrap().id, 20);

    // First is still pending
    assert!(rx1.try_recv().is_err());

    // Resolve the first one
    assert!(tracker.resolve(10, make_response(10)));
    assert_eq!(tracker.len(), 0);
    let r1 = rx1.recv_timeout(Duration::from_millis(100)).unwrap();
    assert!(r1.is_ok());
}

#[test]
fn double_resolve_returns_false() {
    let mut tracker = PendingRequestTracker::new();
    let _rx = tracker.register(1, 30_000, 0);

    assert!(tracker.resolve(1, make_response(1)));
    // Second resolve should return false: already consumed
    assert!(!tracker.resolve(1, make_response(1)));
}

#[test]
fn resolve_delivers_exactly_the_given_response() {
    let mut tracker = PendingRequestTracker::new();
    let rx = tracker.register(5, 30_000, 0);
    let mut response = make_response(5);
    response.result = Some(Value::from(77u64));
    assert!(tracker.resolve(5, response));
    let got = rx.recv_timeout(Duration::from_millis(100)).unwrap().unwrap();
    assert_eq!(got.id, 5);
    assert_eq!(got.result, Some(Value::from(77u64)));
    assert!(got.error.is_none());
}

#[test]
fn sweep_fails_with_message_naming_the_id_and_keeps_the_rest() {
    let mut tracker = PendingRequestTracker::new();
    let early = tracker.register(7, 100, 1_000);
    let late = tracker.register(8, 5_000, 1_000);
    // A deadline equal to the sweep time counts as passed.
    tracker.check_timeouts(1_100);
    assert_eq!(tracker.len(), 1);
    let failed = early.recv_timeout(Duration::from_millis(100)).unwrap();
    assert_eq!(failed.unwrap_err(), "JSON-RPC request 7 timed out");
    assert!(late.try_recv().is_err());
    assert!(tracker.resolve(8, make_response(8)));
}

#[test]
fn fail_all_ignores_deadlines() {
    let mut tracker = PendingRequestTracker::new();
    let rx = tracker.register(3, u64::MAX, u64::MAX);
    tracker.fail_all("Sidecar process crashed");
    assert_eq!(tracker.len(), 0);
    assert_eq!(
        rx.recv_timeout(Duration::from_millis(100)).unwrap().unwrap_err(),
        "Sidecar process crashed"
    );
}

#[test]
fn register_same_id_twice_keeps_one_entry() {
    let mut tracker = PendingRequestTracker::new();
    let first = tracker.register(9, 10, 0);
    let second = tracker.register(9, 50_000, 0);
    assert_eq!(tracker.len(), 1);
    // The newer registration governs the deadline.
    tracker.check_timeouts(20);
    assert_eq!(tracker.len(), 1);
    assert!(first.recv_timeout(Duration::from_millis(50)).is_err());
    assert!(tracker.resolve(9, make_response(9)));
    assert!(second.recv_timeout(Duration::from_millis(100)).unwrap().is_ok());
}

#[test]
fn timeout_message_text() {
    assert_eq!(timeout_message(0), "JSON-RPC request 0 timed out");
    assert_eq!(timeout_message(1234567890), "JSON-RPC request 1234567890 timed out");
    assert_eq!(
        timeout_message(u64::MAX),
        "JSON-RPC request 18446744073709551615 timed out"
    );
}
