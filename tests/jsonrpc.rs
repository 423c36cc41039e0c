use finwatch_bridge::event_names::{
    AGENT_ACTIVITY, ANOMALY_DETECTED, BACKTEST_COMPLETE, BACKTEST_PROGRESS, DATA_TICK,
    MEMORY_UPDATED, SOURCE_HEALTH_CHANGE,
};
use finwatch_bridge::events::notification_event;
use finwatch_bridge::jsonrpc::{
    classify_inbound, frame_request, InboundKind, JsonRpcError, JsonRpcRequest, JsonRpcResponse,
    RequestIdCounter,
};
use finwatch_bridge::text::{decimal, same_text};
use serde_json::Value;

#[test]
fn request_serializes_to_valid_json() {
    let mut ids = RequestIdCounter::new();
    let req = JsonRpcRequest::new(ids.next_id(), "ping", None);
    let line = req.to_line().unwrap();
    assert!(line.ends_with('\n'));
    let parsed: Value = serde_json::from_str(line.trim()).unwrap();
    assert_eq!(parsed["jsonrpc"], "2.0");
    assert_eq!(parsed["method"], "ping");
}

#[test]
fn request_with_params() {
    let mut params = serde_json::Map::new();
    params.insert("query".to_string(), Value::String("test".to_string()));
    let mut ids = RequestIdCounter::new();
    let req = JsonRpcRequest::new(ids.next_id(), "memory:search", Some(Value::Object(params)));
    let line = req.to_line().unwrap();
    let parsed: Value = serde_json::from_str(line.trim()).unwrap();
    assert_eq!(parsed["params"]["query"], "test");
}

#[test]
fn request_ids_auto_increment() {
    let mut ids = RequestIdCounter::new();
    let r1 = JsonRpcRequest::new(ids.next_id(), "a", None);
    let r2 = JsonRpcRequest::new(ids.next_id(), "b", None);
    assert!(r2.id > r1.id);
}

#[test]
fn roundtrip_request_matches_node_format() {
    let mut ids = RequestIdCounter::new();
    let req = JsonRpcRequest::new(ids.next_id(), "ping", Some(Value::Object(serde_json::Map::new())));
    let line = req.to_line().unwrap();
    let parsed: Value = serde_json::from_str(line.trim()).unwrap();
    assert!(parsed.get("jsonrpc").is_some());
    assert!(parsed.get("id").is_some());
    assert!(parsed.get("method").is_some());
}

#[test]
fn request_line_is_exact() {
    let req = JsonRpcRequest::new(12, "agent:start", None);
    assert_eq!(
        req.to_line().unwrap(),
        "{\"jsonrpc\":\"2.0\",\"id\":12,\"method\":\"agent:start\"}\n"
    );
    let req = JsonRpcRequest::new(3, "say \"hi\"", Some(Value::from(vec![1u64, 2])));
    assert_eq!(
        req.to_line().unwrap(),
        "{\"jsonrpc\":\"2.0\",\"id\":3,\"method\":\"say \\\"hi\\\"\",\"params\":[1,2]}\n"
    );
}

#[test]
fn frame_request_joins_members() {
    assert_eq!(
        frame_request("\"2.0\"", 0, "\"m\"", Some("null")),
        "{\"jsonrpc\":\"2.0\",\"id\":0,\"method\":\"m\",\"params\":null}\n"
    );
    assert_eq!(
        frame_request("\"2.0\"", 18446744073709551615, "\"m\"", None),
        "{\"jsonrpc\":\"2.0\",\"id\":18446744073709551615,\"method\":\"m\"}\n"
    );
}

#[test]
fn request_id_counter_starts_at_one_and_wraps() {
    let mut ids = RequestIdCounter::new();
    assert_eq!(ids.next_id(), 1);
    assert_eq!(ids.next_id(), 2);
}

#[test]
fn response_success_depends_on_error_object() {
    let ok = JsonRpcResponse {
        jsonrpc: "2.0".to_string(),
        id: 1,
        result: Some(Value::Object(serde_json::Map::new())),
        error: None,
    };
    assert!(ok.is_success());
    let failed = JsonRpcResponse {
        jsonrpc: "2.0".to_string(),
        id: 1,
        result: None,
        error: Some(JsonRpcError {
            code: -32601,
            message: "Method not found".to_string(),
            data: None,
        }),
    };
    assert!(!failed.is_success());
    assert_eq!(failed.error.unwrap().code, -32601);
}

#[test]
fn inbound_lines_are_classified_by_shape() {
    assert_eq!(classify_inbound(Some(4), false), InboundKind::Response { id: 4 });
    assert_eq!(classify_inbound(None, true), InboundKind::Notification);
    assert_eq!(classify_inbound(None, false), InboundKind::Discard);
    assert_eq!(classify_inbound(Some(4), true), InboundKind::Discard);
}

#[test]
fn decimal_and_text_comparison() {
    assert_eq!(decimal(0), "0");
    assert_eq!(decimal(907), "907");
    assert_eq!(decimal(u64::MAX), "18446744073709551615");
    assert!(same_text("data:tick", "data:tick"));
    assert!(!same_text("data:tick", "data:tock"));
    assert!(!same_text("data", "data:tick"));
}

#[test]
fn event_names_match_ipc_contract() {
    assert_eq!(AGENT_ACTIVITY, "agent:activity");
    assert_eq!(DATA_TICK, "data:tick");
    assert_eq!(ANOMALY_DETECTED, "anomaly:detected");
    assert_eq!(SOURCE_HEALTH_CHANGE, "source:health-change");
    assert_eq!(MEMORY_UPDATED, "memory:updated");
    assert_eq!(BACKTEST_PROGRESS, "backtest:progress");
    assert_eq!(BACKTEST_COMPLETE, "backtest:complete");
}

#[test]
fn known_notifications_are_routed_and_unknown_dropped() {
    for method in [
        "data:tick",
        "anomaly:detected",
        "agent:activity",
        "source:health-change",
        "memory:updated",
        "backtest:progress",
        "backtest:complete",
    ] {
        assert_eq!(notification_event(method), Some(method));
    }
    assert_eq!(notification_event("agent:status"), None);
    assert_eq!(notification_event(""), None);
    assert_eq!(notification_event("data:tick "), None);
}

#[test]
fn method_text_is_escaped_as_json() {
    let req = JsonRpcRequest::new(5, "a\u{1}\n\t\\/", None);
    assert_eq!(
        req.to_line().unwrap(),
        "{\"jsonrpc\":\"2.0\",\"id\":5,\"method\":\"a\\u0001\\n\\t\\\\/\"}\n"
    );
}
