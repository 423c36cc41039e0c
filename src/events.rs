use crate::event_names::{
    AGENT_ACTIVITY, ANOMALY_DETECTED, BACKTEST_COMPLETE, BACKTEST_PROGRESS, DATA_TICK, MEMORY_UPDATED,
    SOURCE_HEALTH_CHANGE,
};
use crate::text::same_text;
use vstd::prelude::*;

verus! {

/// The notification methods that the worker may send and that are forwarded
/// as events; each event carries the name of its method.
pub open spec fn is_known_method(m: Seq<char>) -> bool {
    ||| m == "data:tick"@
    ||| m == "anomaly:detected"@
    ||| m == "agent:activity"@
    ||| m == "source:health-change"@
    ||| m == "memory:updated"@
    ||| m == "backtest:progress"@
    ||| m == "backtest:complete"@
}

/// The event that a notification with this method is forwarded as, or
/// `None` for a method outside the catalog, which is dropped.
pub fn notification_event(method: &str) -> (r: Option<&'static str>)
    ensures
        r is Some <==> is_known_method(method@),
        r matches Some(e) ==> e@ == method@,
{
    proof {
        reveal_strlit("data:tick");
        reveal_strlit("anomaly:detected");
        reveal_strlit("agent:activity");
        reveal_strlit("source:health-change");
        reveal_strlit("memory:updated");
        reveal_strlit("backtest:progress");
        reveal_strlit("backtest:complete");
    }
    if same_text(method, DATA_TICK) {
        Some(DATA_TICK)
    } else if same_text(method, ANOMALY_DETECTED) {
        Some(ANOMALY_DETECTED)
    } else if same_text(method, AGENT_ACTIVITY) {
        Some(AGENT_ACTIVITY)
    } else if same_text(method, SOURCE_HEALTH_CHANGE) {
        Some(SOURCE_HEALTH_CHANGE)
    } else if same_text(method, MEMORY_UPDATED) {
        Some(MEMORY_UPDATED)
    } else if same_text(method, BACKTEST_PROGRESS) {
        Some(BACKTEST_PROGRESS)
    } else if same_text(method, BACKTEST_COMPLETE) {
        Some(BACKTEST_COMPLETE)
    } else {
        None
    }
}

} // verus!
