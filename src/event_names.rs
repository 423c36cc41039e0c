use vstd::prelude::*;

verus! {

// Names of the events forwarded to listeners; each equals the worker's
// notification method that it stands for.
pub const AGENT_ACTIVITY: &'static str = "agent:activity";
pub const DATA_TICK: &'static str = "data:tick";
pub const ANOMALY_DETECTED: &'static str = "anomaly:detected";
pub const SOURCE_HEALTH_CHANGE: &'static str = "source:health-change";
pub const MEMORY_UPDATED: &'static str = "memory:updated";
pub const BACKTEST_PROGRESS: &'static str = "backtest:progress";
pub const BACKTEST_COMPLETE: &'static str = "backtest:complete";

} // verus!
