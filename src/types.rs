use vstd::prelude::*;

verus! {

/// Status of the worker as shown to users.
#[derive(Debug, Clone, Copy, PartialEq, Eq, Structural)]
pub enum AgentState {
    Idle,
    Running,
    Paused,
    Error,
    Unhealthy,
}

/// Snapshot of the worker's status.
#[derive(Debug, Clone)]
pub struct AgentStatus {
    pub state: AgentState,
    pub current_session_id: Option<String>,
    pub current_cycle_id: Option<String>,
    pub total_cycles: u64,
    pub total_anomalies: u64,
    pub uptime: u64,
    pub last_error: Option<String>,
}

/// Kind of an `agent:activity` event.
#[derive(Debug, Clone, Copy, PartialEq, Eq, Structural)]
pub enum AgentActivityType {
    CycleStart,
    CycleEnd,
    AnomalyDetected,
    MemoryFlush,
    Compaction,
    SubagentSpawn,
    FeedbackProcessed,
    RuleEvolved,
    Error,
}

/// Health of a data source, as carried by `source:health-change`.
#[derive(Debug, Clone, Copy, PartialEq, Eq, Structural)]
pub enum SourceHealthStatus {
    Healthy,
    Degraded,
    Offline,
}

/// Payload of a `source:health-change` event.
#[derive(Debug, Clone)]
pub struct SourceHealth {
    pub source_id: String,
    pub status: SourceHealthStatus,
    pub last_success: u64,
    pub last_failure: Option<u64>,
    pub fail_count: u32,
    pub latency_ms: u64,
    pub message: Option<String>,
}

/// Kind of a `memory:updated` event.
#[derive(Debug, Clone, Copy, PartialEq, Eq, Structural)]
pub enum MemoryEventType {
    Created,
    Updated,
    Deleted,
}

/// Payload of a `memory:updated` event.
#[derive(Debug, Clone)]
pub struct MemoryEvent {
    pub event_type: MemoryEventType,
    pub entry_id: String,
    pub timestamp: u64,
}

} // verus!
