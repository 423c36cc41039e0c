//! Supervision and JSON-RPC correlation for a long-running worker process.
//!
//! The modules hold the decisions of the bridge as verified code: the
//! supervisor's lifecycle and back-off, the watchdog's reaction to a process
//! exit, the table of in-flight requests, the request codec and the routing of
//! worker notifications. Process handles, pipes and threads stay with the
//! caller, which feeds the observed events in and carries the decided actions
//! out.
pub mod bridge;
pub mod event_names;
pub mod events;
pub mod jsonrpc;
pub mod pending;
pub mod sidecar;
pub mod text;
pub mod types;

pub use bridge::SidecarBridge;
pub use pending::PendingRequestTracker;
pub use sidecar::{SidecarState, SidecarSupervisor};
