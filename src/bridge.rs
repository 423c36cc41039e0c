use crate::jsonrpc::{
    encodes_request, JsonRpcRequest, JsonRpcResponse, RequestIdCounter,
};
use crate::pending::{
    deadline_after, due_ids, fails_each_once, timeout_reason, unexpired, Delivery,
    PendingRequestTracker,
};
use crate::sidecar::{
    backoff_secs, backoff_secs_of, law_backoff_sequence, SidecarState, SidecarSupervisor,
};
use crate::types::{AgentState, AgentStatus};
use serde_json::Value;
use std::sync::mpsc::Receiver;
use vstd::prelude::*;

verus! {

/// How long a caller waits for the reply to a request, in milliseconds.
pub const REQUEST_TIMEOUT_MS: u64 = 31000;
/// Period of the sweep that fails requests past their deadline.
pub const TIMEOUT_CHECK_INTERVAL_MS: u64 = 5000;
/// Period of the watchdog's check for an exited process.
pub const WATCHDOG_POLL_INTERVAL_MS: u64 = 10000;
/// Period of the liveness probe.
pub const HEALTH_CHECK_INTERVAL_MS: u64 = 30000;
/// How long a liveness probe waits for its reply.
pub const PING_TIMEOUT_MS: u64 = 10000;
/// Silence after which the worker counts as unhealthy (three missed probes).
pub const MAX_SILENCE_MS: u64 = 90000;
/// Consecutive crashes after which the watchdog stops restarting.
pub const MAX_RESTARTS: u32 = 3;

/// Error of a request or notification made while the worker is not running.
pub open spec fn not_running_text() -> Seq<char> {
    "Sidecar not running"@
}

/// Error of a spawn while the worker is already running.
pub open spec fn already_running_text() -> Seq<char> {
    "Sidecar already running"@
}

/// Reason given to every waiting caller when the watchdog sees the process exit.
pub open spec fn crashed_text() -> Seq<char> {
    "Sidecar process crashed"@
}

/// Error of a request or notification once every request id is used up.
pub open spec fn ids_exhausted_text() -> Seq<char> {
    "Request ids exhausted"@
}

/// Reason given to every waiting caller when the worker is killed.
pub open spec fn killed_text() -> Seq<char> {
    "Sidecar process killed"@
}

/// Health predicate: never healthy outside `Running`; healthy before any
/// contact; else healthy while the time since the last contact (zero if the
/// clock reads earlier) is under `max_silence`.
pub open spec fn healthy_at(
    state: SidecarState,
    last_contact: Option<u64>,
    now: u64,
    max_silence: u64,
) -> bool {
    state == SidecarState::Running && match last_contact {
        None => true,
        Some(t) => (if now >= t {
            now - t
        } else {
            0
        }) < max_silence,
    }
}

/// User-facing status: running and healthy is `Running`, running and silent
/// is `Unhealthy`, crashed is `Error`, anything else is `Idle`.
pub open spec fn status_of(state: SidecarState, healthy: bool) -> AgentState {
    match state {
        SidecarState::Running => if healthy {
            AgentState::Running
        } else {
            AgentState::Unhealthy
        },
        SidecarState::Crashed { .. } => AgentState::Error,
        _ => AgentState::Idle,
    }
}

/// What the watchdog saw when it looked at the process.
#[derive(Debug, Clone, Copy, PartialEq, Eq, Structural)]
pub enum ProcessObservation {
    /// The process is still running.
    Alive,
    /// The process has exited since the last look.
    Exited,
    /// There is no process (a relaunch failed, or none was started).
    Absent,
}

/// What the watchdog does next.
#[derive(Debug, Clone, Copy, PartialEq, Eq, Structural)]
pub enum WatchdogAction {
    /// Poll again after the poll interval.
    Continue,
    /// Wait `backoff_secs`, then relaunch unless shut down meanwhile.
    RestartAfter { backoff_secs: u64 },
    /// Relaunch now (a previous relaunch failed).
    Relaunch,
    /// The restart budget is spent: stop watching.
    GiveUp,
}

/// Action on a process exit seen in state `s`: the crash is counted, and a
/// restart follows after the back-off of the new count while the count is
/// under the budget.
pub open spec fn exit_action(s: SidecarState, max_restarts: u32) -> WatchdogAction {
    if s.after_crash().restart_allowed(max_restarts) {
        WatchdogAction::RestartAfter { backoff_secs: backoff_secs_of(s.after_crash().crash_count()) }
    } else {
        WatchdogAction::GiveUp
    }
}

/// Action of one watchdog poll.
pub open spec fn tick_action(
    s: SidecarState,
    max_restarts: u32,
    observed: ProcessObservation,
) -> WatchdogAction {
    match observed {
        ProcessObservation::Alive => WatchdogAction::Continue,
        ProcessObservation::Exited => exit_action(s, max_restarts),
        ProcessObservation::Absent => if s.restart_allowed(max_restarts) {
            WatchdogAction::Relaunch
        } else {
            WatchdogAction::Continue
        },
    }
}

/// State after one watchdog poll.
pub open spec fn tick_state(s: SidecarState, observed: ProcessObservation) -> SidecarState {
    match observed {
        ProcessObservation::Exited => s.after_crash(),
        _ => s,
    }
}

/// Health: never healthy outside `Running`; healthy in `Running` before any
/// contact (so right after a spawn); healthy while the time since the last
/// contact is under the window, unhealthy once it reaches it.
pub proof fn law_health(state: SidecarState, contact_at: u64, now: u64, window: u64)
    ensures
        state != SidecarState::Running ==> !healthy_at(state, None, now, window) && !healthy_at(
            state,
            Some(contact_at),
            now,
            window,
        ),
        healthy_at(SidecarState::Running, None, now, window),
        contact_at <= now && now - contact_at < window ==> healthy_at(
            SidecarState::Running,
            Some(contact_at),
            now,
            window,
        ),
        contact_at <= now && now - contact_at >= window ==> !healthy_at(
            SidecarState::Running,
            Some(contact_at),
            now,
            window,
        ),
{
}

/// A process exit seen while `Running` leaves `Crashed(1)` and, with a
/// budget over one restart, asks for a relaunch after `backoff_secs_of(1)`,
/// two seconds.
pub proof fn law_crash_while_running(max_restarts: u32)
    requires
        max_restarts > 1,
    ensures
        tick_state(SidecarState::Running, ProcessObservation::Exited)
            == (SidecarState::Crashed { restart_count: 1 }),
        tick_action(SidecarState::Running, max_restarts, ProcessObservation::Exited)
            == (WatchdogAction::RestartAfter { backoff_secs: 2 }),
        backoff_secs_of(1) == 2,
{
    law_backoff_sequence(1);
}

/// With a budget of three, three exits in a row from `Running` give
/// `Crashed(3)`, the third without a restart; and once the count has reached
/// the budget no poll restarts the process or changes its state but a
/// further exit.
pub proof fn law_restart_budget(max_restarts: u32, count: u32, observed: ProcessObservation)
    requires
        count >= max_restarts,
    ensures
        tick_state(
            tick_state(
                tick_state(SidecarState::Running, ProcessObservation::Exited),
                ProcessObservation::Exited,
            ),
            ProcessObservation::Exited,
        ) == (SidecarState::Crashed { restart_count: 3 }),
        tick_action(
            (SidecarState::Crashed { restart_count: 2 }),
            3,
            ProcessObservation::Exited,
        ) == WatchdogAction::GiveUp,
        tick_action((SidecarState::Crashed { restart_count: count }), max_restarts, observed)
            == WatchdogAction::Continue || tick_action(
            (SidecarState::Crashed { restart_count: count }),
            max_restarts,
            observed,
        ) == WatchdogAction::GiveUp,
        observed != ProcessObservation::Exited ==> tick_state(
            (SidecarState::Crashed { restart_count: count }),
            observed,
        ) == (SidecarState::Crashed { restart_count: count }),
{
}

/// A request ready to be written: registered under `id` before its line goes
/// out, so that a fast reply always finds it.
pub struct OutgoingRequest {
    pub id: u64,
    pub line: String,
    pub receiver: Receiver<Delivery>,
}

/// The bridge's shared state: supervisor, in-flight requests, last contact
/// and request ids. The process, its pipes and the background loops belong to
/// the caller, which asks this value what to do and reports what happened.
pub struct SidecarBridge {
    supervisor: SidecarSupervisor,
    pending: PendingRequestTracker,
    last_pong: Option<u64>,
    ids: RequestIdCounter,
}

impl SidecarBridge {
    pub closed spec fn spec_state(&self) -> SidecarState {
        self.supervisor.spec_state()
    }

    pub closed spec fn spec_max_restarts(&self) -> u32 {
        self.supervisor.spec_max_restarts()
    }

    /// Deadline of each request in flight, by id.
    pub closed spec fn spec_pending(&self) -> Map<u64, u64> {
        self.pending.deadlines()
    }

    /// What waiting callers were handed so far: id and outcome, in order.
    pub closed spec fn spec_deliveries(&self) -> Seq<(u64, Delivery)> {
        self.pending.deliveries()
    }

    /// Time of the last successful probe, if any.
    pub closed spec fn spec_last_contact(&self) -> Option<u64> {
        self.last_pong
    }

    /// Id of the next request.
    pub closed spec fn spec_next_id(&self) -> u64 {
        self.ids.spec_next()
    }

    /// The table is well formed and every id in flight was handed out
    /// before the next one, so the next id is not in flight.
    pub closed spec fn wf(&self) -> bool {
        &&& self.pending.wf()
        &&& forall|id: u64| #[trigger]
            self.pending.deadlines().dom().contains(id) ==> id < self.ids.spec_next()
    }

    pub fn new() -> (r: Self)
        ensures
            r.wf(),
            r.spec_state() == SidecarState::Stopped,
            r.spec_max_restarts() == MAX_RESTARTS,
            r.spec_pending() == Map::<u64, u64>::empty(),
            r.spec_deliveries() == Seq::<(u64, Delivery)>::empty(),
            r.spec_last_contact() is None,
            r.spec_next_id() == 1,
    {
        SidecarBridge {
            supervisor: SidecarSupervisor::new(MAX_RESTARTS),
            pending: PendingRequestTracker::new(),
            last_pong: None,
            ids: RequestIdCounter::new(),
        }
    }

    pub fn is_running(&self) -> (r: bool)
        ensures
            r == (self.spec_state() == SidecarState::Running),
    {
        match self.supervisor.state() {
            SidecarState::Running => true,
            _ => false,
        }
    }

    pub fn state(&self) -> (r: SidecarState)
        ensures
            r == self.spec_state(),
    {
        self.supervisor.state()
    }

    /// Number of requests in flight.
    pub fn pending_len(&self) -> (r: usize)
        requires
            self.wf(),
        ensures
            r == self.spec_pending().dom().len(),
    {
        self.pending.len()
    }

    /// Records a successful probe at `now`.
    pub fn record_pong(&mut self, now: u64)
        ensures
            final(self).spec_last_contact() == Some(now),
            final(self).spec_state() == old(self).spec_state(),
            final(self).spec_max_restarts() == old(self).spec_max_restarts(),
            final(self).spec_pending() == old(self).spec_pending(),
            final(self).spec_next_id() == old(self).spec_next_id(),
            final(self).spec_deliveries() == old(self).spec_deliveries(),
            final(self).wf() == old(self).wf(),
    {
        self.last_pong = Some(now);
    }

    /// Whether the worker counts as healthy at `now` for a silence window of
    /// `max_silence`.
    pub fn is_healthy(&self, max_silence: u64, now: u64) -> (r: bool)
        ensures
            r == healthy_at(self.spec_state(), self.spec_last_contact(), now, max_silence),
    {
        if !self.is_running() {
            return false;
        }
        match self.last_pong {
            Some(last) => {
                let elapsed: u64 = if now >= last {
                    now - last
                } else {
                    0
                };
                elapsed < max_silence
            },
            None => true,
        }
    }

    /// Status for users, derived from the state and the health predicate.
    pub fn agent_status(&self, max_silence: u64, now: u64) -> (r: AgentStatus)
        ensures
            r.state == status_of(
                self.spec_state(),
                healthy_at(self.spec_state(), self.spec_last_contact(), now, max_silence),
            ),
            r.current_session_id is None,
            r.current_cycle_id is None,
            r.total_cycles == 0,
            r.total_anomalies == 0,
            r.uptime == 0,
            r.last_error is None,
    {
        let healthy = self.is_healthy(max_silence, now);
        let state = match self.supervisor.state() {
            SidecarState::Running => if healthy {
                AgentState::Running
            } else {
                AgentState::Unhealthy
            },
            SidecarState::Crashed { .. } => AgentState::Error,
            _ => AgentState::Idle,
        };
        AgentStatus {
            state,
            current_session_id: None,
            current_cycle_id: None,
            total_cycles: 0,
            total_anomalies: 0,
            uptime: 0,
            last_error: None,
        }
    }

    /// First half of a spawn: refused while running, else the state becomes
    /// `Starting` and the caller launches the process.
    pub fn begin_spawn(&mut self) -> (r: Result<(), String>)
        ensures
            old(self).spec_state() == SidecarState::Running <==> r is Err,
            r matches Err(e) ==> e@ == already_running_text() && final(self).spec_state()
                == old(self).spec_state(),
            r is Ok ==> final(self).spec_state() == SidecarState::Starting,
            final(self).spec_max_restarts() == old(self).spec_max_restarts(),
            final(self).spec_pending() == old(self).spec_pending(),
            final(self).spec_last_contact() == old(self).spec_last_contact(),
            final(self).spec_next_id() == old(self).spec_next_id(),
            final(self).spec_deliveries() == old(self).spec_deliveries(),
            final(self).wf() == old(self).wf(),
    {
        if self.is_running() {
            proof {
                reveal_strlit("Sidecar already running");
            }
            return Err(String::from_str("Sidecar already running"));
        }
        self.supervisor.set_state(SidecarState::Starting);
        Ok(())
    }

    /// The process is up: the state becomes `Running`, with no contact yet.
    pub fn finish_spawn(&mut self)
        ensures
            final(self).spec_state() == SidecarState::Running,
            final(self).spec_last_contact() is None,
            final(self).spec_max_restarts() == old(self).spec_max_restarts(),
            final(self).spec_pending() == old(self).spec_pending(),
            final(self).spec_next_id() == old(self).spec_next_id(),
            final(self).spec_deliveries() == old(self).spec_deliveries(),
            final(self).wf() == old(self).wf(),
    {
        self.supervisor.record_started();
        self.last_pong = None;
    }

    /// The launch failed: the state goes back to `Stopped`.
    pub fn abort_spawn(&mut self)
        ensures
            final(self).spec_state() == SidecarState::Stopped,
            final(self).spec_max_restarts() == old(self).spec_max_restarts(),
            final(self).spec_pending() == old(self).spec_pending(),
            final(self).spec_last_contact() == old(self).spec_last_contact(),
            final(self).spec_next_id() == old(self).spec_next_id(),
            final(self).spec_deliveries() == old(self).spec_deliveries(),
            final(self).wf() == old(self).wf(),
    {
        self.supervisor.record_stopped();
    }

    /// Prepares a request. Refused, with nothing changed, while not running
    /// or once ids are used up. Otherwise it always succeeds: it takes the
    /// next id, which is not in flight, encodes the line and registers the id
    /// with deadline `now + timeout` before handing the line out.
    pub fn begin_request(
        &mut self,
        method: &str,
        params: Option<Value>,
        timeout: u64,
        now: u64,
    ) -> (r: Result<OutgoingRequest, String>)
        requires
            old(self).wf(),
        ensures
            final(self).wf(),
            final(self).spec_state() == old(self).spec_state(),
            final(self).spec_max_restarts() == old(self).spec_max_restarts(),
            final(self).spec_last_contact() == old(self).spec_last_contact(),
            final(self).spec_deliveries() == old(self).spec_deliveries(),
            old(self).spec_state() != SidecarState::Running ==> (r matches Err(e) && e@
                == not_running_text()),
            old(self).spec_state() == SidecarState::Running && old(self).spec_next_id() == u64::MAX
                ==> (r matches Err(e) && e@ == ids_exhausted_text()),
            old(self).spec_state() == SidecarState::Running && old(self).spec_next_id() < u64::MAX
                ==> r is Ok,
            r is Err ==> final(self).spec_pending() == old(self).spec_pending()
                && final(self).spec_next_id() == old(self).spec_next_id(),
            r matches Ok(out) ==> {
                &&& out.id == old(self).spec_next_id()
                &&& !old(self).spec_pending().dom().contains(out.id)
                &&& final(self).spec_next_id() == out.id + 1
                &&& final(self).spec_pending() == old(self).spec_pending().insert(
                    out.id,
                    deadline_after(now, timeout),
                )
                &&& encodes_request(out.line@, "2.0"@, out.id, method@, params)
            },
    {
        if !self.is_running() {
            proof {
                reveal_strlit("Sidecar not running");
            }
            return Err(String::from_str("Sidecar not running"));
        }
        if self.ids.peek() == u64::MAX {
            proof {
                reveal_strlit("Request ids exhausted");
            }
            return Err(String::from_str("Request ids exhausted"));
        }
        let id = self.ids.next_id();
        let request = JsonRpcRequest::new(id, method, params);
        let line = match request.to_line() {
            Ok(line) => line,
            Err(e) => return Err(e.to_string()),
        };
        let receiver = self.pending.register(id, timeout, now);
        Ok(OutgoingRequest { id, line, receiver })
    }

    /// Prepares a notification line. Refused, with nothing changed, while
    /// not running or once ids are used up; otherwise it always succeeds.
    /// Nothing is registered, since no reply is awaited.
    pub fn begin_notification(&mut self, method: &str, params: Option<Value>) -> (r: Result<
        String,
        String,
    >)
        requires
            old(self).wf(),
        ensures
            final(self).wf(),
            final(self).spec_state() == old(self).spec_state(),
            final(self).spec_max_restarts() == old(self).spec_max_restarts(),
            final(self).spec_pending() == old(self).spec_pending(),
            final(self).spec_last_contact() == old(self).spec_last_contact(),
            final(self).spec_deliveries() == old(self).spec_deliveries(),
            old(self).spec_state() != SidecarState::Running ==> (r matches Err(e) && e@
                == not_running_text()),
            old(self).spec_state() == SidecarState::Running && old(self).spec_next_id() == u64::MAX
                ==> (r matches Err(e) && e@ == ids_exhausted_text()),
            old(self).spec_state() == SidecarState::Running && old(self).spec_next_id() < u64::MAX
                ==> r is Ok,
            r is Err ==> final(self).spec_next_id() == old(self).spec_next_id(),
            r matches Ok(line) ==> {
                &&& final(self).spec_next_id() == old(self).spec_next_id() + 1
                &&& encodes_request(line@, "2.0"@, old(self).spec_next_id(), method@, params)
            },
    {
        if !self.is_running() {
            proof {
                reveal_strlit("Sidecar not running");
            }
            return Err(String::from_str("Sidecar not running"));
        }
        if self.ids.peek() == u64::MAX {
            proof {
                reveal_strlit("Request ids exhausted");
            }
            return Err(String::from_str("Request ids exhausted"));
        }
        let id = self.ids.next_id();
        let request = JsonRpcRequest::new(id, method, params);
        match request.to_line() {
            Ok(line) => Ok(line),
            Err(e) => Err(e.to_string()),
        }
    }

    /// Hands a reply of the worker to the caller waiting on its id, and to
    /// nobody else; returns whether one was waiting.
    pub fn accept_response(&mut self, response: JsonRpcResponse) -> (r: bool)
        requires
            old(self).wf(),
        ensures
            final(self).wf(),
            r == old(self).spec_pending().dom().contains(response.id),
            final(self).spec_pending() == old(self).spec_pending().remove(response.id),
            final(self).spec_deliveries() == (if r {
                old(self).spec_deliveries().push((response.id, Ok(response)))
            } else {
                old(self).spec_deliveries()
            }),
            final(self).spec_state() == old(self).spec_state(),
            final(self).spec_max_restarts() == old(self).spec_max_restarts(),
            final(self).spec_last_contact() == old(self).spec_last_contact(),
            final(self).spec_next_id() == old(self).spec_next_id(),
    {
        let id = response.id;
        self.pending.resolve(id, response)
    }

    /// One pass of the time-out sweep at `now`: every request past its
    /// deadline is failed once with `timeout_reason(id)`. Returns `false`,
    /// changing nothing, once the worker is not running: the sweep then stops.
    pub fn sweep_timeouts(&mut self, now: u64) -> (r: bool)
        requires
            old(self).wf(),
        ensures
            final(self).wf(),
            r == (old(self).spec_state() == SidecarState::Running),
            !r ==> final(self).spec_pending() == old(self).spec_pending()
                && final(self).spec_deliveries() == old(self).spec_deliveries(),
            r ==> {
                &&& final(self).spec_pending() == unexpired(old(self).spec_pending(), now)
                &&& final(self).spec_deliveries().take(old(self).spec_deliveries().len() as int)
                    == old(self).spec_deliveries()
                &&& fails_each_once(
                    final(self).spec_deliveries().skip(old(self).spec_deliveries().len() as int),
                    due_ids(old(self).spec_pending(), now),
                    |id: u64| timeout_reason(id),
                )
            },
            final(self).spec_state() == old(self).spec_state(),
            final(self).spec_max_restarts() == old(self).spec_max_restarts(),
            final(self).spec_last_contact() == old(self).spec_last_contact(),
            final(self).spec_next_id() == old(self).spec_next_id(),
    {
        if !self.is_running() {
            return false;
        }
        self.pending.check_timeouts(now);
        true
    }

    /// One watchdog poll. On an exit every waiting caller is failed once
    /// with `crashed_text()` and the crash is counted; the action says
    /// whether and when to relaunch.
    pub fn watchdog_tick(&mut self, observed: ProcessObservation) -> (r: WatchdogAction)
        requires
            old(self).wf(),
        ensures
            final(self).wf(),
            r == tick_action(old(self).spec_state(), old(self).spec_max_restarts(), observed),
            final(self).spec_state() == tick_state(old(self).spec_state(), observed),
            observed != ProcessObservation::Exited ==> final(self).spec_pending() == old(
                self,
            ).spec_pending() && final(self).spec_deliveries() == old(self).spec_deliveries(),
            observed == ProcessObservation::Exited ==> {
                &&& final(self).spec_pending() == Map::<u64, u64>::empty()
                &&& final(self).spec_deliveries().take(old(self).spec_deliveries().len() as int)
                    == old(self).spec_deliveries()
                &&& fails_each_once(
                    final(self).spec_deliveries().skip(old(self).spec_deliveries().len() as int),
                    old(self).spec_pending().dom(),
                    |id: u64| crashed_text(),
                )
            },
            final(self).spec_max_restarts() == old(self).spec_max_restarts(),
            final(self).spec_last_contact() == old(self).spec_last_contact(),
            final(self).spec_next_id() == old(self).spec_next_id(),
    {
        match observed {
            ProcessObservation::Alive => WatchdogAction::Continue,
            ProcessObservation::Exited => {
                proof {
                    reveal_strlit("Sidecar process crashed");
                }
                self.pending.fail_all("Sidecar process crashed");
                self.supervisor.record_crash();
                if self.supervisor.should_restart() {
                    WatchdogAction::RestartAfter {
                        backoff_secs: backoff_secs(self.supervisor.restart_count()),
                    }
                } else {
                    WatchdogAction::GiveUp
                }
            },
            ProcessObservation::Absent => if self.supervisor.should_restart() {
                WatchdogAction::Relaunch
            } else {
                WatchdogAction::Continue
            },
        }
    }

    /// Start of a relaunch by the watchdog. Only a crashed worker is
    /// relaunched: then the state becomes `Starting` and the crash count is
    /// returned, to restore should the launch fail. In any other state (a
    /// kill came first, say) nothing changes and the result is `None`.
    pub fn begin_relaunch(&mut self) -> (r: Option<u32>)
        ensures
            r == (match old(self).spec_state() {
                SidecarState::Crashed { restart_count } => Some(restart_count),
                _ => None,
            }),
            r is Some ==> final(self).spec_state() == SidecarState::Starting,
            r is None ==> final(self).spec_state() == old(self).spec_state(),
            final(self).spec_max_restarts() == old(self).spec_max_restarts(),
            final(self).spec_pending() == old(self).spec_pending(),
            final(self).spec_last_contact() == old(self).spec_last_contact(),
            final(self).spec_next_id() == old(self).spec_next_id(),
            final(self).spec_deliveries() == old(self).spec_deliveries(),
            final(self).wf() == old(self).wf(),
    {
        match self.supervisor.state() {
            SidecarState::Crashed { restart_count } => {
                self.supervisor.set_state(SidecarState::Starting);
                Some(restart_count)
            },
            _ => None,
        }
    }

    /// End of a relaunch: `Running` with no contact yet if it worked, else
    /// back to `Crashed(restart_count)` so that the next poll tries again.
    pub fn finish_relaunch(&mut self, launched: bool, restart_count: u32)
        ensures
            final(self).spec_state() == (if launched {
                SidecarState::Running
            } else {
                SidecarState::Crashed { restart_count }
            }),
            final(self).spec_last_contact() == (if launched {
                None
            } else {
                old(self).spec_last_contact()
            }),
            final(self).spec_max_restarts() == old(self).spec_max_restarts(),
            final(self).spec_pending() == old(self).spec_pending(),
            final(self).spec_next_id() == old(self).spec_next_id(),
            final(self).spec_deliveries() == old(self).spec_deliveries(),
            final(self).wf() == old(self).wf(),
    {
        if launched {
            self.finish_spawn();
        } else {
            self.supervisor.set_state(SidecarState::Crashed { restart_count });
        }
    }

    /// Stops everything: every waiting caller is failed once with
    /// `killed_text()` and the state becomes `Stopped`, whatever it was.
    pub fn kill(&mut self)
        requires
            old(self).wf(),
        ensures
            final(self).wf(),
            final(self).spec_state() == SidecarState::Stopped,
            final(self).spec_pending() == Map::<u64, u64>::empty(),
            final(self).spec_deliveries().take(old(self).spec_deliveries().len() as int)
                == old(self).spec_deliveries(),
            fails_each_once(
                final(self).spec_deliveries().skip(old(self).spec_deliveries().len() as int),
                old(self).spec_pending().dom(),
                |id: u64| killed_text(),
            ),
            final(self).spec_max_restarts() == old(self).spec_max_restarts(),
            final(self).spec_last_contact() == old(self).spec_last_contact(),
            final(self).spec_next_id() == old(self).spec_next_id(),
    {
        proof {
            reveal_strlit("Sidecar process killed");
        }
        self.pending.fail_all("Sidecar process killed");
        self.supervisor.record_stopped();
    }
}

} // verus!
