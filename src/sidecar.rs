use std::sync::Arc;
use std::time::Duration;
use vstd::arithmetic::power2::{lemma2_to64, lemma_pow2_strictly_increases, pow2};
use vstd::prelude::*;

verus! {

/// Ceiling of the delay between two restart attempts, in seconds.
pub const MAX_BACKOFF_SECS: u64 = 30;

/// A `Duration` of the given number of whole seconds.
pub uninterp spec fn duration_of_secs(secs: u64) -> Duration;

/// Relies on `Duration::from_secs`: the duration of `secs` whole seconds,
/// which depends on `secs` alone.
pub assume_specification[ Duration::from_secs ](secs: u64) -> (r: Duration)
    ensures
        r == duration_of_secs(secs),
;

/// Lifecycle of the supervised worker process.
#[derive(Debug, Clone, Copy, PartialEq, Eq, Structural)]
pub enum SidecarState {
    Stopped,
    Starting,
    Running,
    Crashed { restart_count: u32 },
}

impl SidecarState {
    /// Number of consecutive crashes recorded; zero outside `Crashed`.
    pub open spec fn crash_count(self) -> u32 {
        match self {
            SidecarState::Crashed { restart_count } => restart_count,
            _ => 0,
        }
    }

    /// State after one more crash: the count of a `Crashed` state grows by
    /// one (saturating at `u32::MAX`), any other state becomes `Crashed(1)`.
    pub open spec fn after_crash(self) -> SidecarState {
        match self {
            SidecarState::Crashed { restart_count } => SidecarState::Crashed {
                restart_count: if restart_count == u32::MAX {
                    u32::MAX
                } else {
                    (restart_count + 1) as u32
                },
            },
            _ => SidecarState::Crashed { restart_count: 1 },
        }
    }

    /// A restart is owed only to a crashed process whose count is still
    /// under the budget.
    pub open spec fn restart_allowed(self, max_restarts: u32) -> bool {
        match self {
            SidecarState::Crashed { restart_count } => restart_count < max_restarts,
            _ => false,
        }
    }
}

/// Delay before the restart that follows `count` consecutive crashes:
/// one second for a count of zero, else `2^count` seconds capped at the
/// ceiling.
pub open spec fn backoff_secs_of(count: u32) -> u64 {
    if count == 0 {
        1
    } else if pow2(count as nat) < MAX_BACKOFF_SECS {
        pow2(count as nat) as u64
    } else {
        MAX_BACKOFF_SECS
    }
}

/// Computes `backoff_secs_of(count)`.
pub fn backoff_secs(count: u32) -> (r: u64)
    ensures
        r == backoff_secs_of(count),
{
    proof {
        lemma2_to64();
        if count > 5 {
            lemma_pow2_strictly_increases(5, count as nat);
        }
    }
    match count {
        0 => 1,
        1 => 2,
        2 => 4,
        3 => 8,
        4 => 16,
        _ => MAX_BACKOFF_SECS,
    }
}

/// The back-off for consecutive crash counts 0 to 6 is 1, 2, 4, 8, 16, 30
/// and 30 seconds, and it stays at the 30-second ceiling from 5 crashes on.
pub proof fn law_backoff_sequence(count: u32)
    ensures
        backoff_secs_of(0) == 1,
        backoff_secs_of(1) == 2,
        backoff_secs_of(2) == 4,
        backoff_secs_of(3) == 8,
        backoff_secs_of(4) == 16,
        backoff_secs_of(5) == 30,
        backoff_secs_of(6) == 30,
        count >= 5 ==> backoff_secs_of(count) == MAX_BACKOFF_SECS,
{
    lemma2_to64();
    if count > 5 {
        lemma_pow2_strictly_increases(5, count as nat);
    }
}

/// Owner of the lifecycle state and of the restart budget.
///
/// The supervisor is a plain value: a caller that shares it between threads
/// puts it behind a lock of its own and hands read-only snapshots around.
pub struct SidecarSupervisor {
    state: SidecarState,
    max_restarts: u32,
}

impl SidecarSupervisor {
    /// The current lifecycle state.
    pub closed spec fn spec_state(&self) -> SidecarState {
        self.state
    }

    /// The number of consecutive crashes after which no restart is tried.
    pub closed spec fn spec_max_restarts(&self) -> u32 {
        self.max_restarts
    }

    pub fn new(max_restarts: u32) -> (r: Self)
        ensures
            r.spec_state() == SidecarState::Stopped,
            r.spec_max_restarts() == max_restarts,
    {
        SidecarSupervisor { state: SidecarState::Stopped, max_restarts }
    }

    /// A supervisor that starts from a snapshot of another one's state.
    pub fn from_arc(state: Arc<SidecarState>, max_restarts: u32) -> (r: Self)
        ensures
            r.spec_state() == *state,
            r.spec_max_restarts() == max_restarts,
    {
        SidecarSupervisor { state: *state, max_restarts }
    }

    /// A snapshot of the current state that other threads may read.
    pub fn state_arc(&self) -> (r: Arc<SidecarState>)
        ensures
            *r == self.spec_state(),
    {
        Arc::new(self.state)
    }

    pub fn max_restarts(&self) -> (r: u32)
        ensures
            r == self.spec_max_restarts(),
    {
        self.max_restarts
    }

    pub fn state(&self) -> (r: SidecarState)
        ensures
            r == self.spec_state(),
    {
        self.state
    }

    pub fn set_state(&mut self, new_state: SidecarState)
        ensures
            final(self).spec_state() == new_state,
            final(self).spec_max_restarts() == old(self).spec_max_restarts(),
    {
        self.state = new_state;
    }

    pub fn should_restart(&self) -> (r: bool)
        ensures
            r == self.spec_state().restart_allowed(self.spec_max_restarts()),
    {
        match self.state {
            SidecarState::Crashed { restart_count } => restart_count < self.max_restarts,
            _ => false,
        }
    }

    pub fn record_crash(&mut self)
        ensures
            final(self).spec_state() == old(self).spec_state().after_crash(),
            final(self).spec_max_restarts() == old(self).spec_max_restarts(),
    {
        let count: u32 = match self.state {
            SidecarState::Crashed { restart_count } => restart_count.saturating_add(1),
            _ => 1,
        };
        self.state = SidecarState::Crashed { restart_count: count };
    }

    pub fn record_started(&mut self)
        ensures
            final(self).spec_state() == SidecarState::Running,
            final(self).spec_max_restarts() == old(self).spec_max_restarts(),
    {
        self.state = SidecarState::Running;
    }

    pub fn record_stopped(&mut self)
        ensures
            final(self).spec_state() == SidecarState::Stopped,
            final(self).spec_max_restarts() == old(self).spec_max_restarts(),
    {
        self.state = SidecarState::Stopped;
    }

    /// The current count of consecutive crashes (0 when not crashed).
    pub fn restart_count(&self) -> (r: u32)
        ensures
            r == self.spec_state().crash_count(),
    {
        match self.state {
            SidecarState::Crashed { restart_count } => restart_count,
            _ => 0,
        }
    }

    /// Delay to wait before the next restart attempt.
    pub fn backoff_duration(&self) -> (r: Duration)
        ensures
            r == duration_of_secs(backoff_secs_of(self.spec_state().crash_count())),
    {
        Duration::from_secs(backoff_secs(self.restart_count()))
    }
}

} // verus!
