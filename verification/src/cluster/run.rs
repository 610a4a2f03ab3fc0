//! The collection loop of one cluster: what to do when something happens.

use crate::cluster::manager::ClusterManager;
use crate::duration::{seconds, shorter, Duration};
use vstd::prelude::*;

verus! {

/// How many collections must fail in a row before the cluster counts as unhealthy.
pub const UNHEALTHY_AFTER: u32 = 3;

/// What the loop is at.
#[derive(Clone, Copy, Debug, PartialEq, Eq, Structural)]
pub enum LoopPhase {
    /// Waiting for the next event.
    Waiting,
    /// Waiting for a collection to end.
    Collecting,
    /// At its end.
    Stopped,
}

/// What can happen to the loop.
#[derive(Clone, Copy, Debug, PartialEq, Eq, Structural)]
pub enum LoopEvent {
    /// A collection is due; whether this instance leads at that moment.
    PollTick { is_leader: bool },
    /// The collection succeeded.
    Collected,
    /// The collection ended in an error.
    CollectionFailed,
    /// The collection did not end in time.
    CollectionTimedOut,
    /// A cleanup of the timestamp cache is due.
    CleanupTick { is_leader: bool },
    /// The exporter shuts down.
    Shutdown,
}

/// What the loop asks for.
#[derive(Clone, Copy, Debug, PartialEq, Eq)]
pub enum LoopAction {
    /// Remove the cluster's metrics from the registry.
    RemoveCluster,
    /// Collect, for at most this long.
    Collect { timeout: Duration },
    /// Report the exporter as healthy or not.
    SetHealthy { healthy: bool },
    /// Replace the Kafka clients by fresh ones.
    RecycleClients,
    /// Replace the consumers that read timestamps by fresh ones.
    RecycleTimestampPool,
    /// Wait before anything else is done.
    Sleep { pause: Duration },
    /// Drop what is too old from the timestamp cache.
    ClearStaleEntries,
    /// Leave the loop.
    Stop,
}

/// A `LoopAction` with its spans in nanoseconds.
pub enum ActionView {
    RemoveCluster,
    Collect { timeout: nat },
    SetHealthy { healthy: bool },
    RecycleClients,
    RecycleTimestampPool,
    Sleep { pause: nat },
    ClearStaleEntries,
    Stop,
}

impl View for LoopAction {
    type V = ActionView;

    open spec fn view(&self) -> ActionView {
        match *self {
            LoopAction::RemoveCluster => ActionView::RemoveCluster,
            LoopAction::Collect { timeout } => ActionView::Collect { timeout: timeout@ },
            LoopAction::SetHealthy { healthy } => ActionView::SetHealthy { healthy },
            LoopAction::RecycleClients => ActionView::RecycleClients,
            LoopAction::RecycleTimestampPool => ActionView::RecycleTimestampPool,
            LoopAction::Sleep { pause } => ActionView::Sleep { pause: pause@ },
            LoopAction::ClearStaleEntries => ActionView::ClearStaleEntries,
            LoopAction::Stop => ActionView::Stop,
        }
    }
}

/// The views of a sequence of actions.
pub open spec fn action_views(actions: Seq<LoopAction>) -> Seq<ActionView> {
    actions.map_values(|a: LoopAction| a@)
}

/// What the loop remembers.
#[derive(Clone, Copy, Debug)]
pub struct LoopState {
    pub phase: LoopPhase,
    /// Collections that failed since the last one that succeeded.
    pub consecutive_errors: u32,
    /// The next pause after a failed collection.
    pub current_backoff: Duration,
    /// Whether this instance led when it last looked.
    pub was_leader: bool,
    /// Successful collections since the clients were last recycled.
    pub cycle_count: u64,
}

/// A `LoopState` as mathematical values.
pub struct StateView {
    pub phase: LoopPhase,
    pub consecutive_errors: nat,
    pub current_backoff: nat,
    pub was_leader: bool,
    pub cycle_count: nat,
}

impl View for LoopState {
    type V = StateView;

    open spec fn view(&self) -> StateView {
        StateView {
            phase: self.phase,
            consecutive_errors: self.consecutive_errors as nat,
            current_backoff: self.current_backoff@,
            was_leader: self.was_leader,
            cycle_count: self.cycle_count as nat,
        }
    }
}

/// The state that the loop starts in.
pub open spec fn initial(is_leader: bool) -> StateView {
    StateView {
        phase: LoopPhase::Waiting,
        consecutive_errors: 0,
        current_backoff: seconds(1),
        was_leader: is_leader,
        cycle_count: 0,
    }
}

/// Whether an event can happen in a state: results while a collection runs, everything
/// else while none does. Failures are counted up to `u32::MAX`.
pub open spec fn accepts(s: StateView, event: LoopEvent) -> bool {
    match event {
        LoopEvent::PollTick { .. } | LoopEvent::CleanupTick { .. } | LoopEvent::Shutdown => s.phase
            == LoopPhase::Waiting,
        LoopEvent::Collected => s.phase == LoopPhase::Collecting,
        LoopEvent::CollectionFailed | LoopEvent::CollectionTimedOut => s.phase
            == LoopPhase::Collecting && s.consecutive_errors < u32::MAX,
    }
}

/// Whether this success completes the cycles after which clients are recycled.
pub open spec fn recycles(m: ClusterManager, s: StateView) -> bool {
    m.client_recycle_interval > 0 && s.cycle_count + 1 >= m.client_recycle_interval
}

/// Whether one more failure makes the cluster unhealthy, or leaves it so.
pub open spec fn unhealthy(s: StateView) -> bool {
    s.consecutive_errors + 1 >= UNHEALTHY_AFTER
}

/// The state after an event.
pub open spec fn next(m: ClusterManager, s: StateView, event: LoopEvent) -> StateView {
    match event {
        LoopEvent::PollTick { is_leader } => StateView {
            phase: if is_leader {
                LoopPhase::Collecting
            } else {
                LoopPhase::Waiting
            },
            was_leader: is_leader,
            ..s
        },
        LoopEvent::Collected => StateView {
            phase: LoopPhase::Waiting,
            consecutive_errors: 0,
            current_backoff: seconds(1),
            cycle_count: if m.client_recycle_interval == 0 || recycles(m, s) {
                0
            } else {
                s.cycle_count + 1
            },
            ..s
        },
        LoopEvent::CollectionFailed => StateView {
            phase: LoopPhase::Waiting,
            consecutive_errors: s.consecutive_errors + 1,
            current_backoff: if unhealthy(s) {
                shorter(2 * s.current_backoff, m.max_backoff@)
            } else {
                s.current_backoff
            },
            ..s
        },
        LoopEvent::CollectionTimedOut => StateView {
            phase: LoopPhase::Waiting,
            consecutive_errors: s.consecutive_errors + 1,
            ..s
        },
        LoopEvent::CleanupTick { .. } => s,
        LoopEvent::Shutdown => StateView { phase: LoopPhase::Stopped, ..s },
    }
}

/// What is asked for at an event, in this order.
pub open spec fn actions(m: ClusterManager, s: StateView, event: LoopEvent) -> Seq<ActionView> {
    match event {
        LoopEvent::PollTick { is_leader } => if is_leader {
            seq![ActionView::Collect { timeout: m.collection_timeout@ }]
        } else if s.was_leader {
            seq![ActionView::RemoveCluster]
        } else {
            seq![]
        },
        LoopEvent::Collected => if !recycles(m, s) {
            seq![ActionView::SetHealthy { healthy: true }]
        } else if m.timestamp_sampler is Some {
            seq![
                ActionView::SetHealthy { healthy: true },
                ActionView::RecycleClients,
                ActionView::RecycleTimestampPool,
            ]
        } else {
            seq![ActionView::SetHealthy { healthy: true }, ActionView::RecycleClients]
        },
        LoopEvent::CollectionFailed => if unhealthy(s) {
            seq![
                ActionView::SetHealthy { healthy: false },
                ActionView::Sleep { pause: shorter(s.current_backoff, m.max_backoff@) },
            ]
        } else {
            seq![]
        },
        LoopEvent::CollectionTimedOut => if unhealthy(s) {
            seq![ActionView::SetHealthy { healthy: false }]
        } else {
            seq![]
        },
        LoopEvent::CleanupTick { is_leader } => if is_leader && m.timestamp_sampler is Some {
            seq![ActionView::ClearStaleEntries]
        } else {
            seq![]
        },
        LoopEvent::Shutdown => seq![ActionView::RemoveCluster, ActionView::Stop],
    }
}

/// What every state of the loop has in common.
pub open spec fn loop_inv(m: ClusterManager, s: StateView) -> bool {
    &&& seconds(1) <= s.current_backoff <= m.max_backoff@
    &&& s.cycle_count == 0 || s.cycle_count < m.client_recycle_interval
    &&& s.phase == LoopPhase::Collecting ==> s.was_leader
    &&& s.consecutive_errors < UNHEALTHY_AFTER ==> s.current_backoff == seconds(1)
}

impl ClusterManager {
    /// The state to start the loop in.
    pub fn start(&self, is_leader: bool) -> (state: LoopState)
        requires
            self.can_run(),
        ensures
            state@ == initial(is_leader),
            loop_inv(*self, state@),
    {
        LoopState {
            phase: LoopPhase::Waiting,
            consecutive_errors: 0,
            current_backoff: Duration::from_secs(1),
            was_leader: is_leader,
            cycle_count: 0,
        }
    }

    /// Takes an event in, and says what to do about it.
    pub fn run(&self, state: &mut LoopState, event: LoopEvent) -> (todo: Vec<LoopAction>)
        requires
            self.can_run(),
            loop_inv(*self, old(state)@),
            accepts(old(state)@, event),
        ensures
            loop_inv(*self, final(state)@),
            final(state)@ == next(*self, old(state)@, event),
            action_views(todo@) == actions(*self, old(state)@, event),
    {
        let ghost s = state@;
        let mut todo: Vec<LoopAction> = Vec::new();
        match event {
            LoopEvent::PollTick { is_leader } => {
                if is_leader != state.was_leader {
                    if !is_leader {
                        // Stale metrics must not outlive the leadership.
                        todo.push(LoopAction::RemoveCluster);
                    }
                    state.was_leader = is_leader;
                }
                if is_leader {
                    todo.push(LoopAction::Collect { timeout: self.collection_timeout });
                    state.phase = LoopPhase::Collecting;
                }
            },
            LoopEvent::Collected => {
                state.phase = LoopPhase::Waiting;
                state.consecutive_errors = 0;
                state.current_backoff = Duration::from_secs(1);
                todo.push(LoopAction::SetHealthy { healthy: true });
                if self.client_recycle_interval > 0 {
                    state.cycle_count = state.cycle_count + 1;
                    if state.cycle_count >= self.client_recycle_interval {
                        state.cycle_count = 0;
                        todo.push(LoopAction::RecycleClients);
                        if self.timestamp_sampler.is_some() {
                            todo.push(LoopAction::RecycleTimestampPool);
                        }
                    }
                }
            },
            LoopEvent::CollectionFailed => {
                state.phase = LoopPhase::Waiting;
                state.consecutive_errors = state.consecutive_errors + 1;
                if state.consecutive_errors >= UNHEALTHY_AFTER {
                    todo.push(LoopAction::SetHealthy { healthy: false });
                    let backoff = state.current_backoff.min(self.max_backoff);
                    todo.push(LoopAction::Sleep { pause: backoff });
                    state.current_backoff = state.current_backoff.doubled().min(self.max_backoff);
                }
            },
            LoopEvent::CollectionTimedOut => {
                state.phase = LoopPhase::Waiting;
                state.consecutive_errors = state.consecutive_errors + 1;
                if state.consecutive_errors >= UNHEALTHY_AFTER {
                    todo.push(LoopAction::SetHealthy { healthy: false });
                }
            },
            LoopEvent::CleanupTick { is_leader } => {
                // Only who leads has anything to clean up.
                if is_leader && self.timestamp_sampler.is_some() {
                    todo.push(LoopAction::ClearStaleEntries);
                }
            },
            LoopEvent::Shutdown => {
                state.phase = LoopPhase::Stopped;
                todo.push(LoopAction::RemoveCluster);
                todo.push(LoopAction::Stop);
            },
        }
        assert(action_views(todo@) =~= actions(*self, s, event));
        todo
    }
}

} // verus!
