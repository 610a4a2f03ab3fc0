//! Laws of the collection loop, event by event.

use crate::cluster::history::{after, last_actions, possible};
use crate::cluster::manager::ClusterManager;
use crate::cluster::run::{
    action_views, ActionView, LoopAction, LoopEvent, LoopPhase, LoopState,
};
use crate::config::{ClusterConfig, ExporterConfig};
use vstd::prelude::*;

verus! {

/// The actions of a call are those of its views, one by one.
proof fn lemma_views(todo: Vec<LoopAction>)
    ensures
        action_views(todo@).len() == todo@.len(),
        forall|i: int| 0 <= i < todo@.len() ==> action_views(todo@)[i] == (#[trigger] todo@[i])@,
{
}

/// A loop starts with no failures, a backoff of one second and nothing counted, waiting, and
/// knows whether it leads.
pub proof fn law_a_loop_starts_afresh(m: &ClusterManager, is_leader: bool, state: LoopState)
    requires
        call_ensures(ClusterManager::start, (m, is_leader), state),
    ensures
        state.phase is Waiting,
        state.consecutive_errors == 0,
        state.current_backoff@ == 1_000_000_000,
        state.was_leader == is_leader,
        state.cycle_count == 0,
{
}

/// At a poll tick a leader collects, once, for as long as a collection may take. Nothing
/// is forgotten by it, also where leadership was just gained.
pub proof fn law_a_leader_collects_at_a_tick(
    m: &ClusterManager,
    state: &mut LoopState,
    todo: Vec<LoopAction>,
)
    requires
        call_ensures(
            ClusterManager::run,
            (m, state, LoopEvent::PollTick { is_leader: true }),
            todo,
        ),
    ensures
        todo@.len() == 1,
        todo@[0] matches LoopAction::Collect { timeout } && timeout@ == m.collection_timeout@,
        final(state).phase is Collecting,
        final(state).was_leader,
        final(state).consecutive_errors == old(state).consecutive_errors,
        final(state).current_backoff@ == old(state).current_backoff@,
        final(state).cycle_count == old(state).cycle_count,
{
    lemma_views(todo);
    let _ = todo@[0];
}

/// At a poll tick without leadership nothing is done but to remove the metrics where
/// leadership was just lost; the loop goes on, waiting, and remembers everything else.
pub proof fn law_standby_only_removes_metrics(
    m: &ClusterManager,
    state: &mut LoopState,
    todo: Vec<LoopAction>,
)
    requires
        call_ensures(
            ClusterManager::run,
            (m, state, LoopEvent::PollTick { is_leader: false }),
            todo,
        ),
    ensures
        old(state).was_leader ==> todo@.len() == 1 && todo@[0] is RemoveCluster,
        !old(state).was_leader ==> todo@.len() == 0,
        final(state).phase is Waiting,
        !final(state).was_leader,
        final(state).consecutive_errors == old(state).consecutive_errors,
        final(state).current_backoff@ == old(state).current_backoff@,
        final(state).cycle_count == old(state).cycle_count,
{
    lemma_views(todo);
    let _ = todo@[0];
}

/// A success is reported as healthy first, and clears failures and backoff. With an
/// interval for recycling it counts one cycle; where that completes the interval, the
/// clients are recycled, then the timestamp pool where time lag is sampled, and the count
/// starts again.
pub proof fn law_a_success_clears_failures(
    m: &ClusterManager,
    state: &mut LoopState,
    todo: Vec<LoopAction>,
)
    requires
        call_ensures(ClusterManager::run, (m, state, LoopEvent::Collected), todo),
    ensures
        todo@.len() >= 1,
        todo@[0] matches LoopAction::SetHealthy { healthy } && healthy,
        final(state).phase is Waiting,
        final(state).consecutive_errors == 0,
        final(state).current_backoff@ == 1_000_000_000,
        final(state).was_leader == old(state).was_leader,
        m.client_recycle_interval == 0 ==> todo@.len() == 1 && final(state).cycle_count == 0,
        m.client_recycle_interval > 0 && old(state).cycle_count + 1 < m.client_recycle_interval
            ==> todo@.len() == 1 && final(state).cycle_count == old(state).cycle_count + 1,
        m.client_recycle_interval > 0 && old(state).cycle_count + 1 >= m.client_recycle_interval
            ==> {
            &&& final(state).cycle_count == 0
            &&& todo@[1] is RecycleClients
            &&& m.timestamp_sampler is None ==> todo@.len() == 2
            &&& m.timestamp_sampler is Some ==> todo@.len() == 3 && todo@[2] is RecycleTimestampPool
        },
{
    lemma_views(todo);
    let _ = todo@[0];
    let _ = todo@[1];
    let _ = todo@[2];
}

/// A failure counts as one more. From the third in a row on the loop reports that it is
/// unhealthy and then pauses for the backoff, which is doubled up to its limit; before that
/// it does nothing about it.
pub proof fn law_a_failure_backs_off(
    m: &ClusterManager,
    state: &mut LoopState,
    todo: Vec<LoopAction>,
)
    requires
        call_ensures(ClusterManager::run, (m, state, LoopEvent::CollectionFailed), todo),
    ensures
        final(state).phase is Waiting,
        final(state).consecutive_errors == old(state).consecutive_errors + 1,
        final(state).was_leader == old(state).was_leader,
        final(state).cycle_count == old(state).cycle_count,
        old(state).consecutive_errors < 2 ==> {
            &&& todo@.len() == 0
            &&& final(state).current_backoff@ == old(state).current_backoff@
        },
        old(state).consecutive_errors >= 2 ==> {
            let was = old(state).current_backoff@;
            &&& todo@.len() == 2
            &&& todo@[0] matches LoopAction::SetHealthy { healthy }
            &&& !healthy
            &&& todo@[1] matches LoopAction::Sleep { pause }
            &&& was <= m.max_backoff@ ==> pause@ == was
            &&& was > m.max_backoff@ ==> pause@ == m.max_backoff@
            &&& was + was <= m.max_backoff@ ==> final(state).current_backoff@ == was + was
            &&& was + was > m.max_backoff@ ==> final(state).current_backoff@ == m.max_backoff@
        },
{
    lemma_views(todo);
    let _ = todo@[0];
    let _ = todo@[1];
}

/// A timeout counts as one more failure, and from the third in a row on the loop reports
/// that it is unhealthy. It never pauses and leaves the backoff as it is.
pub proof fn law_a_timeout_does_not_pause(
    m: &ClusterManager,
    state: &mut LoopState,
    todo: Vec<LoopAction>,
)
    requires
        call_ensures(ClusterManager::run, (m, state, LoopEvent::CollectionTimedOut), todo),
    ensures
        final(state).phase is Waiting,
        final(state).consecutive_errors == old(state).consecutive_errors + 1,
        final(state).current_backoff@ == old(state).current_backoff@,
        final(state).was_leader == old(state).was_leader,
        final(state).cycle_count == old(state).cycle_count,
        old(state).consecutive_errors < 2 ==> todo@.len() == 0,
        old(state).consecutive_errors >= 2 ==> {
            &&& todo@.len() == 1
            &&& todo@[0] matches LoopAction::SetHealthy { healthy }
            &&& !healthy
        },
{
    lemma_views(todo);
    let _ = todo@[0];
}

/// At a cleanup tick a leader that samples time lag drops what is stale; no one else does
/// anything, and nothing is remembered of it.
pub proof fn law_a_cleanup_changes_nothing(
    m: &ClusterManager,
    state: &mut LoopState,
    is_leader: bool,
    todo: Vec<LoopAction>,
)
    requires
        call_ensures(ClusterManager::run, (m, state, LoopEvent::CleanupTick { is_leader }), todo),
    ensures
        is_leader && m.timestamp_sampler is Some ==> todo@.len() == 1 && todo@[0]
            is ClearStaleEntries,
        !is_leader || m.timestamp_sampler is None ==> todo@.len() == 0,
        final(state).phase == old(state).phase,
        final(state).consecutive_errors == old(state).consecutive_errors,
        final(state).current_backoff@ == old(state).current_backoff@,
        final(state).was_leader == old(state).was_leader,
        final(state).cycle_count == old(state).cycle_count,
{
    lemma_views(todo);
    let _ = todo@[0];
}

/// A shutdown removes the metrics and then leaves the loop.
pub proof fn law_a_shutdown_stops(
    m: &ClusterManager,
    state: &mut LoopState,
    todo: Vec<LoopAction>,
)
    requires
        call_ensures(ClusterManager::run, (m, state, LoopEvent::Shutdown), todo),
    ensures
        todo@.len() == 2,
        todo@[0] is RemoveCluster,
        todo@[1] is Stop,
        final(state).phase is Stopped,
{
    lemma_views(todo);
    let _ = todo@[0];
    let _ = todo@[1];
}

/// The loop is left at a shutdown, and at nothing else: neither lost leadership nor any
/// number of failures ends it.
pub proof fn law_only_a_shutdown_stops(
    m: &ClusterManager,
    state: &mut LoopState,
    event: LoopEvent,
    todo: Vec<LoopAction>,
)
    requires
        call_ensures(ClusterManager::run, (m, state, event), todo),
    ensures
        (exists|i: int| 0 <= i < todo@.len() && (#[trigger] todo@[i]) is Stop) == (event
            is Shutdown),
        event is Shutdown ==> final(state).phase is Stopped,
        !(event is Shutdown) && !(old(state).phase is Stopped) ==> !(final(state).phase is Stopped),
{
    lemma_views(todo);
    let _ = todo@[0];
    let _ = todo@[1];
    let _ = todo@[2];
}

/// Over every history: the loop was asked to stop at the last event exactly where that is
/// a shutdown, and it takes the next poll tick, whoever leads, as long as it waits.
pub proof fn law_the_loop_goes_on_until_shutdown(
    m: ClusterManager,
    is_leader: bool,
    events: Seq<LoopEvent>,
    leads_now: bool,
)
    requires
        events.len() > 0,
        possible(m, is_leader, events),
    ensures
        last_actions(m, is_leader, events).contains(ActionView::Stop) == (events.last()
            is Shutdown),
        !(events.last() is Shutdown) && !(after(m, is_leader, events).phase is Collecting)
            ==> possible(
            m,
            is_leader,
            events.push((LoopEvent::PollTick { is_leader: leads_now })),
        ),
        events.last() == (LoopEvent::PollTick { is_leader: false }) && after(
            m,
            is_leader,
            events.drop_last(),
        ).was_leader ==> last_actions(m, is_leader, events) == seq![ActionView::RemoveCluster],
        events.last() == (LoopEvent::PollTick { is_leader: false }) && !after(
            m,
            is_leader,
            events.drop_last(),
        ).was_leader ==> last_actions(m, is_leader, events).len() == 0,
{
    let earlier = events.drop_last();
    let asked = last_actions(m, is_leader, events);
    if events.last() == LoopEvent::Shutdown {
        assert(asked[1] == ActionView::Stop);
    }
    if asked.contains(ActionView::Stop) {
        let i = asked.index_of(ActionView::Stop);
        assert(asked[i] == ActionView::Stop);
    }
    lemma_not_stopped(m, is_leader, events);
    let tick = LoopEvent::PollTick { is_leader: leads_now };
    assert(events.push(tick).drop_last() == events);
}

proof fn lemma_not_stopped(m: ClusterManager, is_leader: bool, events: Seq<LoopEvent>)
    requires
        possible(m, is_leader, events),
    ensures
        after(m, is_leader, events).phase == LoopPhase::Stopped <==> events.len() > 0
            && events.last() == LoopEvent::Shutdown,
    decreases events.len(),
{
    if events.len() > 0 {
        lemma_not_stopped(m, is_leader, events.drop_last());
    }
}

/// Whether an event belongs to what the loop is at: ticks and shutdown while it waits,
/// results while it collects, as long as failures can be counted.
pub open spec fn belongs(state: LoopState, event: LoopEvent) -> bool {
    match event {
        LoopEvent::PollTick { .. } => state.phase is Waiting,
        LoopEvent::CleanupTick { .. } => state.phase is Waiting,
        LoopEvent::Shutdown => state.phase is Waiting,
        LoopEvent::Collected => state.phase is Collecting,
        LoopEvent::CollectionFailed => state.phase is Collecting && state.consecutive_errors
            < u32::MAX,
        LoopEvent::CollectionTimedOut => state.phase is Collecting && state.consecutive_errors
            < u32::MAX,
    }
}

/// A manager's loop, once started, takes every event that belongs to what it is at, and so
/// after every event that it took.
pub proof fn law_every_event_is_taken(
    config: &ClusterConfig,
    exporter: &ExporterConfig,
    m: &ClusterManager,
    is_leader: bool,
    started: LoopState,
    first: &mut LoopState,
    any: &mut LoopState,
    happened: LoopEvent,
    todo: Vec<LoopAction>,
    later: &mut LoopState,
    event: LoopEvent,
)
    requires
        call_ensures(ClusterManager::new, (config, exporter), *m),
        exporter.poll_interval@ > 0,
        exporter.timestamp_sampling.cache_ttl@ > 0,
        call_ensures(ClusterManager::start, (m, is_leader), started),
        *old(first) == started,
        call_ensures(ClusterManager::run, (m, any, happened), todo),
        *old(later) == *final(any),
    ensures
        belongs(*old(first), event) ==> call_requires(ClusterManager::run, (m, first, event)),
        belongs(*old(later), event) ==> call_requires(ClusterManager::run, (m, later, event)),
{
}

} // verus!
