//! What holds of a collection loop over everything that has happened to it.

use crate::cluster::manager::ClusterManager;
use crate::cluster::run::{
    accepts, actions, initial, loop_inv, next, recycles, ActionView, LoopEvent, LoopPhase,
    StateView, UNHEALTHY_AFTER,
};
use crate::duration::{seconds, shorter};
use vstd::arithmetic::power2::pow2;
use vstd::prelude::*;

verus! {

/// The state after a history of events, the loop having started as `is_leader` says.
pub open spec fn after(m: ClusterManager, is_leader: bool, events: Seq<LoopEvent>) -> StateView
    decreases events.len(),
{
    if events.len() == 0 {
        initial(is_leader)
    } else {
        next(m, after(m, is_leader, events.drop_last()), events.last())
    }
}

/// Whether every event of a history could happen when it did.
pub open spec fn possible(m: ClusterManager, is_leader: bool, events: Seq<LoopEvent>) -> bool
    decreases events.len(),
{
    events.len() == 0 || {
        &&& possible(m, is_leader, events.drop_last())
        &&& accepts(after(m, is_leader, events.drop_last()), events.last())
    }
}

/// What was asked for at the last event of a history.
pub open spec fn last_actions(
    m: ClusterManager,
    is_leader: bool,
    events: Seq<LoopEvent>,
) -> Seq<ActionView> {
    actions(m, after(m, is_leader, events.drop_last()), events.last())
}

/// How many collections of a history succeeded.
pub open spec fn successes(events: Seq<LoopEvent>) -> nat
    decreases events.len(),
{
    if events.len() == 0 {
        0
    } else if events.last() == LoopEvent::Collected {
        successes(events.drop_last()) + 1
    } else {
        successes(events.drop_last())
    }
}

/// How many collections of a history failed or timed out since the last that succeeded.
pub open spec fn failures_in_a_row(events: Seq<LoopEvent>) -> nat
    decreases events.len(),
{
    if events.len() == 0 {
        0
    } else {
        match events.last() {
            LoopEvent::Collected => 0,
            LoopEvent::CollectionFailed | LoopEvent::CollectionTimedOut => failures_in_a_row(
                events.drop_last(),
            ) + 1,
            _ => failures_in_a_row(events.drop_last()),
        }
    }
}

/// How often a history recycled the clients.
pub open spec fn recyclings(m: ClusterManager, is_leader: bool, events: Seq<LoopEvent>) -> nat
    decreases events.len(),
{
    if events.len() == 0 {
        0
    } else if last_actions(m, is_leader, events).contains(ActionView::RecycleClients) {
        recyclings(m, is_leader, events.drop_last()) + 1
    } else {
        recyclings(m, is_leader, events.drop_last())
    }
}

/// Whether the actions of one event ask for a pause.
pub open spec fn asks_for_pause(asked: Seq<ActionView>) -> bool {
    exists|pause: nat| asked.contains(ActionView::Sleep { pause })
}

/// How often a history asked for a pause since the last collection that succeeded.
pub open spec fn pauses(m: ClusterManager, is_leader: bool, events: Seq<LoopEvent>) -> nat
    decreases events.len(),
{
    if events.len() == 0 || events.last() == LoopEvent::Collected {
        0
    } else if asks_for_pause(last_actions(m, is_leader, events)) {
        pauses(m, is_leader, events.drop_last()) + 1
    } else {
        pauses(m, is_leader, events.drop_last())
    }
}

/// Whether a history leaves metrics of the cluster in the registry: those of the last
/// collection that succeeded, unless the cluster was removed since.
pub open spec fn published(m: ClusterManager, is_leader: bool, events: Seq<LoopEvent>) -> bool
    decreases events.len(),
{
    if events.len() == 0 {
        false
    } else if last_actions(m, is_leader, events).contains(ActionView::RemoveCluster) {
        false
    } else if events.last() == LoopEvent::Collected {
        true
    } else {
        published(m, is_leader, events.drop_last())
    }
}

/// The health that a history reported last.
pub open spec fn reported_health(
    m: ClusterManager,
    is_leader: bool,
    events: Seq<LoopEvent>,
) -> Option<bool>
    decreases events.len(),
{
    if events.len() == 0 {
        None
    } else if last_actions(m, is_leader, events).contains(ActionView::SetHealthy { healthy: true }) {
        Some(true)
    } else if last_actions(m, is_leader, events).contains(
        ActionView::SetHealthy { healthy: false },
    ) {
        Some(false)
    } else {
        reported_health(m, is_leader, events.drop_last())
    }
}

/// What can be among the actions of an event.
proof fn lemma_actions(m: ClusterManager, s: StateView, event: LoopEvent)
    ensures
        actions(m, s, event).contains(ActionView::RemoveCluster) <==> (event == LoopEvent::Shutdown
            || (event == LoopEvent::PollTick { is_leader: false } && s.was_leader)),
        forall|timeout: nat|
            #[trigger] actions(m, s, event).contains(ActionView::Collect { timeout }) <==> (event
                == LoopEvent::PollTick { is_leader: true } && timeout == m.collection_timeout@),
        actions(m, s, event).contains(ActionView::RecycleClients) <==> (event
            == LoopEvent::Collected && recycles(m, s)),
        actions(m, s, event).contains(ActionView::RecycleTimestampPool) <==> (event
            == LoopEvent::Collected && recycles(m, s) && m.timestamp_sampler is Some),
        actions(m, s, event).contains(ActionView::SetHealthy { healthy: true }) <==> event
            == LoopEvent::Collected,
        actions(m, s, event).contains(ActionView::SetHealthy { healthy: false }) <==> ((event
            == LoopEvent::CollectionFailed || event == LoopEvent::CollectionTimedOut)
            && s.consecutive_errors + 1 >= UNHEALTHY_AFTER),
        forall|pause: nat|
            #[trigger] actions(m, s, event).contains(ActionView::Sleep { pause }) <==> (event
                == LoopEvent::CollectionFailed && s.consecutive_errors + 1 >= UNHEALTHY_AFTER
                && pause == shorter(s.current_backoff, m.max_backoff@)),
        actions(m, s, event).contains(ActionView::ClearStaleEntries) <==> (event
            == LoopEvent::CleanupTick { is_leader: true } && m.timestamp_sampler is Some),
{
    let asked = actions(m, s, event);
    assert(asked.len() <= 3);
    assert(asked.len() > 0 ==> asked.contains(asked[0]));
    assert(asked.len() > 1 ==> asked.contains(asked[1]));
    assert(asked.len() > 2 ==> asked.contains(asked[2]));
    assert forall|a: ActionView| #[trigger] asked.contains(a) implies (asked.len() > 0 && a
        == asked[0]) || (asked.len() > 1 && a == asked[1]) || (asked.len() > 2 && a == asked[2]) by {
        let i = asked.index_of(a);
        assert(i == 0 || i == 1 || i == 2);
    }
}

/// In every state that the loop can get into, the backoff lies between one second and
/// its limit, collecting needs leadership, and fewer cycles are counted than recycling
/// waits for.
pub proof fn law_every_state_keeps_the_invariant(
    m: ClusterManager,
    is_leader: bool,
    events: Seq<LoopEvent>,
)
    requires
        m.wf(),
        possible(m, is_leader, events),
    ensures
        loop_inv(m, after(m, is_leader, events)),
    decreases events.len(),
{
    if events.len() > 0 {
        law_every_state_keeps_the_invariant(m, is_leader, events.drop_last());
    }
}

/// A collection is asked for when a poll is due and this instance leads, and at no
/// other time.
pub proof fn law_only_a_leader_collects(
    m: ClusterManager,
    is_leader: bool,
    events: Seq<LoopEvent>,
    timeout: nat,
)
    requires
        events.len() > 0,
        possible(m, is_leader, events),
    ensures
        last_actions(m, is_leader, events).contains(ActionView::Collect { timeout }) <==> (
        events.last() == LoopEvent::PollTick { is_leader: true } && timeout
            == m.collection_timeout@),
{
    lemma_actions(m, after(m, is_leader, events.drop_last()), events.last());
}

/// Who does not lead, or has shut down, leaves no metrics of the cluster behind.
pub proof fn law_standby_leaves_no_metrics(
    m: ClusterManager,
    is_leader: bool,
    events: Seq<LoopEvent>,
)
    requires
        m.wf(),
        possible(m, is_leader, events),
    ensures
        !after(m, is_leader, events).was_leader ==> !published(m, is_leader, events),
        after(m, is_leader, events).phase == LoopPhase::Stopped ==> !published(
            m,
            is_leader,
            events,
        ),
    decreases events.len(),
{
    if events.len() > 0 {
        let earlier = events.drop_last();
        law_standby_leaves_no_metrics(m, is_leader, earlier);
        law_every_state_keeps_the_invariant(m, is_leader, earlier);
        lemma_actions(m, after(m, is_leader, earlier), events.last());
    }
}

/// A loop that has stopped takes no more events.
pub proof fn law_stopped_is_final(
    m: ClusterManager,
    is_leader: bool,
    events: Seq<LoopEvent>,
    event: LoopEvent,
)
    requires
        possible(m, is_leader, events),
        events.len() > 0,
        events.last() == LoopEvent::Shutdown,
    ensures
        !possible(m, is_leader, events.push(event)),
        last_actions(m, is_leader, events) == seq![ActionView::RemoveCluster, ActionView::Stop],
{
    assert(events.push(event).drop_last() == events);
}

/// Clients are recycled once for every `client_recycle_interval` collections that
/// succeed, however failures and lost leadership come between them, and never where
/// the interval is 0.
pub proof fn law_recycled_once_per_interval(
    m: ClusterManager,
    is_leader: bool,
    events: Seq<LoopEvent>,
)
    requires
        m.wf(),
        possible(m, is_leader, events),
    ensures
        m.client_recycle_interval == 0 ==> recyclings(m, is_leader, events) == 0,
        m.client_recycle_interval > 0 ==> recyclings(m, is_leader, events) == successes(events)
            / m.client_recycle_interval as nat,
        m.client_recycle_interval > 0 ==> after(m, is_leader, events).cycle_count == successes(
            events,
        ) % m.client_recycle_interval as nat,
    decreases events.len(),
{
    let interval = m.client_recycle_interval as int;
    if events.len() > 0 {
        let earlier = events.drop_last();
        law_recycled_once_per_interval(m, is_leader, earlier);
        law_every_state_keeps_the_invariant(m, is_leader, earlier);
        let s = after(m, is_leader, earlier);
        lemma_actions(m, s, events.last());
        if interval > 0 && events.last() == LoopEvent::Collected {
            let done = successes(earlier) as int;
            let rounds = recyclings(m, is_leader, earlier) as int;
            let count = s.cycle_count as int;
            vstd::arithmetic::div_mod::lemma_fundamental_div_mod(done, interval);
            if count + 1 >= interval {
                assert(done + 1 == interval * (rounds + 1) + 0) by (nonlinear_arith)
                    requires
                        done == interval * rounds + count,
                        count + 1 == interval,
                ;
                vstd::arithmetic::div_mod::lemma_fundamental_div_mod_converse(
                    done + 1,
                    interval,
                    rounds + 1,
                    0,
                );
            } else {
                vstd::arithmetic::div_mod::lemma_fundamental_div_mod_converse(
                    done + 1,
                    interval,
                    rounds,
                    count + 1,
                );
            }
        }
    } else if interval > 0 {
        vstd::arithmetic::div_mod::lemma_fundamental_div_mod_converse(0, interval, 0, 0);
    }
}

/// Clients, and the timestamp pool with them, are recycled between collections only:
/// right after one that succeeded, before the next one starts.
pub proof fn law_recycled_between_collections(
    m: ClusterManager,
    is_leader: bool,
    events: Seq<LoopEvent>,
)
    requires
        events.len() > 0,
        possible(m, is_leader, events),
        last_actions(m, is_leader, events).contains(ActionView::RecycleClients) || last_actions(
            m,
            is_leader,
            events,
        ).contains(ActionView::RecycleTimestampPool),
    ensures
        events.last() == LoopEvent::Collected,
        after(m, is_leader, events).phase == LoopPhase::Waiting,
        last_actions(m, is_leader, events).contains(ActionView::RecycleClients),
        last_actions(m, is_leader, events).contains(ActionView::RecycleTimestampPool)
            <==> m.timestamp_sampler is Some,
{
    lemma_actions(m, after(m, is_leader, events.drop_last()), events.last());
}

/// The exporter is reported unhealthy exactly while the last three collections or more
/// have failed or timed out, and healthy again with the first that succeeds.
pub proof fn law_unhealthy_after_three_failures(
    m: ClusterManager,
    is_leader: bool,
    events: Seq<LoopEvent>,
)
    requires
        possible(m, is_leader, events),
    ensures
        after(m, is_leader, events).consecutive_errors == failures_in_a_row(events),
        reported_health(m, is_leader, events) == Some(false) <==> failures_in_a_row(events) >= 3,
        events.len() > 0 && events.last() == LoopEvent::Collected ==> reported_health(
            m,
            is_leader,
            events,
        ) == Some(true),
    decreases events.len(),
{
    if events.len() > 0 {
        let earlier = events.drop_last();
        law_unhealthy_after_three_failures(m, is_leader, earlier);
        lemma_actions(m, after(m, is_leader, earlier), events.last());
    }
}

/// The backoff is one second, doubled at every pause since the last collection that
/// succeeded, up to its limit.
pub proof fn law_backoff_doubles_up_to_its_limit(
    m: ClusterManager,
    is_leader: bool,
    events: Seq<LoopEvent>,
)
    requires
        m.wf(),
        possible(m, is_leader, events),
    ensures
        after(m, is_leader, events).current_backoff == shorter(
            pow2(pauses(m, is_leader, events)) * seconds(1),
            m.max_backoff@,
        ),
    decreases events.len(),
{
    vstd::arithmetic::power2::lemma2_to64();
    if events.len() > 0 {
        let earlier = events.drop_last();
        law_backoff_doubles_up_to_its_limit(m, is_leader, earlier);
        let s = after(m, is_leader, earlier);
        lemma_actions(m, s, events.last());
        let before = pauses(m, is_leader, earlier);
        vstd::arithmetic::power2::lemma_pow2_unfold(before + 1);
        if events.last() == LoopEvent::CollectionFailed && s.consecutive_errors + 1
            >= UNHEALTHY_AFTER {
            assert(last_actions(m, is_leader, events).contains(
                ActionView::Sleep { pause: shorter(s.current_backoff, m.max_backoff@) },
            ));
            assert(pow2(before + 1) * seconds(1) == 2 * (pow2(before) * seconds(1)));
        }
    }
}

/// A pause is asked for when a collection fails that is at least the third in a row to
/// do so; the n-th pause in a row lasts two to the n-1 seconds, up to its limit. A
/// collection that times out is never followed by a pause.
pub proof fn law_pauses_follow_failures(
    m: ClusterManager,
    is_leader: bool,
    events: Seq<LoopEvent>,
    pause: nat,
)
    requires
        m.wf(),
        events.len() > 0,
        possible(m, is_leader, events),
    ensures
        last_actions(m, is_leader, events).contains(ActionView::Sleep { pause }) <==> {
            &&& events.last() == LoopEvent::CollectionFailed
            &&& failures_in_a_row(events) >= 3
            &&& pause == shorter(
                pow2(pauses(m, is_leader, events.drop_last())) * seconds(1),
                m.max_backoff@,
            )
        },
{
    let earlier = events.drop_last();
    lemma_actions(m, after(m, is_leader, earlier), events.last());
    law_backoff_doubles_up_to_its_limit(m, is_leader, earlier);
    law_unhealthy_after_three_failures(m, is_leader, earlier);
}

/// The timestamp cache is cleaned up by a leader that has one, when that is due, and
/// cleaning up changes nothing else.
pub proof fn law_only_a_leader_cleans_up(
    m: ClusterManager,
    is_leader: bool,
    events: Seq<LoopEvent>,
    leads_now: bool,
)
    requires
        possible(m, is_leader, events),
    ensures
        ({
            let longer = events.push(LoopEvent::CleanupTick { is_leader: leads_now });
            &&& after(m, is_leader, longer) == after(m, is_leader, events)
            &&& last_actions(m, is_leader, longer) == if leads_now && m.timestamp_sampler is Some {
                seq![ActionView::ClearStaleEntries]
            } else {
                seq![]
            }
        }),
{
    let longer = events.push(LoopEvent::CleanupTick { is_leader: leads_now });
    assert(longer.drop_last() == events);
}

} // verus!
