//! Laws of one collection, step by step and as a whole.

use crate::cluster::collection::{
    collect_action_views, CollectAction, CollectEvent, CollectStage,
};
use crate::cluster::manager::ClusterManager;
use crate::config::StringMap;
use crate::duration::Duration;
use crate::error::KlagError;
use crate::laws::values::told;
use std::sync::Arc;
use vstd::prelude::*;

verus! {

/// The actions of a call are those of its views, one by one.
proof fn lemma_views<S, T>(todo: Vec<CollectAction<S, T>>)
    ensures
        collect_action_views(todo@).len() == todo@.len(),
        forall|i: int|
            0 <= i < todo@.len() ==> collect_action_views(todo@)[i] == (#[trigger] todo@[i])@,
{
}

/// A collection begins with the offsets.
pub proof fn law_a_collection_begins_with_offsets<S, T>(
    m: &ClusterManager,
    begun: (CollectStage<S, T>, CollectAction<S, T>),
)
    requires
        call_ensures(ClusterManager::begin_collection::<S, T>, (m,), begun),
    ensures
        begun.0 is Offsets,
        begun.1 is CollectOffsets,
{
}

/// Offsets that did not come end the collection in their error; with those that came, the
/// clock is read.
pub proof fn law_offsets_decide<S, T>(
    m: &ClusterManager,
    outcome: Result<Arc<S>, KlagError>,
    step: (CollectStage<S, T>, Vec<CollectAction<S, T>>),
)
    requires
        call_ensures(
            ClusterManager::collect_once::<S, T>,
            (m, CollectStage::Offsets, (CollectEvent::OffsetsCollected { outcome })),
            step,
        ),
    ensures
        step.1@.len() == 1,
        outcome matches Err(e) ==> {
            &&& step.0 is Finished
            &&& step.1@[0] matches CollectAction::Finish(Err(k))
            &&& k == e
        },
        outcome matches Ok(snapshot) ==> {
            &&& step.0 matches CollectStage::Clock { snapshot: kept }
            &&& kept == snapshot
            &&& step.1@[0] is ReadClock
        },
{
    lemma_views(step.1);
    let _ = step.1@[0];
}

/// With the time of day, in milliseconds, time lags are computed for the snapshot where
/// they are sampled; where they are not, none are kept.
pub proof fn law_the_clock_comes_before_time_lags<S, T>(
    m: &ClusterManager,
    snapshot: Arc<S>,
    now: Duration,
    step: (CollectStage<S, T>, Vec<CollectAction<S, T>>),
    secs: u64,
    nanos: u32,
)
    requires
        call_ensures(
            ClusterManager::collect_once::<S, T>,
            (m, (CollectStage::Clock { snapshot }), (CollectEvent::ClockRead { now })),
            step,
        ),
        told(now, secs, nanos),
        secs * 1000 + nanos / 1_000_000 <= i64::MAX,
    ensures
        step.1@.len() == 1,
        m.timestamp_sampler is Some ==> {
            &&& step.0 matches CollectStage::TimeLags { snapshot: kept, now_ms }
            &&& kept == snapshot
            &&& now_ms == secs * 1000 + nanos / 1_000_000
            &&& step.1@[0] matches CollectAction::ComputeTimeLags {
                snapshot: of,
                now_ms: at,
                max_concurrent_fetches,
            }
            &&& of == snapshot
            &&& at == now_ms
            &&& max_concurrent_fetches == m.max_concurrent_fetches
        },
        m.timestamp_sampler is None ==> {
            &&& step.0 matches CollectStage::PollTime { snapshot: kept, time_lags, now_ms }
            &&& kept == snapshot
            &&& time_lags is None
            &&& now_ms == secs * 1000 + nanos / 1_000_000
            &&& step.1@[0] is ReadElapsed
        },
{
    lemma_views(step.1);
    let _ = step.1@[0];
}

/// Time lags are kept with the snapshot and the moment that they were computed for.
pub proof fn law_time_lags_are_kept<S, T>(
    m: &ClusterManager,
    snapshot: Arc<S>,
    now_ms: i64,
    lags: T,
    step: (CollectStage<S, T>, Vec<CollectAction<S, T>>),
)
    requires
        call_ensures(
            ClusterManager::collect_once::<S, T>,
            (
                m,
                (CollectStage::TimeLags { snapshot, now_ms }),
                (CollectEvent::TimeLagsComputed { lags }),
            ),
            step,
        ),
    ensures
        step.0 == (CollectStage::<S, T>::PollTime { snapshot, time_lags: Some(lags), now_ms }),
        step.1@.len() == 1,
        step.1@[0] is ReadElapsed,
{
    lemma_views(step.1);
    let _ = step.1@[0];
}

/// What is published is the snapshot with its time lags, at their moment, under the
/// cluster's name and with every label of it, and how long it took so far.
pub proof fn law_what_was_collected_is_published<S, T>(
    m: &ClusterManager,
    snapshot: Arc<S>,
    time_lags: Option<T>,
    now_ms: i64,
    elapsed: Duration,
    step: (CollectStage<S, T>, Vec<CollectAction<S, T>>),
    secs: u64,
    nanos: u32,
    key: &str,
    label: Option<&String>,
    configured: Option<&String>,
)
    requires
        call_ensures(
            ClusterManager::collect_once::<S, T>,
            (
                m,
                (CollectStage::PollTime { snapshot, time_lags, now_ms }),
                (CollectEvent::TimeElapsed { elapsed }),
            ),
            step,
        ),
        told(elapsed, secs, nanos),
        secs * 1000 + nanos / 1_000_000 <= u64::MAX,
        call_ensures(StringMap::get, (&m.cluster_labels, key), configured),
        step.1@[0] matches CollectAction::PublishLag { labels, .. } ==> call_ensures(
            StringMap::get,
            (&labels, key),
            label,
        ),
    ensures
        step.0 is ScrapeTime,
        step.1@.len() == 2,
        step.1@[1] is ReadElapsed,
        ({
            &&& step.1@[0] matches CollectAction::PublishLag {
                cluster_name,
                labels,
                snapshot: of,
                time_lags: with,
                now_ms: at,
                poll_time_ms,
                granularity,
            }
            &&& cluster_name@ == m.cluster_name@
            &&& of == snapshot
            &&& with == time_lags
            &&& at == now_ms
            &&& poll_time_ms == secs * 1000 + nanos / 1_000_000
            &&& granularity == m.granularity
            &&& match configured {
                Some(value) => label matches Some(v) && v@ == value@,
                None => label is None,
            }
        }),
{
    lemma_views(step.1);
    let _ = step.1@[0];
    let _ = step.1@[1];
}

/// Last, the duration is recorded and the collection succeeds.
pub proof fn law_the_duration_is_recorded_last<S, T>(
    m: &ClusterManager,
    elapsed: Duration,
    step: (CollectStage<S, T>, Vec<CollectAction<S, T>>),
    secs: u64,
    nanos: u32,
)
    requires
        call_ensures(
            ClusterManager::collect_once::<S, T>,
            (m, CollectStage::ScrapeTime, (CollectEvent::TimeElapsed { elapsed })),
            step,
        ),
        told(elapsed, secs, nanos),
        secs * 1000 + nanos / 1_000_000 <= u64::MAX,
    ensures
        step.0 is Finished,
        step.1@.len() == 2,
        step.1@[0] matches CollectAction::RecordScrapeDuration { millis } && millis == secs * 1000
            + nanos / 1_000_000,
        step.1@[1] matches CollectAction::Finish(Ok(_)),
{
    lemma_views(step.1);
    let _ = step.1@[0];
    let _ = step.1@[1];
}

/// Milliseconds that do not fit keep their lower bits.
pub proof fn law_milliseconds_keep_their_lower_bits<S, T>(
    m: &ClusterManager,
    snapshot: Arc<S>,
    span: Duration,
    millis: u128,
    clock: (CollectStage<S, T>, Vec<CollectAction<S, T>>),
    time_lags: Option<T>,
    now_ms: i64,
    poll: (CollectStage<S, T>, Vec<CollectAction<S, T>>),
    scrape: (CollectStage<S, T>, Vec<CollectAction<S, T>>),
)
    requires
        call_ensures(Duration::as_millis, (&span,), millis),
        call_ensures(
            ClusterManager::collect_once::<S, T>,
            (m, (CollectStage::Clock { snapshot }), (CollectEvent::ClockRead { now: span })),
            clock,
        ),
        call_ensures(
            ClusterManager::collect_once::<S, T>,
            (
                m,
                (CollectStage::PollTime { snapshot, time_lags, now_ms }),
                (CollectEvent::TimeElapsed { elapsed: span }),
            ),
            poll,
        ),
        call_ensures(
            ClusterManager::collect_once::<S, T>,
            (m, CollectStage::ScrapeTime, (CollectEvent::TimeElapsed { elapsed: span })),
            scrape,
        ),
    ensures
        clock.0 matches CollectStage::TimeLags { now_ms: at, .. } ==> at == millis as i64,
        clock.0 matches CollectStage::PollTime { now_ms: at, .. } ==> at == millis as i64,
        poll.1@[0] matches CollectAction::PublishLag { poll_time_ms, .. } && poll_time_ms
            == millis as u64,
        scrape.1@[0] matches CollectAction::RecordScrapeDuration { millis: told_millis } && told_millis
            == millis as u64,
{
    lemma_views(poll.1);
    let _ = poll.1@[0];
    lemma_views(scrape.1);
    let _ = scrape.1@[0];
}

/// A collection takes what it waits for, and once finished it takes nothing.
pub proof fn law_what_is_waited_for_is_taken<S, T>(
    m: &ClusterManager,
    stage: CollectStage<S, T>,
    event: CollectEvent<S, T>,
)
    requires
        match event {
            CollectEvent::OffsetsCollected { .. } => stage is Offsets,
            CollectEvent::ClockRead { .. } => stage is Clock,
            CollectEvent::TimeLagsComputed { .. } => stage is TimeLags,
            CollectEvent::TimeElapsed { .. } => stage is PollTime || stage is ScrapeTime,
        },
    ensures
        call_requires(ClusterManager::collect_once::<S, T>, (m, stage, event)),
{
}

} // verus!
