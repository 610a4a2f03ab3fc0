//! One collection from a cluster, step by step.

use crate::cluster::manager::ClusterManager;
use crate::config::{Granularity, StringMap};
use crate::duration::Duration;
use crate::error::KlagError;
use std::sync::Arc;
use vstd::prelude::*;

verus! {

/// What a collection waits for. `S` is a snapshot of the cluster's offsets, watermarks and
/// compacted topics, `T` the time lags worked out for one.
pub enum CollectStage<S, T> {
    /// The snapshot.
    Offsets,
    /// The time of day.
    Clock { snapshot: Arc<S> },
    /// The time lags.
    TimeLags { snapshot: Arc<S>, now_ms: i64 },
    /// How long the collection has taken so far.
    PollTime { snapshot: Arc<S>, time_lags: Option<T>, now_ms: i64 },
    /// How long the collection has taken with everything published.
    ScrapeTime,
    Finished,
}

/// How a step of a collection ended.
pub enum CollectEvent<S, T> {
    OffsetsCollected { outcome: Result<Arc<S>, KlagError> },
    /// The time since the Unix epoch.
    ClockRead { now: Duration },
    TimeLagsComputed { lags: T },
    /// The time since the collection started.
    TimeElapsed { elapsed: Duration },
}

/// What a collection asks for.
pub enum CollectAction<S, T> {
    /// Collect offsets, watermarks and compacted topics in one pass.
    CollectOffsets,
    ReadClock,
    /// Work out how far back in time the consumers of a snapshot are.
    ComputeTimeLags { snapshot: Arc<S>, now_ms: i64, max_concurrent_fetches: usize },
    ReadElapsed,
    /// Calculate the lag from the snapshot and its time lags, and put it in the registry.
    PublishLag {
        cluster_name: String,
        labels: StringMap,
        snapshot: Arc<S>,
        /// None where time lag is not sampled: the lag in offsets remains.
        time_lags: Option<T>,
        now_ms: i64,
        poll_time_ms: u64,
        granularity: Granularity,
    },
    RecordScrapeDuration { millis: u64 },
    Finish(Result<(), KlagError>),
}

/// A `CollectAction` with its texts and labels as mathematical values.
#[verifier::ext_equal]
pub enum CollectActionView<S, T> {
    CollectOffsets,
    ReadClock,
    ComputeTimeLags { snapshot: Arc<S>, now_ms: i64, max_concurrent_fetches: usize },
    ReadElapsed,
    PublishLag {
        cluster_name: Seq<char>,
        labels: Map<Seq<char>, Seq<char>>,
        snapshot: Arc<S>,
        time_lags: Option<T>,
        now_ms: i64,
        poll_time_ms: u64,
        granularity: Granularity,
    },
    RecordScrapeDuration { millis: u64 },
    Finish(Result<(), KlagError>),
}

impl<S, T> View for CollectAction<S, T> {
    type V = CollectActionView<S, T>;

    open spec fn view(&self) -> CollectActionView<S, T> {
        match *self {
            CollectAction::CollectOffsets => CollectActionView::CollectOffsets,
            CollectAction::ReadClock => CollectActionView::ReadClock,
            CollectAction::ComputeTimeLags { snapshot, now_ms, max_concurrent_fetches } => {
                CollectActionView::ComputeTimeLags { snapshot, now_ms, max_concurrent_fetches }
            },
            CollectAction::ReadElapsed => CollectActionView::ReadElapsed,
            CollectAction::PublishLag {
                cluster_name,
                labels,
                snapshot,
                time_lags,
                now_ms,
                poll_time_ms,
                granularity,
            } => CollectActionView::PublishLag {
                cluster_name: cluster_name@,
                labels: labels@,
                snapshot,
                time_lags,
                now_ms,
                poll_time_ms,
                granularity,
            },
            CollectAction::RecordScrapeDuration { millis } => {
                CollectActionView::RecordScrapeDuration { millis }
            },
            CollectAction::Finish(outcome) => CollectActionView::Finish(outcome),
        }
    }
}

/// The views of a sequence of actions.
pub open spec fn collect_action_views<S, T>(actions: Seq<CollectAction<S, T>>) -> Seq<
    CollectActionView<S, T>,
> {
    actions.map_values(|a: CollectAction<S, T>| a@)
}

/// Whether an event is what a collection waits for.
pub open spec fn collect_expects<S, T>(
    stage: CollectStage<S, T>,
    event: CollectEvent<S, T>,
) -> bool {
    match event {
        CollectEvent::OffsetsCollected { .. } => stage is Offsets,
        CollectEvent::ClockRead { .. } => stage is Clock,
        CollectEvent::TimeLagsComputed { .. } => stage is TimeLags,
        CollectEvent::TimeElapsed { .. } => stage is PollTime || stage is ScrapeTime,
    }
}

/// A span in whole milliseconds; beyond what an `i64` holds, its lower bits.
pub open spec fn millis_i64(nanos: nat) -> i64 {
    (nanos / 1_000_000) as i64
}

/// A span in whole milliseconds; beyond what a `u64` holds, its lower bits.
pub open spec fn millis_u64(nanos: nat) -> u64 {
    (nanos / 1_000_000) as u64
}

/// What a collection waits for after an event.
pub open spec fn collect_next<S, T>(
    m: ClusterManager,
    stage: CollectStage<S, T>,
    event: CollectEvent<S, T>,
) -> CollectStage<S, T> {
    match (stage, event) {
        (CollectStage::Offsets, CollectEvent::OffsetsCollected { outcome: Ok(snapshot) }) => {
            CollectStage::Clock { snapshot }
        },
        (CollectStage::Clock { snapshot }, CollectEvent::ClockRead { now }) => {
            if m.timestamp_sampler is Some {
                CollectStage::TimeLags { snapshot, now_ms: millis_i64(now@) }
            } else {
                CollectStage::PollTime { snapshot, time_lags: None, now_ms: millis_i64(now@) }
            }
        },
        (
            CollectStage::TimeLags { snapshot, now_ms },
            CollectEvent::TimeLagsComputed { lags },
        ) => CollectStage::PollTime { snapshot, time_lags: Some(lags), now_ms },
        (CollectStage::PollTime { .. }, CollectEvent::TimeElapsed { .. }) => {
            CollectStage::ScrapeTime
        },
        _ => CollectStage::Finished,
    }
}

/// What a collection asks for at an event, in this order.
pub open spec fn collect_actions<S, T>(
    m: ClusterManager,
    stage: CollectStage<S, T>,
    event: CollectEvent<S, T>,
) -> Seq<CollectActionView<S, T>> {
    match (stage, event) {
        (CollectStage::Offsets, CollectEvent::OffsetsCollected { outcome: Ok(snapshot) }) => seq![
            CollectActionView::ReadClock,
        ],
        (CollectStage::Offsets, CollectEvent::OffsetsCollected { outcome: Err(e) }) => seq![
            CollectActionView::Finish(Err(e)),
        ],
        (CollectStage::Clock { snapshot }, CollectEvent::ClockRead { now }) => {
            if m.timestamp_sampler is Some {
                seq![
                    CollectActionView::ComputeTimeLags {
                        snapshot,
                        now_ms: millis_i64(now@),
                        max_concurrent_fetches: m.max_concurrent_fetches,
                    },
                ]
            } else {
                seq![CollectActionView::ReadElapsed]
            }
        },
        (CollectStage::TimeLags { .. }, CollectEvent::TimeLagsComputed { .. }) => seq![
            CollectActionView::ReadElapsed,
        ],
        (
            CollectStage::PollTime { snapshot, time_lags, now_ms },
            CollectEvent::TimeElapsed { elapsed },
        ) => seq![
            CollectActionView::PublishLag {
                cluster_name: m.cluster_name@,
                labels: m.cluster_labels@,
                snapshot,
                time_lags,
                now_ms,
                poll_time_ms: millis_u64(elapsed@),
                granularity: m.granularity,
            },
            CollectActionView::ReadElapsed,
        ],
        (CollectStage::ScrapeTime, CollectEvent::TimeElapsed { elapsed }) => seq![
            CollectActionView::RecordScrapeDuration { millis: millis_u64(elapsed@) },
            CollectActionView::Finish(Ok(())),
        ],
        _ => seq![],
    }
}

impl ClusterManager {
    /// Starts a collection: with the offsets.
    pub fn begin_collection<S, T>(&self) -> (begun: (CollectStage<S, T>, CollectAction<S, T>))
        ensures
            begun.0 is Offsets,
            begun.1 is CollectOffsets,
    {
        (CollectStage::Offsets, CollectAction::CollectOffsets)
    }

    /// Takes the outcome of a step of a collection in, and says what is waited for and
    /// what is to be done next. What is published is calculated from the snapshot that
    /// was collected and from the time lags that were computed for it.
    pub fn collect_once<S, T>(
        &self,
        stage: CollectStage<S, T>,
        event: CollectEvent<S, T>,
    ) -> (step: (CollectStage<S, T>, Vec<CollectAction<S, T>>))
        requires
            collect_expects(stage, event),
        ensures
            step.0 == collect_next(*self, stage, event),
            collect_action_views(step.1@) == collect_actions(*self, stage, event),
    {
        let mut todo: Vec<CollectAction<S, T>> = Vec::new();
        let next = match (stage, event) {
            (CollectStage::Offsets, CollectEvent::OffsetsCollected { outcome }) => match outcome {
                Ok(snapshot) => {
                    todo.push(CollectAction::ReadClock);
                    CollectStage::Clock { snapshot }
                },
                Err(e) => {
                    todo.push(CollectAction::Finish(Err(e)));
                    CollectStage::Finished
                },
            },
            (CollectStage::Clock { snapshot }, CollectEvent::ClockRead { now }) => {
                // Read before the time lags are computed: they are relative to it.
                let now_ms: i64 = now.as_millis() as i64;
                if self.timestamp_sampler.is_some() {
                    todo.push(
                        CollectAction::ComputeTimeLags {
                            snapshot: Arc::clone(&snapshot),
                            now_ms,
                            max_concurrent_fetches: self.max_concurrent_fetches,
                        },
                    );
                    CollectStage::TimeLags { snapshot, now_ms }
                } else {
                    todo.push(CollectAction::ReadElapsed);
                    CollectStage::PollTime { snapshot, time_lags: None, now_ms }
                }
            },
            (
                CollectStage::TimeLags { snapshot, now_ms },
                CollectEvent::TimeLagsComputed { lags },
            ) => {
                todo.push(CollectAction::ReadElapsed);
                CollectStage::PollTime { snapshot, time_lags: Some(lags), now_ms }
            },
            (
                CollectStage::PollTime { snapshot, time_lags, now_ms },
                CollectEvent::TimeElapsed { elapsed },
            ) => {
                todo.push(
                    CollectAction::PublishLag {
                        cluster_name: self.cluster_name.clone(),
                        labels: self.cluster_labels.clone(),
                        snapshot,
                        time_lags,
                        now_ms,
                        poll_time_ms: elapsed.as_millis() as u64,
                        granularity: self.granularity,
                    },
                );
                todo.push(CollectAction::ReadElapsed);
                CollectStage::ScrapeTime
            },
            (CollectStage::ScrapeTime, CollectEvent::TimeElapsed { elapsed }) => {
                todo.push(
                    CollectAction::RecordScrapeDuration { millis: elapsed.as_millis() as u64 },
                );
                todo.push(CollectAction::Finish(Ok(())));
                CollectStage::Finished
            },
            _ => CollectStage::Finished,
        };
        assert(collect_action_views(todo@) =~= collect_actions(*self, stage, event));
        (next, todo)
    }
}

/// What a collection waits for after a history of events.
pub open spec fn collect_after<S, T>(
    m: ClusterManager,
    events: Seq<CollectEvent<S, T>>,
) -> CollectStage<S, T>
    decreases events.len(),
{
    if events.len() == 0 {
        CollectStage::Offsets
    } else {
        collect_next(m, collect_after(m, events.drop_last()), events.last())
    }
}

/// Whether every event of a history was waited for when it happened.
pub open spec fn collect_possible<S, T>(
    m: ClusterManager,
    events: Seq<CollectEvent<S, T>>,
) -> bool
    decreases events.len(),
{
    events.len() == 0 || {
        &&& collect_possible(m, events.drop_last())
        &&& collect_expects(collect_after(m, events.drop_last()), events.last())
    }
}

/// What a collection asked for at the last event of a history.
pub open spec fn collect_last_actions<S, T>(
    m: ClusterManager,
    events: Seq<CollectEvent<S, T>>,
) -> Seq<CollectActionView<S, T>> {
    collect_actions(m, collect_after(m, events.drop_last()), events.last())
}

/// Whether lag is to be published among these actions.
pub open spec fn asks_to_publish<S, T>(asked: Seq<CollectActionView<S, T>>) -> bool {
    exists|i: int| 0 <= i < asked.len() && (#[trigger] asked[i]) is PublishLag
}

/// How often a history asked for lag to be published.
pub open spec fn publications<S, T>(m: ClusterManager, events: Seq<CollectEvent<S, T>>) -> nat
    decreases events.len(),
{
    if events.len() == 0 {
        0
    } else if asks_to_publish(collect_last_actions(m, events)) {
        publications(m, events.drop_last()) + 1
    } else {
        publications(m, events.drop_last())
    }
}

/// How often a history asked for time lags.
pub open spec fn samplings<S, T>(m: ClusterManager, events: Seq<CollectEvent<S, T>>) -> nat
    decreases events.len(),
{
    if events.len() == 0 {
        0
    } else if exists|i: int|
        0 <= i < collect_last_actions(m, events).len() && (#[trigger] collect_last_actions(
            m,
            events,
        )[i]) is ComputeTimeLags {
        samplings(m, events.drop_last()) + 1
    } else {
        samplings(m, events.drop_last())
    }
}

/// A collection that succeeds has published its lag exactly once, and computed time lags
/// once where they are sampled and never where they are not; one that fails has done
/// neither.
pub proof fn law_success_publishes_once<S, T>(m: ClusterManager, events: Seq<CollectEvent<S, T>>)
    requires
        collect_possible(m, events),
        events.len() > 0,
    ensures
        publications(m, events) <= 1,
        samplings(m, events) <= 1,
        collect_last_actions(m, events).contains(CollectActionView::Finish(Ok(()))) ==> {
            &&& publications(m, events) == 1
            &&& samplings(m, events) == if m.timestamp_sampler is Some {
                1nat
            } else {
                0nat
            }
        },
        forall|e: KlagError| #[trigger]
            collect_last_actions(m, events).contains(CollectActionView::Finish(Err(e)))
                ==> publications(m, events) == 0 && samplings(m, events) == 0,
{
    lemma_collected(m, events);
    lemma_collected(m, events.drop_last());
    let asked = collect_last_actions(m, events);
    if asked.contains(CollectActionView::Finish(Ok(()))) {
        let i = asked.index_of(CollectActionView::Finish(Ok(())));
        assert(asked[i] is Finish);
    }
    assert forall|e: KlagError| #[trigger]
        asked.contains(CollectActionView::Finish(Err(e))) implies publications(m, events) == 0
        && samplings(m, events) == 0 by {
        let i = asked.index_of(CollectActionView::Finish(Err(e)));
        assert(asked[i] is Finish);
    }
}

/// What has been done can be told from what is waited for.
proof fn lemma_collected<S, T>(m: ClusterManager, events: Seq<CollectEvent<S, T>>)
    requires
        collect_possible(m, events),
    ensures
        ({
            let sampled = if m.timestamp_sampler is Some {
                1nat
            } else {
                0nat
            };
            match collect_after(m, events) {
                CollectStage::Offsets | CollectStage::Clock { .. } => publications(m, events) == 0
                    && samplings(m, events) == 0,
                CollectStage::TimeLags { .. } | CollectStage::PollTime { .. } => publications(
                    m,
                    events,
                ) == 0 && samplings(m, events) == sampled,
                CollectStage::ScrapeTime => publications(m, events) == 1 && samplings(m, events)
                    == sampled,
                CollectStage::Finished => if events.last() is OffsetsCollected {
                    publications(m, events) == 0 && samplings(m, events) == 0
                } else {
                    publications(m, events) == 1 && samplings(m, events) == sampled
                },
            }
        }),
        collect_after(m, events) is TimeLags ==> m.timestamp_sampler is Some,
    decreases events.len(),
{
    if events.len() > 0 {
        let earlier = events.drop_last();
        lemma_collected(m, earlier);
        let stage = collect_after(m, earlier);
        let asked = collect_last_actions(m, events);
        if stage is PollTime {
            assert(asked[0] is PublishLag);
        }
        if stage is Clock && m.timestamp_sampler is Some {
            assert(asked[0] is ComputeTimeLags);
        }
    }
}

/// The events of a collection whose offsets came, in their order.
pub open spec fn successful_events<S, T>(
    m: ClusterManager,
    snapshot: Arc<S>,
    now: Duration,
    lags: T,
    poll_time: Duration,
    scrape_time: Duration,
) -> Seq<CollectEvent<S, T>> {
    let begun = seq![
        CollectEvent::OffsetsCollected { outcome: Ok(snapshot) },
        CollectEvent::ClockRead { now },
    ];
    let sampled = if m.timestamp_sampler is Some {
        begun.push(CollectEvent::TimeLagsComputed { lags })
    } else {
        begun
    };
    sampled.push(CollectEvent::TimeElapsed { elapsed: poll_time }).push(
        CollectEvent::TimeElapsed { elapsed: scrape_time },
    )
}

/// A collection whose offsets came is for one moment and one snapshot: time lags are
/// computed for the snapshot that came, where they are sampled, and the lag is published
/// from that same snapshot and those time lags, for the same moment, under the cluster's
/// name and labels. Where they are not sampled it is published without time lags. Then the
/// duration is recorded and the collection succeeds.
pub proof fn law_a_collection_is_for_one_snapshot<S, T>(
    m: ClusterManager,
    snapshot: Arc<S>,
    now: Duration,
    lags: T,
    poll_time: Duration,
    scrape_time: Duration,
)
    ensures
        ({
            let events = successful_events(m, snapshot, now, lags, poll_time, scrape_time);
            let n = events.len() as int;
            &&& collect_possible(m, events)
            &&& collect_after(m, events) is Finished
            &&& collect_last_actions(m, events.take(1)) == seq![
                CollectActionView::<S, T>::ReadClock,
            ]
            &&& m.timestamp_sampler is Some ==> {
                &&& n == 5
                &&& collect_last_actions(m, events.take(2)) == seq![
                    CollectActionView::<S, T>::ComputeTimeLags {
                        snapshot,
                        now_ms: millis_i64(now@),
                        max_concurrent_fetches: m.max_concurrent_fetches,
                    },
                ]
                &&& collect_last_actions(m, events.take(3)) == seq![
                    CollectActionView::<S, T>::ReadElapsed,
                ]
            }
            &&& m.timestamp_sampler is None ==> {
                &&& n == 4
                &&& collect_last_actions(m, events.take(2)) == seq![
                    CollectActionView::<S, T>::ReadElapsed,
                ]
            }
            &&& collect_last_actions(m, events.take(n - 1)) == seq![
                CollectActionView::PublishLag {
                    cluster_name: m.cluster_name@,
                    labels: m.cluster_labels@,
                    snapshot,
                    time_lags: if m.timestamp_sampler is Some {
                        Some(lags)
                    } else {
                        None
                    },
                    now_ms: millis_i64(now@),
                    poll_time_ms: millis_u64(poll_time@),
                    granularity: m.granularity,
                },
                CollectActionView::ReadElapsed,
            ]
            &&& collect_last_actions(m, events) == seq![
                CollectActionView::<S, T>::RecordScrapeDuration {
                    millis: millis_u64(scrape_time@),
                },
                CollectActionView::Finish(Ok(())),
            ]
        }),
{
    let events = successful_events(m, snapshot, now, lags, poll_time, scrape_time);
    let n = events.len() as int;
    reveal_with_fuel(collect_after, 6);
    reveal_with_fuel(collect_possible, 6);
    assert(events.take(n) == events);
    assert(events.take(1).drop_last() == Seq::<CollectEvent<S, T>>::empty());
    assert(events.take(2).drop_last() == events.take(1));
    assert(events.take(3).drop_last() == events.take(2));
    assert(events.take(4).drop_last() == events.take(3));
    if n == 5 {
        assert(events.take(5).drop_last() == events.take(4));
    }
}

/// A collection whose offsets did not come publishes nothing and ends in their error.
pub proof fn law_a_failed_collection_publishes_nothing<S, T>(m: ClusterManager, e: KlagError)
    ensures
        ({
            let failed = CollectEvent::<S, T>::OffsetsCollected { outcome: Err(e) };
            &&& collect_next(m, CollectStage::Offsets, failed) is Finished
            &&& collect_actions(m, CollectStage::Offsets, failed) == seq![
                CollectActionView::<S, T>::Finish(Err(e)),
            ]
        }),
        forall|event: CollectEvent<S, T>| !collect_expects(CollectStage::Finished, event),
{
}

/// A span whose milliseconds fit is told exactly, and no shorter span is told to be longer.
pub proof fn law_milliseconds_are_exact(nanos: nat, longer: nat)
    requires
        nanos <= longer,
    ensures
        nanos / 1_000_000 <= i64::MAX ==> millis_i64(nanos) == nanos / 1_000_000,
        nanos / 1_000_000 <= u64::MAX ==> millis_u64(nanos) == nanos / 1_000_000,
        longer / 1_000_000 <= u64::MAX ==> millis_u64(nanos) <= millis_u64(longer),
{
}

} // verus!
