//! The ends of partitions: fetching both and merging them.

use crate::duration::Duration;
use crate::error::KlagError;
use crate::kafka::client::TopicPartition;
use crate::kafka::partition_map::PartitionMap;
use vstd::prelude::*;

verus! {

/// Which end of a partition is asked for.
#[derive(Clone, Copy, Debug, PartialEq, Eq, Structural)]
pub enum OffsetSpec {
    Earliest,
    Latest,
}

/// The offsets that a fetch of watermarks waits for.
pub enum WatermarkFetch<'a> {
    Earliest { partitions: &'a [TopicPartition] },
    Latest {
        /// The earliest offsets, as far as they came.
        lows: PartitionMap<i64>,
    },
}

/// What is next in a fetch of watermarks.
pub enum WatermarkStep<'a> {
    /// Ask for offsets of all these partitions at once, and go on with what came.
    Query {
        partitions: &'a [TopicPartition],
        offsets: OffsetSpec,
        timeout: Duration,
        then_with: WatermarkFetch<'a>,
    },
    Done(Result<PartitionMap<(i64, i64)>, KlagError>),
}

/// The low and high watermark of every partition that either end is known of. A
/// missing low watermark is taken to be the high one, and the other way round.
pub open spec fn merged_watermarks(
    lows: Map<(Seq<char>, int), i64>,
    highs: Map<(Seq<char>, int), i64>,
) -> Map<(Seq<char>, int), (i64, i64)> {
    Map::new(
        |tp: (Seq<char>, int)| lows.contains_key(tp) || highs.contains_key(tp),
        |tp: (Seq<char>, int)|
            (
                if lows.contains_key(tp) {
                    lows[tp]
                } else {
                    highs[tp]
                },
                if highs.contains_key(tp) {
                    highs[tp]
                } else {
                    lows[tp]
                },
            ),
    )
}

/// Merges the earliest and latest offsets of partitions.
///
/// Where the earliest offset is missing, the latest stands in for it: a 0 would
/// misrepresent the earliest offset that is retained.
pub fn merge_watermarks(lows: &PartitionMap<i64>, highs: &PartitionMap<i64>) -> (merged:
    PartitionMap<(i64, i64)>)
    requires
        lows.wf(),
        highs.wf(),
    ensures
        merged.wf(),
        merged@ == merged_watermarks(lows@, highs@),
{
    proof {
        lows.lemma_walk();
        highs.lemma_walk();
    }
    let ghost goal = merged_watermarks(lows@, highs@);
    let mut merged: PartitionMap<(i64, i64)> = PartitionMap::new();
    let highs_len: usize = highs.len();
    for i in 0..highs_len
        invariant
            highs_len == highs.keys().len(),
            lows.wf(),
            highs.wf(),
            merged.wf(),
            goal == merged_watermarks(lows@, highs@),
            highs.keys().len() == highs.values().len(),
            forall|j: int| #![trigger highs.keys()[j]]
                0 <= j < highs.keys().len() ==> {
                    &&& highs@.contains_key(highs.keys()[j])
                    &&& highs@[highs.keys()[j]] == highs.values()[j]
                },
            forall|tp: (Seq<char>, int)| #[trigger]
                merged@.contains_key(tp) <==> highs.keys().take(i as int).contains(tp),
            forall|tp: (Seq<char>, int)| #[trigger]
                merged@.contains_key(tp) ==> merged@[tp] == goal[tp],
    {
        broadcast use vstd::seq_lib::lemma_seq_contains_after_push;

        let tp = highs.key_at(i);
        let high = *highs.value_at(i);
        let low = match lows.get(tp) {
            Some(low) => *low,
            None => high,
        };
        let ghost walked = highs.keys().take(i as int);
        assert(highs.keys().take(i + 1) == walked.push(tp@));
        merged.insert(tp.clone(), (low, high));
    }
    assert(highs.keys().take(highs.keys().len() as int) == highs.keys());
    let lows_len: usize = lows.len();
    for i in 0..lows_len
        invariant
            lows_len == lows.keys().len(),
            lows.wf(),
            highs.wf(),
            merged.wf(),
            goal == merged_watermarks(lows@, highs@),
            lows.keys().len() == lows.values().len(),
            forall|j: int| #![trigger lows.keys()[j]]
                0 <= j < lows.keys().len() ==> {
                    &&& lows@.contains_key(lows.keys()[j])
                    &&& lows@[lows.keys()[j]] == lows.values()[j]
                },
            forall|tp: (Seq<char>, int)| #[trigger]
                merged@.contains_key(tp) <==> highs@.contains_key(tp) || lows.keys().take(
                    i as int,
                ).contains(tp),
            forall|tp: (Seq<char>, int)| #[trigger]
                merged@.contains_key(tp) ==> merged@[tp] == goal[tp],
    {
        broadcast use vstd::seq_lib::lemma_seq_contains_after_push;

        let tp = lows.key_at(i);
        let low = *lows.value_at(i);
        let ghost walked = lows.keys().take(i as int);
        assert(lows.keys().take(i + 1) == walked.push(tp@));
        if merged.get(tp).is_none() {
            merged.insert(tp.clone(), (low, low));
        }
    }
    assert(lows.keys().take(lows.keys().len() as int) == lows.keys());
    assert(merged@ =~= goal);
    merged
}

/// The merge knows exactly the partitions that one of its sides knows.
pub proof fn law_merge_covers_both(
    lows: Map<(Seq<char>, int), i64>,
    highs: Map<(Seq<char>, int), i64>,
    tp: (Seq<char>, int),
)
    ensures
        merged_watermarks(lows, highs).contains_key(tp) <==> lows.contains_key(tp)
            || highs.contains_key(tp),
{
}

/// A missing end is stood in for by the other end, never by a made-up offset.
pub proof fn law_missing_end_is_stood_in_for(
    lows: Map<(Seq<char>, int), i64>,
    highs: Map<(Seq<char>, int), i64>,
    tp: (Seq<char>, int),
)
    requires
        lows.contains_key(tp) != highs.contains_key(tp),
    ensures
        ({
            let known = if lows.contains_key(tp) {
                lows[tp]
            } else {
                highs[tp]
            };
            merged_watermarks(lows, highs)[tp] == (known, known)
        }),
{
}

/// Where both ends of a partition are known, the merge holds them as they came.
pub proof fn law_known_ends_are_kept(
    lows: Map<(Seq<char>, int), i64>,
    highs: Map<(Seq<char>, int), i64>,
    tp: (Seq<char>, int),
)
    requires
        lows.contains_key(tp),
        highs.contains_key(tp),
    ensures
        merged_watermarks(lows, highs)[tp] == (lows[tp], highs[tp]),
{
}

/// The low watermark never lies above the high one, if it did not in what came.
pub proof fn law_low_is_not_above_high(
    lows: Map<(Seq<char>, int), i64>,
    highs: Map<(Seq<char>, int), i64>,
    tp: (Seq<char>, int),
)
    requires
        merged_watermarks(lows, highs).contains_key(tp),
        lows.contains_key(tp) && highs.contains_key(tp) ==> lows[tp] <= highs[tp],
    ensures
        merged_watermarks(lows, highs)[tp].0 <= merged_watermarks(lows, highs)[tp].1,
{
}

} // verus!
