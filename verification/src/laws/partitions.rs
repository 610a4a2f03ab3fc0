//! Laws of partitions, of maps by partition and of watermarks.

use crate::error::KlagError;
use crate::kafka::client::{ByConversion, BySharing, KafkaClient, TopicPartition};
use crate::kafka::partition_map::PartitionMap;
use crate::kafka::watermarks::{merge_watermarks, WatermarkStep};
use std::sync::Arc;
use vstd::prelude::*;

verus! {

/// Whether two partitions have the same name and number.
pub open spec fn same_partition(a: TopicPartition, b: TopicPartition) -> bool {
    (*a.topic)@ == (*b.topic)@ && a.partition == b.partition
}

/// A partition keeps its topic's name and its number as they were given.
pub proof fn law_partitions_keep_what_they_are_given(
    text: &str,
    of_text: TopicPartition,
    owned: String,
    of_owned: TopicPartition,
    shared: Arc<str>,
    of_shared: TopicPartition,
    borrowed: &Arc<str>,
    of_borrowed: TopicPartition,
    partition: i32,
)
    requires
        call_ensures(TopicPartition::new::<ByConversion, &str>, (text, partition), of_text),
        call_ensures(TopicPartition::new::<ByConversion, String>, (owned, partition), of_owned),
        call_ensures(TopicPartition::new::<ByConversion, Arc<str>>, (shared, partition), of_shared),
        call_ensures(
            TopicPartition::new::<BySharing, &Arc<str>>,
            (borrowed, partition),
            of_borrowed,
        ),
    ensures
        (*of_text.topic)@ == text@,
        of_text.partition == partition,
        (*of_owned.topic)@ == owned@,
        of_owned.partition == partition,
        of_shared.topic == shared,
        of_shared.partition == partition,
        of_borrowed.topic == *borrowed,
        of_borrowed.partition == partition,
{
}

/// Partitions are equal where their names and their numbers are, and a copy is equal.
pub proof fn law_equal_partitions(
    a: TopicPartition,
    b: TopicPartition,
    same: bool,
    duplicate: TopicPartition,
)
    requires
        call_ensures(<TopicPartition as PartialEq>::eq, (&a, &b), same),
        call_ensures(<TopicPartition as Clone>::clone, (&a,), duplicate),
    ensures
        same <==> same_partition(a, b),
        same_partition(a, duplicate),
{
}

/// A new map holds nothing. An insertion sets the value of its key and of no other.
pub proof fn law_partition_maps<V>(
    fresh: PartitionMap<V>,
    fresh_len: usize,
    map: &mut PartitionMap<V>,
    key: TopicPartition,
    value: V,
    asked: TopicPartition,
    in_fresh: Option<&V>,
    before: Option<&V>,
    later: Option<&V>,
    before_len: usize,
    later_len: usize,
    known: Option<&V>,
)
    requires
        call_ensures(PartitionMap::<V>::new, (), fresh),
        call_ensures(PartitionMap::<V>::len, (&fresh,), fresh_len),
        call_ensures(PartitionMap::<V>::get, (&fresh, &asked), in_fresh),
        call_ensures(PartitionMap::<V>::insert, (map, key, value), ()),
        call_ensures(PartitionMap::<V>::get, (old(map), &asked), before),
        call_ensures(PartitionMap::<V>::get, (old(map), &key), known),
        call_ensures(PartitionMap::<V>::get, (final(map), &asked), later),
        call_ensures(PartitionMap::<V>::len, (old(map),), before_len),
        call_ensures(PartitionMap::<V>::len, (final(map),), later_len),
        old(map).wf(),
    ensures
        in_fresh is None,
        fresh_len == 0,
        same_partition(asked, key) ==> (later matches Some(v) && *v == value),
        !same_partition(asked, key) ==> match before {
            Some(v) => later matches Some(w) && *w == *v,
            None => later is None,
        },
        known is Some ==> later_len == before_len,
        known is None ==> later_len == before_len + 1,
{
    old(map).lemma_walk();
    final(map).lemma_walk();
}

/// A walk through a map meets every key with its value.
pub proof fn law_walks_meet_every_key<V>(
    map: PartitionMap<V>,
    len: usize,
    i: usize,
    key: &TopicPartition,
    value: &V,
    found: Option<&V>,
    asked: TopicPartition,
    answer: Option<&V>,
)
    requires
        map.wf(),
        call_ensures(PartitionMap::<V>::len, (&map,), len),
        i < len,
        call_ensures(PartitionMap::<V>::key_at, (&map, i), key),
        call_ensures(PartitionMap::<V>::value_at, (&map, i), value),
        call_ensures(PartitionMap::<V>::get, (&map, key), found),
        call_ensures(PartitionMap::<V>::get, (&map, &asked), answer),
    ensures
        found matches Some(v) && *v == *value,
        answer is Some <==> exists|j: int|
            0 <= j < len && #[trigger] map.keys()[j] == ((*asked.topic)@, asked.partition as int),
        call_requires(PartitionMap::<V>::key_at, (&map, i)),
        call_requires(PartitionMap::<V>::value_at, (&map, i)),
{
    map.lemma_walk();
    let _ = map.keys()[i as int];
}

/// Merging keeps both ends of a partition where they are known, stands in for a missing
/// end with the other, and makes up no partition.
pub proof fn law_merged_ends(
    lows: &PartitionMap<i64>,
    highs: &PartitionMap<i64>,
    merged: PartitionMap<(i64, i64)>,
    tp: &TopicPartition,
    low: Option<&i64>,
    high: Option<&i64>,
    both: Option<&(i64, i64)>,
)
    requires
        call_ensures(merge_watermarks, (lows, highs), merged),
        call_ensures(PartitionMap::<i64>::get, (lows, tp), low),
        call_ensures(PartitionMap::<i64>::get, (highs, tp), high),
        call_ensures(PartitionMap::<(i64, i64)>::get, (&merged, tp), both),
    ensures
        both is Some <==> low is Some || high is Some,
        low is Some && high is Some ==> *both->0 == (*low->0, *high->0),
        low is Some && high is None ==> *both->0 == (*low->0, *low->0),
        low is None && high is Some ==> *both->0 == (*high->0, *high->0),
        merged.wf(),
{
}

/// A fetch of watermarks asks for the earliest offsets of all its partitions, then for
/// their latest, and then gives both ends merged. No call is made for no partitions, and
/// an error of either call is the result.
pub proof fn law_watermarks_take_two_calls<'a, A, C>(
    client: &KafkaClient<A, C>,
    partitions: &'a [TopicPartition],
    first: WatermarkStep<'a>,
    lows: Result<PartitionMap<i64>, KlagError>,
    second: WatermarkStep<'a>,
    highs: Result<PartitionMap<i64>, KlagError>,
    last: WatermarkStep<'a>,
    tp: &TopicPartition,
    low: Option<&i64>,
    high: Option<&i64>,
    both: Option<&(i64, i64)>,
)
    requires
        call_ensures(
            KafkaClient::<A, C>::fetch_watermarks_for_partitions,
            (client, partitions),
            first,
        ),
        first matches WatermarkStep::Query { then_with, .. } ==> call_ensures(
            KafkaClient::<A, C>::watermarks_fetched,
            (client, then_with, lows),
            second,
        ),
        second matches WatermarkStep::Query { then_with, .. } ==> call_ensures(
            KafkaClient::<A, C>::watermarks_fetched,
            (client, then_with, highs),
            last,
        ),
        lows matches Ok(map) ==> call_ensures(PartitionMap::<i64>::get, (&map, tp), low),
        highs matches Ok(map) ==> call_ensures(PartitionMap::<i64>::get, (&map, tp), high),
        last matches WatermarkStep::Done(Ok(map)) ==> call_ensures(
            PartitionMap::<(i64, i64)>::get,
            (&map, tp),
            both,
        ),
    ensures
        partitions@.len() == 0 ==> {
            &&& first matches WatermarkStep::Done(Ok(none))
            &&& forall|key: (Seq<char>, int)| !none@.contains_key(key)
        },
        partitions@.len() > 0 ==> {
            &&& first matches WatermarkStep::Query { partitions: asked, offsets, .. }
            &&& asked@ == partitions@
            &&& offsets is Earliest
            &&& lows matches Err(e) ==> (second matches WatermarkStep::Done(Err(k)) && k == e)
            &&& lows is Ok ==> {
                &&& second matches WatermarkStep::Query { partitions: asked, offsets, .. }
                &&& asked@ == partitions@
                &&& offsets is Latest
                &&& highs matches Err(e) ==> (last matches WatermarkStep::Done(Err(k)) && k == e)
                &&& highs is Ok ==> {
                    &&& last matches WatermarkStep::Done(Ok(_))
                    &&& both is Some <==> low is Some || high is Some
                    &&& low is Some && high is Some ==> *both->0 == (*low->0, *high->0)
                    &&& low is Some && high is None ==> *both->0 == (*low->0, *low->0)
                    &&& low is None && high is Some ==> *both->0 == (*high->0, *high->0)
                }
            }
        },
{
}

} // verus!
