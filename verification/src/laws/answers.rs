//! Laws of what the brokers' answers mean.

use crate::error::KlagError;
use crate::kafka::client::{
    BatchedGroup, ConsumerGroupInfo, GroupDescription, GroupListing, KafkaClient,
};
use crate::kafka::compaction::{
    compacted, compacted_topics, enables_compaction, shows_compacted, texts, ConfigEntry,
    ConfigQuery, ConfigResource, ResourceSpecifier,
};
use crate::laws::values::lemma_occurs;
use rdkafka::error::KafkaError;
use vstd::prelude::*;

verus! {

/// Every group of a listing is listed, in its place, with what the listing says of it; a
/// failed listing gives its error.
pub proof fn law_every_group_is_listed<A, C>(
    client: &KafkaClient<A, C>,
    fetched: Result<Vec<GroupListing>, KafkaError>,
    groups: Result<Vec<ConsumerGroupInfo>, KlagError>,
)
    requires
        call_ensures(KafkaClient::<A, C>::list_consumer_groups, (client, fetched), groups),
    ensures
        fetched matches Err(e) ==> (groups matches Err(KlagError::Kafka(k)) && k == e),
        fetched matches Ok(listings) ==> {
            &&& groups matches Ok(infos)
            &&& infos@.len() == listings@.len()
            &&& forall|i: int|
                0 <= i < listings@.len() ==> {
                    &&& (#[trigger] infos@[i]).group_id@ == listings@[i].name@
                    &&& infos@[i].protocol_type@ == listings@[i].protocol_type@
                    &&& infos@[i].state@ == listings@[i].state@
                }
        },
{
    if let (Ok(listings), Ok(infos)) = (fetched, groups) {
        assert forall|i: int| 0 <= i < listings@.len() implies {
            &&& (#[trigger] infos@[i]).group_id@ == listings@[i].name@
            &&& infos@[i].protocol_type@ == listings@[i].protocol_type@
            &&& infos@[i].state@ == listings@[i].state@
        } by {
            let _ = listings@[i];
        }
    }
}

/// Every group of a description is described, in its place, with all its members in their
/// places, and every member with all its assignments in theirs; a failed description gives
/// its error.
pub proof fn law_every_member_keeps_its_assignments<A, C>(
    client: &KafkaClient<A, C>,
    batched: Result<Vec<BatchedGroup>, KlagError>,
    groups: Result<Vec<GroupDescription>, KlagError>,
)
    requires
        call_ensures(KafkaClient::<A, C>::describe_consumer_groups, (client, batched), groups),
    ensures
        batched matches Err(e) ==> (groups matches Err(k) && k == e),
        batched matches Ok(all) ==> {
            &&& groups matches Ok(described)
            &&& described@.len() == all@.len()
            &&& forall|i: int|
                0 <= i < all@.len() ==> {
                    &&& (#[trigger] described@[i]).group_id@ == all@[i].group_id@
                    &&& described@[i].state@ == all@[i].state@
                    &&& described@[i].protocol_type@.len() == 0
                    &&& described@[i].protocol@.len() == 0
                    &&& described@[i].members@.len() == all@[i].members@.len()
                }
            &&& forall|i: int, j: int|
                0 <= i < all@.len() && 0 <= j < all@[i].members@.len() ==> {
                    &&& (#[trigger] described@[i].members@[j]).member_id@
                        == all@[i].members@[j].member_id@
                    &&& described@[i].members@[j].client_id@ == all@[i].members@[j].client_id@
                    &&& described@[i].members@[j].client_host@ == all@[i].members@[j].client_host@
                    &&& described@[i].members@[j].assignments@.len()
                        == all@[i].members@[j].assignments@.len()
                }
            &&& forall|i: int, j: int, k: int|
                0 <= i < all@.len() && 0 <= j < all@[i].members@.len() && 0 <= k
                    < all@[i].members@[j].assignments@.len() ==> {
                    &&& (*(#[trigger] described@[i].members@[j].assignments@[k]).topic)@ == (
                    *all@[i].members@[j].assignments@[k].topic)@
                    &&& described@[i].members@[j].assignments@[k].partition
                        == all@[i].members@[j].assignments@[k].partition
                }
        },
{
    if let (Ok(all), Ok(described)) = (batched, groups) {
        assert forall|i: int| 0 <= i < all@.len() implies {
            &&& (#[trigger] described@[i]).group_id@ == all@[i].group_id@
            &&& described@[i].state@ == all@[i].state@
            &&& described@[i].protocol_type@.len() == 0
            &&& described@[i].protocol@.len() == 0
            &&& described@[i].members@.len() == all@[i].members@.len()
        } by {
            let _ = all@[i];
        }
        assert forall|i: int, j: int|
            0 <= i < all@.len() && 0 <= j < all@[i].members@.len() implies {
            &&& (#[trigger] described@[i].members@[j]).member_id@ == all@[i].members@[j].member_id@
            &&& described@[i].members@[j].client_id@ == all@[i].members@[j].client_id@
            &&& described@[i].members@[j].client_host@ == all@[i].members@[j].client_host@
            &&& described@[i].members@[j].assignments@ == all@[i].members@[j].assignments@
        } by {
            let _ = all@[i].members@[j];
        }
        assert forall|i: int, j: int, k: int|
            0 <= i < all@.len() && 0 <= j < all@[i].members@.len() && 0 <= k
                < all@[i].members@[j].assignments@.len() implies {
            &&& (*(#[trigger] described@[i].members@[j].assignments@[k]).topic)@ == (
            *all@[i].members@[j].assignments@[k].topic)@
            &&& described@[i].members@[j].assignments@[k].partition
                == all@[i].members@[j].assignments@[k].partition
        } by {
            let _ = described@[i].members@[j];
        }
    }
}

/// A copy of a group says what the group says, of itself, of every member and of every
/// assignment.
pub proof fn law_copies_of_groups(
    info: &ConsumerGroupInfo,
    copied_info: ConsumerGroupInfo,
    group: &GroupDescription,
    copied: GroupDescription,
    j: int,
    k: int,
)
    requires
        call_ensures(<ConsumerGroupInfo as Clone>::clone, (info,), copied_info),
        call_ensures(<GroupDescription as Clone>::clone, (group,), copied),
    ensures
        copied_info.group_id@ == info.group_id@,
        copied_info.protocol_type@ == info.protocol_type@,
        copied_info.state@ == info.state@,
        copied.group_id@ == group.group_id@,
        copied.state@ == group.state@,
        copied.protocol_type@ == group.protocol_type@,
        copied.protocol@ == group.protocol@,
        copied.members@.len() == group.members@.len(),
        0 <= j < group.members@.len() ==> {
            &&& copied.members@[j].member_id@ == group.members@[j].member_id@
            &&& copied.members@[j].client_id@ == group.members@[j].client_id@
            &&& copied.members@[j].client_host@ == group.members@[j].client_host@
            &&& copied.members@[j].assignments@.len() == group.members@[j].assignments@.len()
        },
        0 <= j < group.members@.len() && 0 <= k < group.members@[j].assignments@.len() ==> {
            let was = group.members@[j].assignments@[k];
            let is_now = copied.members@[j].assignments@[k];
            &&& (*is_now.topic)@ == (*was.topic)@
            &&& is_now.partition == was.partition
        },
{
    let _ = group.members@[j];
}

/// Metadata is what was fetched, and a failed fetch its error.
pub proof fn law_metadata_is_what_was_fetched<A, C, M>(
    client: &KafkaClient<A, C>,
    fetched: Result<M, KafkaError>,
    metadata: Result<M, KlagError>,
)
    requires
        call_ensures(KafkaClient::<A, C>::fetch_metadata::<M>, (client, fetched), metadata),
    ensures
        fetched matches Ok(m) ==> (metadata matches Ok(n) && n == m),
        fetched matches Err(e) ==> (metadata matches Err(KlagError::Kafka(k)) && k == e),
{
}

/// All topics that are named are asked about, in their order, and nothing is asked where
/// none is named.
pub proof fn law_named_topics_are_asked_about<A, C>(
    client: &KafkaClient<A, C>,
    topic_names: &[String],
    query: Option<ConfigQuery>,
)
    requires
        call_ensures(KafkaClient::<A, C>::config_query, (client, topic_names), query),
    ensures
        query is None <==> topic_names@.len() == 0,
        query matches Some(q) ==> {
            &&& q.topics@.len() == topic_names@.len()
            &&& forall|i: int|
                0 <= i < topic_names@.len() ==> (#[trigger] q.topics@[i])@ == topic_names@[i]@
        },
{
}

/// Whether an entry is a cleanup policy that is "compact" with something
/// before and after it, or nothing.
pub open spec fn is_compact_policy(entry: ConfigEntry) -> bool {
    &&& entry.name@ == "cleanup.policy"@
    &&& entry.value matches Some(value)
    &&& exists|before: Seq<char>, after: Seq<char>|
        value@ == #[trigger] (before + "compact"@ + after)
}

/// Whether a topic is among those that are named.
pub open spec fn names(topics: Vec<String>, topic: Seq<char>) -> bool {
    exists|k: int| 0 <= k < topics@.len() && (#[trigger] topics@[k])@ == topic
}

/// Whether entry `j` of description `i`, which is one of this topic, is a compact policy.
pub open spec fn compact_at(
    described: Seq<Result<ConfigResource, String>>,
    topic: Seq<char>,
    i: int,
    j: int,
) -> bool {
    &&& 0 <= i < described.len()
    &&& described[i] matches Ok(resource)
    &&& resource.specifier matches ResourceSpecifier::Topic(name)
    &&& name@ == topic
    &&& 0 <= j < resource.entries@.len()
    &&& is_compact_policy(resource.entries@[j])
}

/// A topic is found compacted where any entry of any description of it, wherever it stands
/// and however many there are, is a compact cleanup policy; no other topic is, and none is
/// named twice.
pub proof fn law_any_compact_policy_counts(
    described: &Vec<Result<ConfigResource, String>>,
    topics: Vec<String>,
    topic: Seq<char>,
)
    requires
        call_ensures(compacted_topics, (described,), topics),
    ensures
        names(topics, topic) <==> exists|i: int, j: int| compact_at(described@, topic, i, j),
        forall|k: int, l: int|
            0 <= k < l < topics@.len() ==> (#[trigger] topics@[k])@ != (#[trigger] topics@[l])@,
{
    lemma_compact_policies();
    lemma_names(topics, topic);
    assert(texts(topics@).contains(topic) <==> compacted(described@, topic));
    if exists|i: int, j: int| compact_at(described@, topic, i, j) {
        let (i, j) = choose|i: int, j: int| compact_at(described@, topic, i, j);
        assert(enables_compaction(described@[i]->Ok_0.entries@[j]));
        assert(shows_compacted(described@[i], topic));
    }
    if compacted(described@, topic) {
        let i = choose|i: int|
            0 <= i < described@.len() && shows_compacted(#[trigger] described@[i], topic);
        let entries = described@[i]->Ok_0.entries@;
        let j = choose|j: int| 0 <= j < entries.len() && enables_compaction(#[trigger] entries[j]);
        assert(compact_at(described@, topic, i, j));
    }
    assert forall|k: int, l: int| 0 <= k < l < topics@.len() implies (#[trigger] topics@[k])@ != (
    #[trigger] topics@[l])@ by {
        assert(texts(topics@)[k] != texts(topics@)[l]);
    }
}

/// More entries in a description, and more descriptions, never take a topic out of the
/// result.
pub proof fn law_more_is_never_less_compacted(
    described: &Vec<Result<ConfigResource, String>>,
    topics: Vec<String>,
    more: &Vec<Result<ConfigResource, String>>,
    found: Vec<String>,
    topic: Seq<char>,
)
    requires
        call_ensures(compacted_topics, (described,), topics),
        call_ensures(compacted_topics, (more,), found),
        described@.len() <= more@.len(),
        forall|i: int|
            0 <= i < described@.len() && (#[trigger] described@[i]) is Ok ==> {
                &&& more@[i] is Ok
                &&& more@[i]->Ok_0.specifier == described@[i]->Ok_0.specifier
                &&& forall|j: int|
                    0 <= j < described@[i]->Ok_0.entries@.len() ==> more@[i]->Ok_0.entries@.contains(
                        #[trigger] described@[i]->Ok_0.entries@[j],
                    )
            },
        names(topics, topic),
    ensures
        names(found, topic),
{
    law_any_compact_policy_counts(described, topics, topic);
    law_any_compact_policy_counts(more, found, topic);
    let (i, j) = choose|i: int, j: int| compact_at(described@, topic, i, j);
    let entry = described@[i]->Ok_0.entries@[j];
    assert(more@[i]->Ok_0.entries@.contains(entry));
    let l = more@[i]->Ok_0.entries@.index_of(entry);
    assert(compact_at(more@, topic, i, l));
}

proof fn lemma_compact_policies()
    ensures
        forall|entry: ConfigEntry| #[trigger]
            enables_compaction(entry) == is_compact_policy(entry),
{
    assert forall|entry: ConfigEntry| #[trigger]
        enables_compaction(entry) == is_compact_policy(entry) by {
        if let Some(value) = entry.value {
            lemma_occurs(value@, "compact"@);
        }
    }
}

/// A client finds the topics compacted that their descriptions show to be; it finds none
/// where nothing was asked, and gives the error of a failed description.
pub proof fn law_a_client_finds_the_compacted_topics<A, C>(
    client: &KafkaClient<A, C>,
    described: Option<Result<Vec<Result<ConfigResource, String>>, KafkaError>>,
    found: Result<Vec<String>, KlagError>,
    topics: Vec<String>,
)
    requires
        call_ensures(KafkaClient::<A, C>::fetch_compacted_topics_for, (client, described), found),
        described matches Some(Ok(all)) ==> call_ensures(compacted_topics, (&all,), topics),
    ensures
        described is None ==> (found matches Ok(none) && none@.len() == 0),
        described matches Some(Err(e)) ==> (found matches Err(KlagError::Kafka(k)) && k == e),
        described matches Some(Ok(all)) ==> {
            &&& found matches Ok(named)
            &&& forall|topic: Seq<char>| #[trigger] names(named, topic) <==> names(topics, topic)
            &&& forall|k: int, l: int|
                0 <= k < l < named@.len() ==> (#[trigger] named@[k])@ != (#[trigger] named@[l])@
        },
{
    if let (Some(Ok(all)), Ok(named)) = (described, found) {
        assert forall|topic: Seq<char>| #[trigger] names(named, topic) <==> names(
            topics,
            topic,
        ) by {
            lemma_names(named, topic);
            lemma_names(topics, topic);
        }
        assert forall|k: int, l: int| 0 <= k < l < named@.len() implies (#[trigger] named@[k])@ != (
        #[trigger] named@[l])@ by {
            assert(texts(named@)[k] != texts(named@)[l]);
        }
    }
}

proof fn lemma_names(topics: Vec<String>, topic: Seq<char>)
    ensures
        names(topics, topic) == texts(topics@).contains(topic),
{
    if names(topics, topic) {
        let k = choose|k: int| 0 <= k < topics@.len() && (#[trigger] topics@[k])@ == topic;
        assert(texts(topics@)[k] == topic);
    }
    if texts(topics@).contains(topic) {
        let k = texts(topics@).index_of(topic);
        assert(topics@[k]@ == topic);
    }
}

} // verus!
