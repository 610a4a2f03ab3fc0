//! What the operations take: every argument of their types, but for what their laws name.

use crate::cluster::manager::ClusterManager;
use crate::config::{ClusterConfig, PerformanceConfig, StringMap};
use crate::duration::Duration;
use crate::error::{kafka_result, KlagError};
use crate::kafka::auth::{
    apply_msk_iam_sasl, build_token_provider, KlagContext, MskIamSupport, MskIamTokenProvider,
    OAuthTokenProvider, SigningOutcome,
};
use crate::kafka::client::{
    client_configs, create_clients, BatchedGroup, ClientSetup, GroupListing, KafkaClient,
    PendingAdmin, PendingConsumer, TopicName, TopicPartition, UnsharedSetup,
};
use crate::kafka::compaction::{compacted_topics, ConfigResource};
use crate::kafka::partition_map::PartitionMap;
use crate::kafka::watermarks::{merge_watermarks, WatermarkStep};
use crate::memory::read_resident_pages;
use crate::text::{contains_text, same_text, second_word_u64};
use rdkafka::config::ClientConfig;
use rdkafka::error::KafkaError;
use std::sync::Arc;
use vstd::prelude::*;

verus! {

/// Any texts can be compared, searched and read.
pub proof fn law_every_text_is_taken(a: &str, b: &str, statm: Option<&str>)
    ensures
        call_requires(same_text, (a, b)),
        call_requires(contains_text, (a, b)),
        call_requires(second_word_u64, (a,)),
        call_requires(read_resident_pages, (statm,)),
{
}

/// Any spans can be told and compared. One can be made of any seconds and of nanoseconds
/// short of a second, any but a longer one can be taken away, and all up to half the
/// longest can be doubled.
pub proof fn law_every_span_is_taken(secs: u64, nanos: u32, a: Duration, b: Duration)
    ensures
        nanos < 1_000_000_000 ==> call_requires(Duration::new, (secs, nanos)),
        call_requires(Duration::from_secs, (secs,)),
        call_requires(Duration::as_secs, (&a,)),
        call_requires(Duration::subsec_nanos, (&a,)),
        call_requires(Duration::as_millis, (&a,)),
        call_requires(Duration::exceeds, (&a, &b)),
        call_requires(Duration::min, (a, b)),
        call_requires(Duration::halved, (a,)),
        b@ <= a@ ==> call_requires(Duration::minus, (a, b)),
        2 * a@ <= 18_446_744_073_709_551_615_999_999_999 ==> call_requires(Duration::doubled, (a,)),
{
}

/// Any keys and values can be mapped, and any map asked and copied.
pub proof fn law_every_entry_is_taken(
    m: &mut StringMap,
    key: String,
    value: String,
    asked: &str,
    config: &ClusterConfig,
)
    ensures
        call_requires(StringMap::new, ()),
        call_requires(StringMap::insert, (m, key, value)),
        call_requires(StringMap::get, (old(m), asked)),
        call_requires(<StringMap as Clone>::clone, (old(m),)),
        call_requires(<ClusterConfig as Clone>::clone, (config,)),
        call_requires(PerformanceConfig::default, ()),
{
}

/// A copy of a cluster's configuration says what the configuration says.
pub proof fn law_copies_of_configurations(
    config: &ClusterConfig,
    duplicate: ClusterConfig,
    key: &str,
    property: Option<&String>,
    copied_property: Option<&String>,
    label: Option<&String>,
    copied_label: Option<&String>,
)
    requires
        call_ensures(<ClusterConfig as Clone>::clone, (config,), duplicate),
        call_ensures(StringMap::get, (&config.consumer_properties, key), property),
        call_ensures(StringMap::get, (&duplicate.consumer_properties, key), copied_property),
        call_ensures(StringMap::get, (&config.labels, key), label),
        call_ensures(StringMap::get, (&duplicate.labels, key), copied_label),
    ensures
        duplicate.name@ == config.name@,
        duplicate.bootstrap_servers@ == config.bootstrap_servers@,
        match property {
            Some(value) => copied_property matches Some(v) && v@ == value@,
            None => copied_property is None,
        },
        match label {
            Some(value) => copied_label matches Some(v) && v@ == value@,
            None => copied_label is None,
        },
        match config.aws_msk_iam {
            Some(iam) => {
                &&& duplicate.aws_msk_iam matches Some(copied)
                &&& match iam.region {
                    Some(region) => copied.region matches Some(r) && r@ == region@,
                    None => copied.region is None,
                }
            },
            None => duplicate.aws_msk_iam is None,
        },
{
}

/// Any configuration and environment can be signed in with, and any answer be passed on.
pub proof fn law_every_way_to_sign_in_is_taken(
    config: &ClusterConfig,
    support: MskIamSupport,
    region: Option<String>,
    aws_region: Option<String>,
    aws_default_region: Option<String>,
    provider: &MskIamTokenProvider,
    outcome: SigningOutcome,
    client_config: &mut ClientConfig,
    given: Option<Arc<dyn OAuthTokenProvider>>,
    context: &KlagContext,
    asked_with: Option<&str>,
)
    ensures
        call_requires(build_token_provider, (config, support)),
        call_requires(MskIamTokenProvider::new, (region, aws_region, aws_default_region)),
        call_requires(MskIamTokenProvider::region, (provider,)),
        call_requires(MskIamTokenProvider::signing_request, (provider,)),
        call_requires(MskIamTokenProvider::generate, (provider, outcome)),
        call_requires(apply_msk_iam_sasl, (config, client_config)),
        call_requires(KlagContext::new, (given,)),
        call_requires(KlagContext::generate_oauth_token, (context, asked_with)),
{
}

/// Any name and number make a partition, and any partitions can be compared and copied.
pub proof fn law_every_partition_is_taken<How, T: TopicName<How>>(
    topic: T,
    partition: i32,
    a: &TopicPartition,
    b: &TopicPartition,
)
    ensures
        call_requires(TopicPartition::new::<How, T>, (topic, partition)),
        call_requires(<TopicPartition as PartialEq>::eq, (a, b)),
        call_requires(<TopicPartition as Clone>::clone, (a,)),
{
}

/// A new map, and one that anything was inserted into, can be asked and takes any key.
pub proof fn law_every_key_is_taken<V>(
    fresh: PartitionMap<V>,
    first: &mut PartitionMap<V>,
    any: &mut PartitionMap<V>,
    key: TopicPartition,
    value: V,
    later: &mut PartitionMap<V>,
    asked: TopicPartition,
    next: V,
    i: usize,
    len: usize,
)
    requires
        call_ensures(PartitionMap::<V>::new, (), fresh),
        *old(first) == fresh,
        call_ensures(PartitionMap::<V>::insert, (any, key, value), ()),
        *old(later) == *final(any),
        call_ensures(PartitionMap::<V>::len, (old(later),), len),
    ensures
        call_requires(PartitionMap::<V>::new, ()),
        call_requires(PartitionMap::<V>::insert, (first, asked, next)),
        call_requires(PartitionMap::<V>::get, (old(first), &asked)),
        call_requires(PartitionMap::<V>::len, (old(first),)),
        call_requires(PartitionMap::<V>::insert, (later, asked, next)),
        call_requires(PartitionMap::<V>::get, (old(later), &asked)),
        call_requires(PartitionMap::<V>::len, (old(later),)),
        i < len ==> call_requires(PartitionMap::<V>::key_at, (old(later), i)),
        i < len ==> call_requires(PartitionMap::<V>::value_at, (old(later), i)),
{
}

/// A walk keeps the order in which keys first came: an insertion leaves the keys that were
/// there in their places, and puts a new one behind them.
pub proof fn law_walks_keep_the_first_order<V>(
    map: &mut PartitionMap<V>,
    key: TopicPartition,
    value: V,
    known: Option<&V>,
    before_len: usize,
    i: usize,
    before: &TopicPartition,
    later: &TopicPartition,
)
    requires
        old(map).wf(),
        call_ensures(PartitionMap::<V>::insert, (map, key, value), ()),
        call_ensures(PartitionMap::<V>::get, (old(map), &key), known),
        call_ensures(PartitionMap::<V>::len, (old(map),), before_len),
        i < before_len ==> call_ensures(PartitionMap::<V>::key_at, (old(map), i), before),
        i < before_len || (i == before_len && known is None) ==> call_ensures(
            PartitionMap::<V>::key_at,
            (final(map), i),
            later,
        ),
    ensures
        i < before_len ==> (*later.topic)@ == (*before.topic)@ && later.partition
            == before.partition,
        i == before_len && known is None ==> (*later.topic)@ == (*key.topic)@ && later.partition
            == key.partition,
{
    old(map).lemma_walk();
    final(map).lemma_walk();
}

/// Any two maps of offsets can be merged, and any fetch of watermarks goes on with any
/// offsets that came, or with an error.
pub proof fn law_every_offset_is_taken<'a, A, C>(
    client: &KafkaClient<A, C>,
    partitions: &'a [TopicPartition],
    lows: PartitionMap<i64>,
    highs: PartitionMap<i64>,
    error: KlagError,
    first: WatermarkStep<'a>,
    second: WatermarkStep<'a>,
)
    requires
        lows.wf(),
        highs.wf(),
        call_ensures(
            KafkaClient::<A, C>::fetch_watermarks_for_partitions,
            (client, partitions),
            first,
        ),
        first matches WatermarkStep::Query { then_with, .. } ==> call_ensures(
            KafkaClient::<A, C>::watermarks_fetched,
            (client, then_with, Ok(lows)),
            second,
        ),
    ensures
        call_requires(merge_watermarks, (&lows, &highs)),
        call_requires(
            KafkaClient::<A, C>::fetch_watermarks_for_partitions,
            (client, partitions),
        ),
        first matches WatermarkStep::Query { then_with, .. } ==> {
            &&& call_requires(
                KafkaClient::<A, C>::watermarks_fetched,
                (client, then_with, Ok(lows)),
            )
            &&& call_requires(
                KafkaClient::<A, C>::watermarks_fetched,
                (client, then_with, Err(error)),
            )
            &&& second matches WatermarkStep::Query { then_with: last, .. } ==> {
                &&& call_requires(
                    KafkaClient::<A, C>::watermarks_fetched,
                    (client, last, Ok(highs)),
                )
                &&& call_requires(
                    KafkaClient::<A, C>::watermarks_fetched,
                    (client, last, Err(error)),
                )
            }
        },
{
}

/// Clients can be created and connected for any cluster, whatever becomes of it.
pub proof fn law_every_cluster_is_taken<A, C>(
    config: &ClusterConfig,
    performance: PerformanceConfig,
    given: Option<Arc<dyn OAuthTokenProvider>>,
    support: MskIamSupport,
    pending: PendingAdmin,
    admin: Result<A, KafkaError>,
    waiting: PendingConsumer<A>,
    consumer: Result<C, KafkaError>,
    unshared: UnsharedSetup,
    provider: Arc<dyn OAuthTokenProvider>,
    setup: ClientSetup,
    created: Result<(A, C), KlagError>,
)
    ensures
        call_requires(client_configs, (config,)),
        call_requires(create_clients::<A, C>, (config, given)),
        call_requires(PendingAdmin::admin_created::<A, C>, (pending, admin)),
        call_requires(PendingConsumer::<A>::consumer_created::<C>, (waiting, consumer)),
        call_requires(KafkaClient::<A, C>::new, (config, support)),
        call_requires(
            KafkaClient::<A, C>::with_performance,
            (config, performance, given, support),
        ),
        ({
            let args = (unshared, provider);
            call_requires(UnsharedSetup::provider_shared::<A, C>, args)
        }),
        call_requires(ClientSetup::finish::<A, C>, (setup, created)),
{
}

/// A client can be asked anything, takes any answer of the brokers, and any outcome of a
/// recycling.
pub proof fn law_every_answer_is_taken<'a, A, C, M>(
    client: &mut KafkaClient<A, C>,
    clients: Result<(A, C), KlagError>,
    listings: Result<Vec<GroupListing>, KafkaError>,
    group_ids: &'a [&'a str],
    parse_assignments: bool,
    max_concurrent_chunks: usize,
    batched: Result<Vec<BatchedGroup>, KlagError>,
    metadata: Result<M, KafkaError>,
    topic_names: &[String],
    described: Option<Result<Vec<Result<ConfigResource, String>>, KafkaError>>,
    resources: &Vec<Result<ConfigResource, String>>,
)
    ensures
        call_requires(KafkaClient::<A, C>::recycle, (client, clients)),
        call_requires(KafkaClient::<A, C>::start_recycling, (old(client),)),
        call_requires(KafkaClient::<A, C>::admin_handle, (old(client),)),
        call_requires(KafkaClient::<A, C>::consumer_handle, (old(client),)),
        call_requires(KafkaClient::<A, C>::performance, (old(client),)),
        call_requires(KafkaClient::<A, C>::cluster_name, (old(client),)),
        call_requires(KafkaClient::<A, C>::query_all, (old(client),)),
        call_requires(KafkaClient::<A, C>::admin_options, (old(client),)),
        call_requires(KafkaClient::<A, C>::list_consumer_groups, (old(client), listings)),
        call_requires(
            KafkaClient::<A, C>::describe_query,
            (old(client), group_ids, parse_assignments, max_concurrent_chunks),
        ),
        call_requires(KafkaClient::<A, C>::describe_consumer_groups, (old(client), batched)),
        call_requires(KafkaClient::<A, C>::fetch_metadata::<M>, (old(client), metadata)),
        call_requires(KafkaClient::<A, C>::config_query, (old(client), topic_names)),
        call_requires(KafkaClient::<A, C>::fetch_compacted_topics_for, (old(client), described)),
        call_requires(compacted_topics, (resources,)),
        call_requires(kafka_result::<M>, (metadata,)),
{
}

/// Any manager can begin a collection.
pub proof fn law_every_collection_can_begin<S, T>(m: &ClusterManager)
    ensures
        call_requires(ClusterManager::begin_collection::<S, T>, (m,)),
{
}

} // verus!
