//! Laws of the clients of a cluster: their settings, their creation and what they use.

use crate::config::{ClusterConfig, PerformanceConfig};
use crate::error::KlagError;
use crate::kafka::auth::{
    build_token_provider, KlagContext, MskIamSupport, MskIamTokenProvider, OAuthToken,
    OAuthTokenProvider, NO_TOKEN_PROVIDER,
};
use crate::kafka::client::{
    client_configs, create_clients, BrokerQuery, ClientConfigs, ClientSetup, ClientStep,
    CreateStep, DescribeQuery, KafkaClient, PendingAdmin, PendingConsumer, TopicPartition,
    UnsharedSetup,
};
use crate::kafka::compaction::{request_timeout_options, ConfigQuery};
use crate::kafka::partition_map::PartitionMap;
use crate::kafka::settings::settings_of;
use crate::kafka::watermarks::WatermarkStep;
use crate::laws::values::{latest, lemma_key_is_there, lemma_latest, told};
use rdkafka::admin::AdminOptions;
use rdkafka::error::KafkaError;
use std::sync::Arc;
use vstd::prelude::*;

verus! {

/// Whether a cluster's own properties set a key.
pub open spec fn sets(config: ClusterConfig, key: Seq<char>) -> bool {
    exists|i: int|
        0 <= i < config.consumer_properties.entries@.len() && (
        #[trigger] config.consumer_properties.entries@[i]).0@ == key
}

/// The lengths of the keys that the clients set, which tell nearly all of them apart.
proof fn lemma_keys()
    ensures
        "bootstrap.servers"@.len() == 17,
        "security.protocol"@.len() == 17,
        "bootstrap.servers"@ != "security.protocol"@,
        "client.id"@.len() == 9,
        "sasl.mechanism"@.len() == 14,
        "group.id"@.len() == 8,
        "enable.auto.commit"@.len() == 18,
        "queued.min.messages"@.len() == 19,
        "queued.max.messages.kbytes"@.len() == 26,
        "topic.metadata.refresh.interval.ms"@.len() == 34,
{
    reveal_strlit("bootstrap.servers");
    reveal_strlit("security.protocol");
    reveal_strlit("client.id");
    reveal_strlit("sasl.mechanism");
    reveal_strlit("group.id");
    reveal_strlit("enable.auto.commit");
    reveal_strlit("queued.min.messages");
    reveal_strlit("queued.max.messages.kbytes");
    reveal_strlit("topic.metadata.refresh.interval.ms");
    assert("bootstrap.servers"@[0] != "security.protocol"@[0]);
}

/// The admin client is created with what the cluster's own properties say, the last of
/// them first. What they leave open is where the cluster is, the client's name and what MSK
/// IAM needs; nothing else is set.
pub proof fn law_settings_of_the_admin_client(
    config: &ClusterConfig,
    configs: ClientConfigs,
    key: Seq<char>,
)
    requires
        call_ensures(client_configs, (config,), configs),
    ensures
        ({
            let own = config.consumer_properties.entries@;
            let set = settings_of(configs.admin);
            &&& forall|i: int| #[trigger]
                latest(own, key, i) ==> set.contains_key(key) && set[key] == own[i].1@
            &&& !sets(*config, "bootstrap.servers"@) ==> set.contains_key("bootstrap.servers"@)
                && set["bootstrap.servers"@] == config.bootstrap_servers@
            &&& !sets(*config, "client.id"@) ==> set.contains_key("client.id"@)
                && set["client.id"@] == "klag-exporter-"@ + config.name@
            &&& !sets(*config, "security.protocol"@) ==> {
                &&& set.contains_key("security.protocol"@) <==> config.aws_msk_iam is Some
                &&& config.aws_msk_iam is Some ==> set["security.protocol"@] == "SASL_SSL"@
            }
            &&& !sets(*config, "sasl.mechanism"@) ==> {
                &&& set.contains_key("sasl.mechanism"@) <==> config.aws_msk_iam is Some
                &&& config.aws_msk_iam is Some ==> set["sasl.mechanism"@] == "OAUTHBEARER"@
            }
            &&& set.contains_key(key) ==> {
                ||| sets(*config, key)
                ||| key == "bootstrap.servers"@
                ||| key == "client.id"@
                ||| key == "security.protocol"@
                ||| key == "sasl.mechanism"@
            }
        }),
{
    let own = config.consumer_properties.entries@;
    lemma_keys();
    lemma_latest(own, key);
    lemma_key_is_there(own, key);
    lemma_latest(own, "bootstrap.servers"@);
    lemma_key_is_there(own, "bootstrap.servers"@);
    lemma_latest(own, "client.id"@);
    lemma_key_is_there(own, "client.id"@);
    lemma_latest(own, "security.protocol"@);
    lemma_key_is_there(own, "security.protocol"@);
    lemma_latest(own, "sasl.mechanism"@);
    lemma_key_is_there(own, "sasl.mechanism"@);
}

/// The consumer has a group of its own, never commits, keeps little and refreshes rarely;
/// in everything else it is set as the admin client is.
pub proof fn law_settings_of_the_consumer(
    config: &ClusterConfig,
    configs: ClientConfigs,
    key: Seq<char>,
)
    requires
        call_ensures(client_configs, (config,), configs),
    ensures
        ({
            let admin = settings_of(configs.admin);
            let set = settings_of(configs.consumer);
            &&& set.contains_key("group.id"@)
            &&& set["group.id"@] == "klag-exporter-internal-"@ + config.name@
            &&& set.contains_key("enable.auto.commit"@)
            &&& set["enable.auto.commit"@] == "false"@
            &&& set.contains_key("queued.min.messages"@)
            &&& set["queued.min.messages"@] == "100"@
            &&& set.contains_key("queued.max.messages.kbytes"@)
            &&& set["queued.max.messages.kbytes"@] == "1024"@
            &&& set.contains_key("topic.metadata.refresh.interval.ms"@)
            &&& set["topic.metadata.refresh.interval.ms"@] == "600000"@
            &&& {
                ||| key == "group.id"@
                ||| key == "enable.auto.commit"@
                ||| key == "queued.min.messages"@
                ||| key == "queued.max.messages.kbytes"@
                ||| key == "topic.metadata.refresh.interval.ms"@
                ||| set.contains_key(key) == admin.contains_key(key) && set[key] == admin[key]
            }
        }),
{
    lemma_keys();
}

/// The admin client is created first, and the consumer only where that succeeded, each
/// with its settings and around the provider that was given. The result is both clients, or
/// the error of the first creation that failed.
pub proof fn law_clients_are_created_in_order<A, C>(
    config: &ClusterConfig,
    configs: ClientConfigs,
    given: Option<Arc<dyn OAuthTokenProvider>>,
    first: CreateStep<A, C>,
    admin: Result<A, KafkaError>,
    second: CreateStep<A, C>,
    consumer: Result<C, KafkaError>,
    last: CreateStep<A, C>,
    asked_with: Option<&str>,
    admin_answer: Result<OAuthToken, String>,
    consumer_answer: Result<OAuthToken, String>,
)
    requires
        call_ensures(client_configs, (config,), configs),
        call_ensures(create_clients::<A, C>, (config, given), first),
        first matches CreateStep::Admin { pending, .. } ==> call_ensures(
            PendingAdmin::admin_created::<A, C>,
            (pending, admin),
            second,
        ),
        second matches CreateStep::Consumer { waiting, .. } ==> call_ensures(
            PendingConsumer::<A>::consumer_created::<C>,
            (waiting, consumer),
            last,
        ),
        first matches CreateStep::Admin { context, .. } ==> call_ensures(
            KlagContext::generate_oauth_token,
            (&context, asked_with),
            admin_answer,
        ),
        second matches CreateStep::Consumer { context, .. } ==> call_ensures(
            KlagContext::generate_oauth_token,
            (&context, asked_with),
            consumer_answer,
        ),
    ensures
        first matches CreateStep::Admin { config: with, .. } && settings_of(with) == settings_of(
            configs.admin,
        ),
        given matches Some(provider) ==> provider.may_issue(admin_answer),
        given is None ==> (admin_answer matches Err(e) && e@ == NO_TOKEN_PROVIDER@),
        admin matches Err(e) ==> (second matches CreateStep::Done(Err(KlagError::Kafka(k))) && k
            == e),
        admin matches Ok(a) ==> {
            &&& second matches CreateStep::Consumer { config: with, .. }
            &&& settings_of(with) == settings_of(configs.consumer)
            &&& given matches Some(provider) ==> provider.may_issue(consumer_answer)
            &&& given is None ==> (consumer_answer matches Err(e) && e@ == NO_TOKEN_PROVIDER@)
            &&& consumer matches Err(e) ==> (last matches CreateStep::Done(
                Err(KlagError::Kafka(k)),
            ) && k == e)
            &&& consumer matches Ok(c) ==> (last matches CreateStep::Done(Ok(both)) && both == (
                a,
                c,
            ))
        },
{
}

/// Whether two creations begin in the same way, and so go on in the same way.
pub open spec fn begin_alike<A, C>(a: CreateStep<A, C>, b: CreateStep<A, C>) -> bool {
    &&& a matches CreateStep::Admin { config: a_config, context: a_context, pending: a_pending }
    &&& b matches CreateStep::Admin { config: b_config, context: b_context, pending: b_pending }
    &&& settings_of(a_config) == settings_of(b_config)
    &&& a_context.provider() == b_context.provider()
    &&& settings_of(a_pending.spec_consumer()) == settings_of(b_pending.spec_consumer())
    &&& a_pending.spec_token_provider() == b_pending.spec_token_provider()
}

/// Connecting uses the provider that is given. Without one it does what the configuration
/// says: it shares the signer that is built, goes on without one, or fails with the error
/// of building it.
pub proof fn law_connecting_follows_the_provider<A, C>(
    config: &ClusterConfig,
    performance: PerformanceConfig,
    given: Option<Arc<dyn OAuthTokenProvider>>,
    support: MskIamSupport,
    step: ClientStep<A, C>,
    fresh: CreateStep<A, C>,
    built: Result<Option<MskIamTokenProvider>, KlagError>,
    name: &str,
    built_name: &str,
)
    requires
        call_ensures(
            KafkaClient::<A, C>::with_performance,
            (config, performance, given, support),
            step,
        ),
        call_ensures(create_clients::<A, C>, (config, given), fresh),
        call_ensures(build_token_provider, (config, support), built),
        step matches ClientStep::ShareProvider { signer, .. } ==> call_ensures(
            MskIamTokenProvider::region,
            (&signer,),
            name,
        ),
        built matches Ok(Some(signer)) ==> call_ensures(
            MskIamTokenProvider::region,
            (&signer,),
            built_name,
        ),
    ensures
        given is Some ==> (step matches ClientStep::Create { first, .. } && begin_alike(
            first,
            fresh,
        )),
        given is None ==> match built {
            Ok(Some(signer)) => step is ShareProvider && name@ == built_name@,
            Ok(None) => step matches ClientStep::Create { first, .. } && begin_alike(first, fresh),
            Err(KlagError::Config(e)) => step matches ClientStep::Failed(KlagError::Config(k)) && k@
                == e@,
            Err(e) => step is Failed,
        },
{
}

/// Connecting with the defaults shares the signer that is built, creates the clients
/// without a provider, or fails with the error of building one, as the configuration says.
/// The client has the default limits, whichever way it went.
pub proof fn law_connecting_with_the_defaults<A, C>(
    config: &ClusterConfig,
    support: MskIamSupport,
    step: ClientStep<A, C>,
    built: Result<Option<MskIamTokenProvider>, KlagError>,
    name: &str,
    built_name: &str,
    provider: Arc<dyn OAuthTokenProvider>,
    given: Option<Arc<dyn OAuthTokenProvider>>,
    shared: ClientStep<A, C>,
    fresh: CreateStep<A, C>,
    created: Result<(A, C), KlagError>,
    made: Result<KafkaClient<A, C>, KlagError>,
    in_use: &PerformanceConfig,
    client_name: &str,
)
    requires
        call_ensures(KafkaClient::<A, C>::new, (config, support), step),
        call_ensures(build_token_provider, (config, support), built),
        step matches ClientStep::ShareProvider { signer, .. } ==> call_ensures(
            MskIamTokenProvider::region,
            (&signer,),
            name,
        ),
        built matches Ok(Some(signer)) ==> call_ensures(
            MskIamTokenProvider::region,
            (&signer,),
            built_name,
        ),
        step matches ClientStep::ShareProvider { unshared, .. } ==> ({
            let args = (unshared, provider);
            call_ensures(UnsharedSetup::provider_shared::<A, C>, args, shared)
        }),
        step is ShareProvider ==> (given matches Some(p) && p == provider),
        step is Create ==> given is None && shared == step,
        call_ensures(create_clients::<A, C>, (config, given), fresh),
        shared matches ClientStep::Create { setup, .. } ==> call_ensures(
            ClientSetup::finish::<A, C>,
            (setup, created),
            made,
        ),
        made matches Ok(client) ==> call_ensures(
            KafkaClient::<A, C>::performance,
            (&client,),
            in_use,
        ) && call_ensures(KafkaClient::<A, C>::cluster_name, (&client,), client_name),
    ensures
        built matches Ok(Some(signer)) ==> step is ShareProvider && name@ == built_name@,
        built matches Ok(None) ==> step is Create,
        built matches Err(KlagError::Config(e)) ==> (step matches ClientStep::Failed(
            KlagError::Config(k),
        ) && k@ == e@),
        built is Ok ==> {
            &&& shared matches ClientStep::Create { first, .. }
            &&& begin_alike(first, fresh)
            &&& created is Ok ==> {
                &&& made is Ok
                &&& client_name@ == config.name@
                &&& in_use.kafka_timeout@ == 30_000_000_000
                &&& in_use.offset_fetch_timeout@ == 10_000_000_000
                &&& in_use.max_concurrent_groups == 10
                &&& in_use.max_concurrent_watermarks == 50
                &&& in_use.client_recycle_interval == 50
            }
        },
{
}

/// A connection that shared a provider creates its clients around it, as it would have
/// with that provider given.
pub proof fn law_a_shared_provider_is_used<A, C>(
    config: &ClusterConfig,
    performance: PerformanceConfig,
    support: MskIamSupport,
    asked: ClientStep<A, C>,
    provider: Arc<dyn OAuthTokenProvider>,
    given: Option<Arc<dyn OAuthTokenProvider>>,
    step: ClientStep<A, C>,
    fresh: CreateStep<A, C>,
)
    requires
        given matches Some(p) && p == provider,
        call_ensures(
            KafkaClient::<A, C>::with_performance,
            (config, performance, None, support),
            asked,
        ),
        asked matches ClientStep::ShareProvider { unshared, .. } && ({
            let args = (unshared, provider);
            call_ensures(UnsharedSetup::provider_shared::<A, C>, args, step)
        }),
        call_ensures(create_clients::<A, C>, (config, given), fresh),
    ensures
        step matches ClientStep::Create { first, .. } && begin_alike(first, fresh),
{
}

/// What can be asked of a client, with the answers.
pub struct Asked<'a, A, C> {
    pub name: &'a str,
    pub performance: &'a PerformanceConfig,
    pub admin: Arc<A>,
    pub consumer: Arc<C>,
    pub recycling: CreateStep<A, C>,
    pub query: BrokerQuery,
    pub options: AdminOptions,
}

/// Whether these are answers of the client.
pub open spec fn answers<'a, A, C>(client: KafkaClient<A, C>, asked: Asked<'a, A, C>) -> bool {
    &&& call_ensures(KafkaClient::<A, C>::cluster_name, (&client,), asked.name)
    &&& call_ensures(KafkaClient::<A, C>::performance, (&client,), asked.performance)
    &&& call_ensures(KafkaClient::<A, C>::admin_handle, (&client,), asked.admin)
    &&& call_ensures(KafkaClient::<A, C>::consumer_handle, (&client,), asked.consumer)
    &&& call_ensures(KafkaClient::<A, C>::start_recycling, (&client,), asked.recycling)
    &&& call_ensures(KafkaClient::<A, C>::query_all, (&client,), asked.query)
    &&& call_ensures(KafkaClient::<A, C>::admin_options, (&client,), asked.options)
}

/// A client that was put together has the clients that were created, the name and the
/// limits that it was made with, and waits for answers as long as these say. Its fresh
/// clients are created as the first ones were. Where creating failed, that error is the
/// result.
pub proof fn law_a_client_is_what_it_was_made_of<'a, A, C>(
    config: &ClusterConfig,
    performance: PerformanceConfig,
    given: Option<Arc<dyn OAuthTokenProvider>>,
    support: MskIamSupport,
    step: ClientStep<A, C>,
    fresh: CreateStep<A, C>,
    created: Result<(A, C), KlagError>,
    made: Result<KafkaClient<A, C>, KlagError>,
    asked: Asked<'a, A, C>,
    secs: u64,
    nanos: u32,
)
    requires
        call_ensures(
            KafkaClient::<A, C>::with_performance,
            (config, performance, given, support),
            step,
        ),
        call_ensures(create_clients::<A, C>, (config, given), fresh),
        step matches ClientStep::Create { setup, .. } && call_ensures(
            ClientSetup::finish::<A, C>,
            (setup, created),
            made,
        ),
        made matches Ok(client) ==> answers(client, asked),
        told(performance.kafka_timeout, secs, nanos),
    ensures
        created matches Err(e) ==> (made matches Err(k) && k == e),
        created matches Ok((admin, consumer)) ==> {
            &&& made is Ok
            &&& asked.name@ == config.name@
            &&& *asked.performance == performance
            &&& *asked.admin == admin
            &&& *asked.consumer == consumer
            &&& begin_alike(asked.recycling, fresh)
            &&& asked.query.name is None
            &&& asked.query.timeout@ == performance.kafka_timeout@
            &&& asked.options == request_timeout_options(secs, nanos)
        },
{
}

/// The same holds of a client whose provider was shared on the way.
pub proof fn law_a_client_keeps_its_shared_provider<'a, A, C>(
    config: &ClusterConfig,
    performance: PerformanceConfig,
    support: MskIamSupport,
    begun: ClientStep<A, C>,
    provider: Arc<dyn OAuthTokenProvider>,
    given: Option<Arc<dyn OAuthTokenProvider>>,
    step: ClientStep<A, C>,
    fresh: CreateStep<A, C>,
    created: Result<(A, C), KlagError>,
    made: Result<KafkaClient<A, C>, KlagError>,
    asked: Asked<'a, A, C>,
    secs: u64,
    nanos: u32,
)
    requires
        given matches Some(p) && p == provider,
        call_ensures(
            KafkaClient::<A, C>::with_performance,
            (config, performance, None, support),
            begun,
        ),
        begun matches ClientStep::ShareProvider { unshared, .. } && ({
            let args = (unshared, provider);
            call_ensures(UnsharedSetup::provider_shared::<A, C>, args, step)
        }),
        call_ensures(create_clients::<A, C>, (config, given), fresh),
        step matches ClientStep::Create { setup, .. } && call_ensures(
            ClientSetup::finish::<A, C>,
            (setup, created),
            made,
        ),
        made matches Ok(client) ==> answers(client, asked),
        told(performance.kafka_timeout, secs, nanos),
    ensures
        created matches Err(e) ==> (made matches Err(k) && k == e),
        created matches Ok((admin, consumer)) ==> {
            &&& made is Ok
            &&& asked.name@ == config.name@
            &&& *asked.performance == performance
            &&& *asked.admin == admin
            &&& *asked.consumer == consumer
            &&& begin_alike(asked.recycling, fresh)
            &&& asked.query.timeout@ == performance.kafka_timeout@
            &&& asked.options == request_timeout_options(secs, nanos)
        },
{
}

/// Every call of a client waits equally long.
pub proof fn law_every_call_waits_equally_long<'a, A, C>(
    client: &KafkaClient<A, C>,
    query: BrokerQuery,
    group_ids: &'a [&'a str],
    parse_assignments: bool,
    max_concurrent_chunks: usize,
    describe: DescribeQuery<'a>,
    partitions: &'a [TopicPartition],
    first: WatermarkStep<'a>,
    lows: Result<PartitionMap<i64>, KlagError>,
    second: WatermarkStep<'a>,
    topic_names: &[String],
    asked: Option<ConfigQuery>,
    options: AdminOptions,
    secs: u64,
    nanos: u32,
)
    requires
        call_ensures(KafkaClient::<A, C>::query_all, (client,), query),
        call_ensures(
            KafkaClient::<A, C>::describe_query,
            (client, group_ids, parse_assignments, max_concurrent_chunks),
            describe,
        ),
        call_ensures(
            KafkaClient::<A, C>::fetch_watermarks_for_partitions,
            (client, partitions),
            first,
        ),
        first matches WatermarkStep::Query { then_with, .. } ==> call_ensures(
            KafkaClient::<A, C>::watermarks_fetched,
            (client, then_with, lows),
            second,
        ),
        call_ensures(KafkaClient::<A, C>::config_query, (client, topic_names), asked),
        call_ensures(KafkaClient::<A, C>::admin_options, (client,), options),
        told(query.timeout, secs, nanos),
    ensures
        describe.timeout@ == query.timeout@,
        first matches WatermarkStep::Query { timeout, .. } ==> timeout@ == query.timeout@,
        first is Query ==> (second matches WatermarkStep::Query { timeout, .. } ==> timeout@
            == query.timeout@),
        options == request_timeout_options(secs, nanos),
        asked matches Some(q) ==> q.options == request_timeout_options(secs, nanos),
{
}

/// Groups are described a hundred at a time: those that are asked for, with assignments and
/// with as many calls at once as wanted.
pub proof fn law_groups_are_described_as_asked<'a, A, C>(
    client: &KafkaClient<A, C>,
    group_ids: &'a [&'a str],
    parse_assignments: bool,
    max_concurrent_chunks: usize,
    query: DescribeQuery<'a>,
)
    requires
        call_ensures(
            KafkaClient::<A, C>::describe_query,
            (client, group_ids, parse_assignments, max_concurrent_chunks),
            query,
        ),
    ensures
        query.group_ids@ == group_ids@,
        query.chunk_size == 100,
        query.parse_assignments == parse_assignments,
        query.max_concurrent_chunks == max_concurrent_chunks,
{
}

/// Recycling puts both fresh clients to use, or keeps both old ones and gives the error;
/// nothing else about the client changes.
pub proof fn law_recycling_replaces_both_or_none<'a, A, C>(
    client: &mut KafkaClient<A, C>,
    clients: Result<(A, C), KlagError>,
    result: Result<(), KlagError>,
    before: Asked<'a, A, C>,
    later: Asked<'a, A, C>,
)
    requires
        call_ensures(KafkaClient::<A, C>::recycle, (client, clients), result),
        answers(*old(client), before),
        answers(*final(client), later),
    ensures
        clients matches Ok((admin, consumer)) ==> {
            &&& result is Ok
            &&& *later.admin == admin
            &&& *later.consumer == consumer
        },
        clients matches Err(e) ==> {
            &&& result matches Err(k)
            &&& k == e
            &&& later.admin == before.admin
            &&& later.consumer == before.consumer
        },
        later.name@ == before.name@,
        *later.performance == *before.performance,
        begin_alike(later.recycling, before.recycling),
        later.query.timeout@ == before.query.timeout@,
        later.options == before.options,
{
}

} // verus!
