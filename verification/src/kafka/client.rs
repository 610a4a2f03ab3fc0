//! The clients that one cluster is collected with.

use crate::config::{map_of, ClusterConfig, ClusterConfigView, PerformanceConfig};
use crate::duration::Duration;
use crate::error::{kafka_result, KlagError};
use crate::kafka::auth::{
    apply_msk_iam_sasl, build_token_provider, is_token_provider_of, with_iam_defaults, KlagContext,
    MskIamSupport, MskIamTokenProvider, OAuthTokenProvider,
};
use crate::kafka::compaction::{
    compacted, compacted_topics, options_with_timeout, request_timeout_options, texts, ConfigQuery,
    ConfigResource,
};
use crate::kafka::partition_map::PartitionMap;
use crate::kafka::settings::{copy_settings, no_settings, put_setting, settings_of, Settings};
use crate::kafka::watermarks::{
    merge_watermarks, merged_watermarks, OffsetSpec, WatermarkFetch, WatermarkStep,
};
use crate::text::same_text;
use rdkafka::admin::AdminOptions;
use rdkafka::config::ClientConfig;
use rdkafka::error::KafkaError;
use std::sync::Arc;
use vstd::prelude::*;

verus! {

/// std's conversion of a text into a shared one, which holds the same characters. A
/// `TopicPartition` made of a `&str` calls it.
pub assume_specification<'a>[ <Arc<str> as std::convert::From<&'a str>>::from ](x: &str) -> (made:
    Arc<str>)
    ensures
        (*made)@ == x@,
;

/// std's conversion of an owned text into a shared one, which holds the same characters. A
/// `TopicPartition` made of a `String` calls it.
pub assume_specification[ <Arc<str> as std::convert::From<String>>::from ](x: String) -> (made: Arc<
    str,
>)
    ensures
        (*made)@ == x@,
;

/// std's conversion of a value into its own type, which hands it back as it is. A
/// `TopicPartition` made of an `Arc<str>` calls it.
pub assume_specification<X>[ <X as std::convert::From<X>>::from ](x: X) -> (same: X)
    ensures
        same == x,
;

/// How a name becomes a shared text: by its own conversion.
pub struct ByConversion;

/// How a name becomes a shared text: it is one, and is shared once more.
pub struct BySharing;

/// What the name of a topic can be given as: whatever can be converted into an `Arc<str>`
/// (a `&str`, a `String`, an `Arc<str>` and so on), or a `&Arc<str>`. `How` tells the two
/// apart, and follows from the type.
pub trait TopicName<How>: Sized {
    /// Whether the name may become `shared`.
    spec fn becomes(self, shared: Arc<str>) -> bool;

    /// The name as a shared text.
    fn into_shared(self) -> (shared: Arc<str>)
        ensures
            self.becomes(shared),
    ;
}

impl<T: Into<Arc<str>>> TopicName<ByConversion> for T {
    open spec fn becomes(self, shared: Arc<str>) -> bool {
        call_ensures(T::into, (self,), shared)
    }

    fn into_shared(self) -> (shared: Arc<str>) {
        self.into()
    }
}

impl<'a> TopicName<BySharing> for &'a Arc<str> {
    open spec fn becomes(self, shared: Arc<str>) -> bool {
        shared == *self
    }

    fn into_shared(self) -> (shared: Arc<str>) {
        Arc::clone(self)
    }
}

/// A partition of a topic. Two are equal where their topics' names and their numbers are.
#[derive(Debug, Hash)]
pub struct TopicPartition {
    /// Shared, so that the partitions of a topic need one allocation for its name.
    pub topic: Arc<str>,
    pub partition: i32,
}

impl View for TopicPartition {
    type V = (Seq<char>, int);

    /// The topic's name and the partition's number.
    open spec fn view(&self) -> (Seq<char>, int) {
        ((*self.topic)@, self.partition as int)
    }
}

impl TopicPartition {
    /// A partition of a topic whose name is given in any form that makes an `Arc<str>`.
    /// Who already shares the name should hand that in.
    pub fn new<How, T: TopicName<How>>(topic: T, partition: i32) -> (tp: Self)
        ensures
            topic.becomes(tp.topic),
            tp.partition == partition,
    {
        TopicPartition { topic: topic.into_shared(), partition }
    }
}

impl PartialEq for TopicPartition {
    fn eq(&self, other: &Self) -> (same: bool) {
        self.partition == other.partition && same_text(&*self.topic, &*other.topic)
    }
}

impl vstd::std_specs::cmp::PartialEqSpecImpl for TopicPartition {
    open spec fn obeys_eq_spec() -> bool {
        true
    }

    open spec fn eq_spec(&self, other: &Self) -> bool {
        self@ == other@
    }
}

impl Eq for TopicPartition {

}

impl Clone for TopicPartition {
    fn clone(&self) -> (tp: Self)
        ensures
            tp == *self,
    {
        TopicPartition::new(Arc::clone(&self.topic), self.partition)
    }
}

/// Partitions are equal by content: where they have the same name and the same number.
pub proof fn law_partitions_are_equal_by_content(
    made: TopicPartition,
    name: Seq<char>,
    partition: int,
    other: TopicPartition,
    other_name: Seq<char>,
    other_partition: int,
)
    requires
        made@ == (name, partition),
        other@ == (other_name, other_partition),
    ensures
        vstd::std_specs::cmp::PartialEqSpec::eq_spec(&made, &other) <==> name == other_name
            && partition == other_partition,
{
}

/// A name is kept as it was given, character by character, and one that is shared already
/// is kept itself.
pub proof fn law_names_are_kept(
    text: &str,
    owned: String,
    shared: Arc<str>,
    borrowed: &Arc<str>,
    made: Arc<str>,
)
    ensures
        text.becomes(made) ==> (*made)@ == text@,
        owned.becomes(made) ==> (*made)@ == owned@,
        TopicName::<ByConversion>::becomes(shared, made) ==> made == shared,
        TopicName::<BySharing>::becomes(borrowed, made) ==> made == *borrowed,
{
}

/// A consumer group as it is listed.
#[derive(Debug)]
pub struct ConsumerGroupInfo {
    pub group_id: String,
    pub protocol_type: String,
    pub state: String,
}

/// A member of a consumer group.
#[derive(Debug)]
pub struct GroupMemberInfo {
    pub member_id: String,
    pub client_id: String,
    pub client_host: String,
    pub assignments: Vec<TopicPartition>,
}

/// A consumer group with its members.
#[derive(Debug)]
pub struct GroupDescription {
    pub group_id: String,
    pub state: String,
    pub protocol_type: String,
    pub protocol: String,
    pub members: Vec<GroupMemberInfo>,
}

/// Whether two members say the same.
pub open spec fn same_member(a: GroupMemberInfo, b: GroupMemberInfo) -> bool {
    &&& a.member_id == b.member_id
    &&& a.client_id == b.client_id
    &&& a.client_host == b.client_host
    &&& a.assignments@ == b.assignments@
}

impl Clone for ConsumerGroupInfo {
    fn clone(&self) -> (duplicate: Self)
        ensures
            duplicate == *self,
    {
        ConsumerGroupInfo {
            group_id: self.group_id.clone(),
            protocol_type: self.protocol_type.clone(),
            state: self.state.clone(),
        }
    }
}

impl Clone for GroupMemberInfo {
    fn clone(&self) -> (duplicate: Self)
        ensures
            same_member(*self, duplicate),
    {
        let mut assignments: Vec<TopicPartition> = Vec::new();
        for i in 0..self.assignments.len()
            invariant
                assignments@ == self.assignments@.take(i as int),
        {
            assignments.push(self.assignments[i].clone());
            assert(self.assignments@.take(i + 1) == self.assignments@.take(i as int).push(
                self.assignments@[i as int],
            ));
        }
        assert(self.assignments@.take(self.assignments@.len() as int) == self.assignments@);
        GroupMemberInfo {
            member_id: self.member_id.clone(),
            client_id: self.client_id.clone(),
            client_host: self.client_host.clone(),
            assignments,
        }
    }
}

impl Clone for GroupDescription {
    fn clone(&self) -> (duplicate: Self)
        ensures
            duplicate.group_id == self.group_id,
            duplicate.state == self.state,
            duplicate.protocol_type == self.protocol_type,
            duplicate.protocol == self.protocol,
            duplicate.members@.len() == self.members@.len(),
            forall|i: int|
                0 <= i < self.members@.len() ==> same_member(
                    #[trigger] self.members@[i],
                    duplicate.members@[i],
                ),
    {
        let mut members: Vec<GroupMemberInfo> = Vec::new();
        for i in 0..self.members.len()
            invariant
                members@.len() == i,
                forall|j: int|
                    0 <= j < i ==> same_member(#[trigger] self.members@[j], members@[j]),
        {
            members.push(self.members[i].clone());
        }
        GroupDescription {
            group_id: self.group_id.clone(),
            state: self.state.clone(),
            protocol_type: self.protocol_type.clone(),
            protocol: self.protocol.clone(),
            members,
        }
    }
}

/// A consumer group as the brokers list it.
#[derive(Debug)]
pub struct GroupListing {
    pub name: String,
    pub protocol_type: String,
    pub state: String,
}

/// A member of a group as the batched description gives it.
#[derive(Debug)]
pub struct BatchedMember {
    pub member_id: String,
    pub client_id: String,
    pub client_host: String,
    pub assignments: Vec<TopicPartition>,
}

/// A group as the batched description gives it.
#[derive(Debug)]
pub struct BatchedGroup {
    pub group_id: String,
    pub state: String,
    pub members: Vec<BatchedMember>,
}

/// Whether `info` says of a group what its listing says.
pub open spec fn lists(listing: GroupListing, info: ConsumerGroupInfo) -> bool {
    &&& info.group_id == listing.name
    &&& info.protocol_type == listing.protocol_type
    &&& info.state == listing.state
}

/// Whether `info` says of a member what the batched description says.
pub open spec fn describes_member(member: BatchedMember, info: GroupMemberInfo) -> bool {
    &&& info.member_id == member.member_id
    &&& info.client_id == member.client_id
    &&& info.client_host == member.client_host
    &&& info.assignments == member.assignments
}

/// Whether `group` says what the batched description says, with the protocol
/// fields left blank.
pub open spec fn describes(batched: BatchedGroup, group: GroupDescription) -> bool {
    &&& group.group_id == batched.group_id
    &&& group.state == batched.state
    &&& group.protocol_type@ == Seq::<char>::empty()
    &&& group.protocol@ == Seq::<char>::empty()
    &&& group.members@.len() == batched.members@.len()
    &&& forall|i: int|
        0 <= i < batched.members@.len() ==> describes_member(
            #[trigger] batched.members@[i],
            group.members@[i],
        )
}

/// What the brokers are asked for: everything, or what has a name.
#[derive(Debug)]
pub struct BrokerQuery {
    pub name: Option<String>,
    pub timeout: Duration,
}

/// How groups are to be described.
#[derive(Clone, Copy, Debug)]
pub struct DescribeQuery<'a> {
    pub group_ids: &'a [&'a str],
    pub timeout: Duration,
    /// Groups per call.
    pub chunk_size: usize,
    /// Whether the members' assignments are wanted.
    pub parse_assignments: bool,
    /// Calls at the same time.
    pub max_concurrent_chunks: usize,
}

/// The settings of the admin client: where the cluster is, who asks, what MSK IAM
/// needs, and over all of these the cluster's own properties.
pub open spec fn admin_settings(config: ClusterConfigView) -> Settings {
    with_iam_defaults(
        Settings::empty().insert("bootstrap.servers"@, config.bootstrap_servers).insert(
            "client.id"@,
            "klag-exporter-"@ + config.name,
        ),
        config.aws_msk_iam is Some,
    ).union_prefer_right(config.consumer_properties)
}

/// The settings of the consumer: those of the admin client, and over them a group of
/// its own, no commits, small buffers and rare metadata refreshes.
pub open spec fn consumer_settings(config: ClusterConfigView) -> Settings {
    admin_settings(config).insert("group.id"@, "klag-exporter-internal-"@ + config.name).insert(
        "enable.auto.commit"@,
        "false"@,
    ).insert("queued.min.messages"@, "100"@).insert("queued.max.messages.kbytes"@, "1024"@).insert(
        "topic.metadata.refresh.interval.ms"@,
        "600000"@,
    )
}

/// The keys that the consumer sets for itself, whatever the cluster's properties say.
pub open spec fn is_consumer_key(key: Seq<char>) -> bool {
    ||| key == "group.id"@
    ||| key == "enable.auto.commit"@
    ||| key == "queued.min.messages"@
    ||| key == "queued.max.messages.kbytes"@
    ||| key == "topic.metadata.refresh.interval.ms"@
}

/// A cluster's own properties win over every default of the clients, those of MSK IAM
/// included; only what the consumer sets for itself stands above them.
pub proof fn law_explicit_properties_win(config: ClusterConfigView, key: Seq<char>)
    requires
        config.consumer_properties.contains_key(key),
    ensures
        admin_settings(config).contains_key(key),
        admin_settings(config)[key] == config.consumer_properties[key],
        !is_consumer_key(key) ==> consumer_settings(config).contains_key(key)
            && consumer_settings(config)[key] == config.consumer_properties[key],
{
}

/// The consumer never commits, has a group of its own and small buffers, whatever the
/// cluster's properties say. In everything else the two clients agree.
pub proof fn law_consumer_keeps_its_own_settings(config: ClusterConfigView, key: Seq<char>)
    ensures
        consumer_settings(config)["group.id"@] == "klag-exporter-internal-"@ + config.name,
        consumer_settings(config)["enable.auto.commit"@] == "false"@,
        consumer_settings(config)["queued.min.messages"@] == "100"@,
        consumer_settings(config)["queued.max.messages.kbytes"@] == "1024"@,
        consumer_settings(config)["topic.metadata.refresh.interval.ms"@] == "600000"@,
        is_consumer_key(key) ==> consumer_settings(config).contains_key(key),
        !is_consumer_key(key) ==> {
            &&& consumer_settings(config).contains_key(key) == admin_settings(config).contains_key(
                key,
            )
            &&& consumer_settings(config)[key] == admin_settings(config)[key]
        },
{
    lemma_consumer_keys();
}

/// With MSK IAM both clients speak OAUTHBEARER over TLS, unless the cluster's
/// properties say otherwise.
pub proof fn law_iam_sets_oauthbearer(config: ClusterConfigView)
    requires
        config.aws_msk_iam is Some,
    ensures
        !config.consumer_properties.contains_key("security.protocol"@)
            ==> admin_settings(config).contains_key("security.protocol"@)
            && consumer_settings(config).contains_key("security.protocol"@)
            && admin_settings(config)["security.protocol"@] == "SASL_SSL"@
            && consumer_settings(config)["security.protocol"@] == "SASL_SSL"@,
        !config.consumer_properties.contains_key("sasl.mechanism"@)
            ==> admin_settings(config).contains_key("sasl.mechanism"@)
            && consumer_settings(config).contains_key("sasl.mechanism"@)
            && admin_settings(config)["sasl.mechanism"@] == "OAUTHBEARER"@
            && consumer_settings(config)["sasl.mechanism"@] == "OAUTHBEARER"@,
{
    reveal_settings_keys();
}

/// Without MSK IAM the mechanism and the protocol are what the cluster's properties
/// say, and unset where they say nothing. Other ways to sign in are not touched.
pub proof fn law_without_iam_nothing_is_set(config: ClusterConfigView, key: Seq<char>)
    requires
        config.aws_msk_iam is None,
        key == "sasl.mechanism"@ || key == "security.protocol"@,
    ensures
        admin_settings(config).contains_key(key) == config.consumer_properties.contains_key(key),
        consumer_settings(config).contains_key(key) == config.consumer_properties.contains_key(key),
{
    reveal_settings_keys();
}

/// Where the clients speak OAUTHBEARER and no token provider was built, the cluster's
/// own properties ask for that mechanism: no default ever leads there.
pub proof fn law_oauthbearer_without_provider_is_explicit(
    config: ClusterConfigView,
    support: MskIamSupport,
)
    requires
        is_token_provider_of(config, support, Ok(None)),
        consumer_settings(config).contains_key("sasl.mechanism"@),
    ensures
        config.consumer_properties.contains_key("sasl.mechanism"@),
        consumer_settings(config)["sasl.mechanism"@]
            == config.consumer_properties["sasl.mechanism"@],
{
    law_without_iam_nothing_is_set(config, "sasl.mechanism"@);
    law_explicit_properties_win(config, "sasl.mechanism"@);
    reveal_settings_keys();
}

/// The keys that the consumer sets for itself differ in their lengths.
proof fn lemma_consumer_keys()
    ensures
        "group.id"@.len() == 8,
        "enable.auto.commit"@.len() == 18,
        "queued.min.messages"@.len() == 19,
        "queued.max.messages.kbytes"@.len() == 26,
        "topic.metadata.refresh.interval.ms"@.len() == 34,
{
    reveal_strlit("group.id");
    reveal_strlit("enable.auto.commit");
    reveal_strlit("queued.min.messages");
    reveal_strlit("queued.max.messages.kbytes");
    reveal_strlit("topic.metadata.refresh.interval.ms");
}

/// The keys that the defaults set are all different.
proof fn reveal_settings_keys()
    ensures
        "security.protocol"@ != "sasl.mechanism"@,
        "security.protocol"@ != "bootstrap.servers"@,
        "security.protocol"@ != "client.id"@,
        "sasl.mechanism"@ != "bootstrap.servers"@,
        "sasl.mechanism"@ != "client.id"@,
        !is_consumer_key("security.protocol"@),
        !is_consumer_key("sasl.mechanism"@),
{
    reveal_strlit("security.protocol");
    reveal_strlit("sasl.mechanism");
    reveal_strlit("bootstrap.servers");
    reveal_strlit("client.id");
    lemma_consumer_keys();
    assert("security.protocol"@.len() == 17);
    assert("sasl.mechanism"@.len() == 14);
    assert("client.id"@.len() == 9);
    assert("bootstrap.servers"@.len() == 17);
    assert("security.protocol"@[0] != "bootstrap.servers"@[0]);
}

/// What the two clients of a cluster are created with.
pub struct ClientConfigs {
    pub admin: ClientConfig,
    pub consumer: ClientConfig,
}

/// Two texts, one after the other.
fn joined(head: &str, tail: &str) -> (text: String)
    ensures
        text@ == head@ + tail@,
{
    let mut text = head.to_owned();
    text.append(tail);
    text
}

/// What the two clients of a cluster are to be created with.
pub fn client_configs(config: &ClusterConfig) -> (configs: ClientConfigs)
    ensures
        settings_of(configs.admin) == admin_settings(config@),
        settings_of(configs.consumer) == consumer_settings(config@),
{
    let mut admin = no_settings();
    put_setting(&mut admin, "bootstrap.servers", config.bootstrap_servers.as_str());
    put_setting(&mut admin, "client.id", joined("klag-exporter-", config.name.as_str()).as_str());
    apply_msk_iam_sasl(config, &mut admin);
    let ghost base = settings_of(admin);
    let properties = &config.consumer_properties.entries;
    assert(base.union_prefer_right(map_of(properties@.take(0))) =~= base);
    for i in 0..properties.len()
        invariant
            settings_of(admin) == base.union_prefer_right(map_of(properties@.take(i as int))),
    {
        put_setting(&mut admin, properties[i].0.as_str(), properties[i].1.as_str());
        proof {
            let shorter = properties@.take(i as int);
            let longer = properties@.take(i + 1);
            assert(longer.drop_last() == shorter);
            assert(base.union_prefer_right(map_of(longer)) =~= base.union_prefer_right(
                map_of(shorter),
            ).insert(longer.last().0@, longer.last().1@));
        }
    }
    assert(properties@.take(properties@.len() as int) == properties@);

    let mut consumer = copy_settings(&admin);
    let group = joined("klag-exporter-internal-", config.name.as_str());
    put_setting(&mut consumer, "group.id", group.as_str());
    put_setting(&mut consumer, "enable.auto.commit", "false");
    // Monitoring, not consuming: small buffers are enough.
    put_setting(&mut consumer, "queued.min.messages", "100");
    put_setting(&mut consumer, "queued.max.messages.kbytes", "1024");
    // Metadata is asked for explicitly, so the background refresh can be rare.
    put_setting(&mut consumer, "topic.metadata.refresh.interval.ms", "600000");
    ClientConfigs { admin, consumer }
}

/// What is next in creating the two clients of a cluster: first the admin client, and the
/// consumer only where that succeeded.
pub enum CreateStep<A, C> {
    /// Create the admin client from this, and go on with `admin_created`.
    Admin { config: ClientConfig, context: KlagContext, pending: PendingAdmin },
    /// Create the consumer from this, and go on with `consumer_created`.
    Consumer { config: ClientConfig, context: KlagContext, waiting: PendingConsumer<A> },
    Done(Result<(A, C), KlagError>),
}

/// A creation that waits for the admin client.
pub struct PendingAdmin {
    consumer: ClientConfig,
    token_provider: Option<Arc<dyn OAuthTokenProvider>>,
}

/// A creation that waits for the consumer.
pub struct PendingConsumer<A> {
    admin: A,
}

/// Whether a step is the first in creating the clients of a cluster, both of which are to
/// call back to the given provider.
pub open spec fn starts_creation<A, C>(
    step: CreateStep<A, C>,
    cluster: ClusterConfigView,
    token_provider: Option<Arc<dyn OAuthTokenProvider>>,
) -> bool {
    &&& step matches CreateStep::Admin { config, context, pending }
    &&& settings_of(config) == admin_settings(cluster)
    &&& context.provider() == token_provider
    &&& settings_of(pending.spec_consumer()) == consumer_settings(cluster)
    &&& pending.spec_token_provider() == token_provider
}

/// A copy that shares what there is.
pub(crate) fn share<P: ?Sized>(given: &Option<Arc<P>>) -> (shared: Option<Arc<P>>)
    ensures
        shared == *given,
{
    match given {
        Some(value) => Some(Arc::clone(value)),
        None => None,
    }
}

/// Starts to create the clients of a cluster.
pub fn create_clients<A, C>(
    config: &ClusterConfig,
    token_provider: Option<Arc<dyn OAuthTokenProvider>>,
) -> (step: CreateStep<A, C>)
    ensures
        starts_creation(step, config@, token_provider),
{
    let configs = client_configs(config);
    let context = KlagContext::new(share(&token_provider));
    CreateStep::Admin {
        config: configs.admin,
        context,
        pending: PendingAdmin { consumer: configs.consumer, token_provider },
    }
}

impl PendingAdmin {
    /// What the consumer is going to be created with.
    pub closed spec fn spec_consumer(&self) -> ClientConfig {
        self.consumer
    }

    /// What the consumer is going to call back to.
    pub closed spec fn spec_token_provider(&self) -> Option<Arc<dyn OAuthTokenProvider>> {
        self.token_provider
    }

    /// Goes on once the creation of the admin client has ended. Where it failed, no
    /// consumer is created.
    pub fn admin_created<A, C>(self, created: Result<A, KafkaError>) -> (step: CreateStep<A, C>)
        ensures
            match created {
                Ok(admin) => {
                    &&& step matches CreateStep::Consumer { config, context, waiting }
                    &&& config == self.spec_consumer()
                    &&& context.provider() == self.spec_token_provider()
                    &&& waiting.spec_admin() == admin
                },
                Err(e) => step matches CreateStep::Done(Err(KlagError::Kafka(k))) && k == e,
            },
    {
        match created {
            Ok(admin) => CreateStep::Consumer {
                config: self.consumer,
                context: KlagContext::new(self.token_provider),
                waiting: PendingConsumer { admin },
            },
            Err(e) => CreateStep::Done(Err(KlagError::Kafka(e))),
        }
    }
}

impl<A> PendingConsumer<A> {
    /// The admin client that was created.
    pub closed spec fn spec_admin(&self) -> A {
        self.admin
    }

    /// Ends the creation once that of the consumer has ended.
    pub fn consumer_created<C>(self, created: Result<C, KafkaError>) -> (step: CreateStep<A, C>)
        ensures
            match created {
                Ok(consumer) => {
                    &&& step matches CreateStep::Done(Ok((a, c)))
                    &&& a == self.spec_admin()
                    &&& c == consumer
                },
                Err(e) => step matches CreateStep::Done(Err(KlagError::Kafka(k))) && k == e,
            },
    {
        match created {
            Ok(consumer) => CreateStep::Done(Ok((self.admin, consumer))),
            Err(e) => CreateStep::Done(Err(KlagError::Kafka(e))),
        }
    }
}

/// What is next in connecting to a cluster.
pub enum ClientStep<A, C> {
    /// Make a provider around this signer, and go on with `provider_shared`.
    ShareProvider { signer: MskIamTokenProvider, unshared: UnsharedSetup },
    /// Create the clients, and go on with `finish`.
    Create { first: CreateStep<A, C>, setup: ClientSetup },
    /// No client is created.
    Failed(KlagError),
}

/// A connection that waits for its token provider.
pub struct UnsharedSetup {
    config: ClusterConfig,
    performance: PerformanceConfig,
}

/// A connection that waits for its clients.
pub struct ClientSetup {
    config: ClusterConfig,
    performance: PerformanceConfig,
    token_provider: Option<Arc<dyn OAuthTokenProvider>>,
}

/// Whether a step starts to create the clients of a cluster and keeps what they are to
/// be put together with.
pub open spec fn creates<A, C>(
    step: ClientStep<A, C>,
    config: ClusterConfigView,
    performance: PerformanceConfig,
    token_provider: Option<Arc<dyn OAuthTokenProvider>>,
) -> bool {
    &&& step matches ClientStep::Create { first, setup }
    &&& starts_creation(first, config, token_provider)
    &&& setup.spec_config() == config
    &&& setup.spec_performance() == performance
    &&& setup.spec_token_provider() == token_provider
}

/// Whether a step is the first in connecting to a cluster. A provider that is given is
/// used as it is. Without one, the configuration decides: a signer is to be made a
/// provider of, there is none, or connecting fails.
pub open spec fn connects<A, C>(
    step: ClientStep<A, C>,
    config: ClusterConfigView,
    performance: PerformanceConfig,
    token_provider: Option<Arc<dyn OAuthTokenProvider>>,
    support: MskIamSupport,
) -> bool {
    match token_provider {
        Some(provider) => creates(step, config, performance, token_provider),
        None => match step {
            ClientStep::ShareProvider { signer, unshared } => {
                &&& is_token_provider_of(config, support, Ok(Some(signer)))
                &&& unshared.spec_config() == config
                &&& unshared.spec_performance() == performance
            },
            ClientStep::Create { first, setup } => {
                &&& is_token_provider_of(config, support, Ok(None))
                &&& creates(step, config, performance, None)
            },
            ClientStep::Failed(e) => is_token_provider_of(config, support, Err(e)),
        },
    }
}

impl UnsharedSetup {
    /// The cluster to connect to.
    pub closed spec fn spec_config(&self) -> ClusterConfigView {
        self.config@
    }

    /// The limits and timeouts to connect with.
    pub closed spec fn spec_performance(&self) -> PerformanceConfig {
        self.performance
    }

    /// Goes on with the provider that the clients are to share.
    pub fn provider_shared<A, C>(self, provider: Arc<dyn OAuthTokenProvider>) -> (step: ClientStep<
        A,
        C,
    >)
        ensures
            ({
                let shared = Some(provider);
                creates(step, self.spec_config(), self.spec_performance(), shared)
            }),
    {
        let shared = Some(provider);
        ClientSetup::start(self.config, self.performance, shared)
    }
}

impl ClientSetup {
    /// The cluster to connect to.
    pub closed spec fn spec_config(&self) -> ClusterConfigView {
        self.config@
    }

    /// The limits and timeouts to connect with.
    pub closed spec fn spec_performance(&self) -> PerformanceConfig {
        self.performance
    }

    /// What the clients are going to call back to.
    pub closed spec fn spec_token_provider(&self) -> Option<Arc<dyn OAuthTokenProvider>> {
        self.token_provider
    }

    /// With MSK IAM there is a token provider.
    #[verifier::type_invariant]
    spec fn has_its_provider(&self) -> bool {
        self.config@.aws_msk_iam is Some ==> self.token_provider is Some
    }

    /// Starts to create the clients.
    fn start<A, C>(
        config: ClusterConfig,
        performance: PerformanceConfig,
        token_provider: Option<Arc<dyn OAuthTokenProvider>>,
    ) -> (step: ClientStep<A, C>)
        requires
            config@.aws_msk_iam is Some ==> token_provider is Some,
        ensures
            creates(step, config@, performance, token_provider),
    {
        let first = create_clients(&config, share(&token_provider));
        ClientStep::Create { first, setup: ClientSetup { config, performance, token_provider } }
    }

    /// Puts the clients together, where they could be created.
    pub fn finish<A, C>(self, created: Result<(A, C), KlagError>) -> (client: Result<
        KafkaClient<A, C>,
        KlagError,
    >)
        ensures
            match created {
                Ok((admin, consumer)) => {
                    &&& client matches Ok(k)
                    &&& *k.spec_admin() == admin
                    &&& *k.spec_consumer() == consumer
                    &&& k.spec_config() == self.spec_config()
                    &&& k.spec_token_provider() == self.spec_token_provider()
                    &&& k.spec_timeout() == self.spec_performance().kafka_timeout@
                    &&& k.spec_performance() == self.spec_performance()
                    &&& k.spec_config().aws_msk_iam is Some ==> k.spec_token_provider() is Some
                },
                Err(e) => client matches Err(k) && k == e,
            },
    {
        proof {
            use_type_invariant(&self);
        }
        match created {
            Ok((admin, consumer)) => Ok(
                KafkaClient {
                    admin: Arc::new(admin),
                    consumer: Arc::new(consumer),
                    config: self.config,
                    token_provider: self.token_provider,
                    timeout: self.performance.kafka_timeout,
                    performance: self.performance,
                },
            ),
            Err(e) => Err(e),
        }
    }
}

/// The clients of one cluster, around a handle `A` to its admin client and `C` to its
/// consumer.
pub struct KafkaClient<A, C> {
    admin: Arc<A>,
    consumer: Arc<C>,
    config: ClusterConfig,
    token_provider: Option<Arc<dyn OAuthTokenProvider>>,
    timeout: Duration,
    performance: PerformanceConfig,
}

impl<A, C> KafkaClient<A, C> {
    /// The admin client in use.
    pub closed spec fn spec_admin(&self) -> Arc<A> {
        self.admin
    }

    /// The consumer in use.
    pub closed spec fn spec_consumer(&self) -> Arc<C> {
        self.consumer
    }

    /// The cluster's configuration.
    pub closed spec fn spec_config(&self) -> ClusterConfigView {
        self.config@
    }

    /// What the clients ask for OAuth tokens.
    pub closed spec fn spec_token_provider(&self) -> Option<Arc<dyn OAuthTokenProvider>> {
        self.token_provider
    }

    /// How long a Kafka call may take, in nanoseconds.
    pub closed spec fn spec_timeout(&self) -> nat {
        self.timeout@
    }

    /// The limits and timeouts in force.
    pub closed spec fn spec_performance(&self) -> PerformanceConfig {
        self.performance
    }

    /// With MSK IAM there is a token provider.
    #[verifier::type_invariant]
    spec fn has_its_provider(&self) -> bool {
        self.config@.aws_msk_iam is Some ==> self.token_provider is Some
    }

    /// Starts to connect to a cluster with the default limits; `with_performance` suits
    /// large clusters better.
    pub fn new(config: &ClusterConfig, support: MskIamSupport) -> (step: ClientStep<A, C>)
        ensures
            exists|performance: PerformanceConfig|
                performance.is_default() && #[trigger] connects(
                    step,
                    config@,
                    performance,
                    None,
                    support,
                ),
    {
        Self::with_performance(config, PerformanceConfig::default(), None, support)
    }

    /// Starts to connect to a cluster, with the token provider that is handed in or else
    /// the one that the configuration asks for.
    pub fn with_performance(
        config: &ClusterConfig,
        performance: PerformanceConfig,
        token_provider: Option<Arc<dyn OAuthTokenProvider>>,
        support: MskIamSupport,
    ) -> (step: ClientStep<A, C>)
        ensures
            connects(step, config@, performance, token_provider, support),
    {
        if token_provider.is_some() {
            return ClientSetup::start(config.clone(), performance, token_provider);
        }
        match build_token_provider(config, support) {
            Ok(Some(signer)) => ClientStep::ShareProvider {
                signer,
                unshared: UnsharedSetup { config: config.clone(), performance },
            },
            Ok(None) => ClientSetup::start(config.clone(), performance, None),
            Err(e) => ClientStep::Failed(e),
        }
    }

    /// Starts to create fresh clients, with the settings and the provider that the first
    /// ones had; they are put to use by `recycle`.
    pub fn start_recycling(&self) -> (step: CreateStep<A, C>)
        ensures
            starts_creation(step, self.spec_config(), self.spec_token_provider()),
            self.spec_config().aws_msk_iam is Some ==> self.spec_token_provider() is Some,
    {
        proof {
            use_type_invariant(self);
        }
        create_clients(&self.config, share(&self.token_provider))
    }

    /// The admin client in use. Who holds it keeps it alive, also across a recycling.
    pub fn admin_handle(&self) -> (admin: Arc<A>)
        ensures
            admin == self.spec_admin(),
    {
        Arc::clone(&self.admin)
    }

    /// The consumer in use.
    pub fn consumer_handle(&self) -> (consumer: Arc<C>)
        ensures
            consumer == self.spec_consumer(),
    {
        Arc::clone(&self.consumer)
    }

    /// Replaces both clients by fresh ones, which releases the metadata that the old
    /// ones have gathered. Where creating them failed, the old ones stay.
    pub fn recycle(&mut self, clients: Result<(A, C), KlagError>) -> (result: Result<
        (),
        KlagError,
    >)
        ensures
            final(self).spec_config() == old(self).spec_config(),
            final(self).spec_token_provider() == old(self).spec_token_provider(),
            final(self).spec_timeout() == old(self).spec_timeout(),
            final(self).spec_performance() == old(self).spec_performance(),
            match clients {
                Ok((admin, consumer)) => {
                    &&& result is Ok
                    &&& *final(self).spec_admin() == admin
                    &&& *final(self).spec_consumer() == consumer
                },
                Err(e) => {
                    &&& result matches Err(k)
                    &&& k == e
                    &&& *final(self) == *old(self)
                },
            },
    {
        proof {
            use_type_invariant(&*self);
        }
        match clients {
            Ok((admin, consumer)) => {
                self.admin = Arc::new(admin);
                self.consumer = Arc::new(consumer);
                Ok(())
            },
            Err(e) => Err(e),
        }
    }

    /// The limits and timeouts in force.
    pub fn performance(&self) -> (performance: &PerformanceConfig)
        ensures
            *performance == self.spec_performance(),
    {
        &self.performance
    }

    /// The name of the cluster.
    pub fn cluster_name(&self) -> (name: &str)
        ensures
            name@ == self.spec_config().name,
    {
        self.config.name.as_str()
    }

    /// A query for everything, of groups or of topics.
    pub fn query_all(&self) -> (query: BrokerQuery)
        ensures
            query.name is None,
            query.timeout@ == self.spec_timeout(),
    {
        BrokerQuery { name: None, timeout: self.timeout }
    }

    /// The groups of a listing, in its order.
    pub fn list_consumer_groups(&self, fetched: Result<Vec<GroupListing>, KafkaError>) -> (groups:
        Result<Vec<ConsumerGroupInfo>, KlagError>)
        ensures
            match fetched {
                Ok(listings) => {
                    &&& groups matches Ok(infos)
                    &&& infos@.len() == listings@.len()
                    &&& forall|i: int|
                        0 <= i < listings@.len() ==> lists(#[trigger] listings@[i], infos@[i])
                },
                Err(e) => groups matches Err(KlagError::Kafka(k)) && k == e,
            },
    {
        let listings = match kafka_result(fetched) {
            Ok(listings) => listings,
            Err(e) => {
                return Err(e);
            },
        };
        let mut infos: Vec<ConsumerGroupInfo> = Vec::new();
        for listing in it: listings
            invariant
                it.seq() == listings@,
                infos@.len() == it.index(),
                forall|i: int|
                    0 <= i < it.index() ==> lists(#[trigger] listings@[i], infos@[i]),
        {
            infos.push(
                ConsumerGroupInfo {
                    group_id: listing.name,
                    protocol_type: listing.protocol_type,
                    state: listing.state,
                },
            );
        }
        Ok(infos)
    }

    /// How groups are to be described. Assignments are only needed for metrics by
    /// partition; leaving them out saves the work of parsing them.
    pub fn describe_query<'a>(
        &self,
        group_ids: &'a [&'a str],
        parse_assignments: bool,
        max_concurrent_chunks: usize,
    ) -> (query: DescribeQuery<'a>)
        ensures
            query.group_ids == group_ids,
            query.timeout@ == self.spec_timeout(),
            query.chunk_size == 100,
            query.parse_assignments == parse_assignments,
            query.max_concurrent_chunks == max_concurrent_chunks,
    {
        DescribeQuery {
            group_ids,
            timeout: self.timeout,
            chunk_size: 100,
            parse_assignments,
            max_concurrent_chunks,
        }
    }

    /// The groups of a batched description, in its order. The protocol fields stay
    /// blank.
    pub fn describe_consumer_groups(&self, batched: Result<Vec<BatchedGroup>, KlagError>) -> (groups:
        Result<Vec<GroupDescription>, KlagError>)
        ensures
            match batched {
                Ok(all) => {
                    &&& groups matches Ok(described)
                    &&& described@.len() == all@.len()
                    &&& forall|i: int|
                        0 <= i < all@.len() ==> describes(#[trigger] all@[i], described@[i])
                },
                Err(e) => groups matches Err(k) && k == e,
            },
    {
        let all = match batched {
            Ok(all) => all,
            Err(e) => {
                return Err(e);
            },
        };
        let mut described: Vec<GroupDescription> = Vec::new();
        for group in it: all
            invariant
                it.seq() == all@,
                described@.len() == it.index(),
                forall|i: int|
                    0 <= i < it.index() ==> describes(#[trigger] all@[i], described@[i]),
        {
            described.push(describe_group(group));
        }
        Ok(described)
    }

    /// The metadata of the cluster, where it could be fetched.
    pub fn fetch_metadata<M>(&self, fetched: Result<M, KafkaError>) -> (metadata: Result<
        M,
        KlagError,
    >)
        ensures
            match fetched {
                Ok(m) => metadata matches Ok(n) && n == m,
                Err(e) => metadata matches Err(KlagError::Kafka(k)) && k == e,
            },
    {
        kafka_result(fetched)
    }

    /// Starts a fetch of both watermarks of the given partitions. Two calls are made
    /// for all of them together, and none where there are no partitions.
    pub fn fetch_watermarks_for_partitions<'a>(&self, partitions: &'a [TopicPartition]) -> (step:
        WatermarkStep<'a>)
        ensures
            if partitions@.len() == 0 {
                &&& step matches WatermarkStep::Done(Ok(merged))
                &&& merged.wf()
                &&& merged@ == Map::<(Seq<char>, int), (i64, i64)>::empty()
            } else {
                &&& step matches WatermarkStep::Query { partitions: asked, offsets, timeout, then_with }
                &&& asked == partitions
                &&& offsets == OffsetSpec::Earliest
                &&& timeout@ == self.spec_timeout()
                &&& then_with matches WatermarkFetch::Earliest { partitions: same }
                &&& same == partitions
            },
    {
        if partitions.len() == 0 {
            return WatermarkStep::Done(Ok(PartitionMap::new()));
        }
        WatermarkStep::Query {
            partitions,
            offsets: OffsetSpec::Earliest,
            timeout: self.timeout,
            then_with: WatermarkFetch::Earliest { partitions },
        }
    }

    /// Goes on with a fetch of watermarks: after the earliest offsets the latest are
    /// asked for, after these both are merged. An error of either call ends the fetch.
    pub fn watermarks_fetched<'a>(
        &self,
        awaited: WatermarkFetch<'a>,
        fetched: Result<PartitionMap<i64>, KlagError>,
    ) -> (step: WatermarkStep<'a>)
        requires
            awaited matches WatermarkFetch::Latest { lows } ==> lows.wf(),
            fetched matches Ok(offsets) ==> offsets.wf(),
        ensures
            match fetched {
                Err(e) => step matches WatermarkStep::Done(Err(k)) && k == e,
                Ok(came) => match awaited {
                    WatermarkFetch::Earliest { partitions } => {
                        &&& step matches WatermarkStep::Query {
                            partitions: asked,
                            offsets,
                            timeout,
                            then_with,
                        }
                        &&& asked == partitions
                        &&& offsets == OffsetSpec::Latest
                        &&& timeout@ == self.spec_timeout()
                        &&& then_with matches WatermarkFetch::Latest { lows }
                        &&& lows == came
                    },
                    WatermarkFetch::Latest { lows } => {
                        &&& step matches WatermarkStep::Done(Ok(merged))
                        &&& merged.wf()
                        &&& merged@ == merged_watermarks(lows@, came@)
                    },
                },
            },
    {
        match fetched {
            Err(e) => WatermarkStep::Done(Err(e)),
            Ok(came) => match awaited {
                WatermarkFetch::Earliest { partitions } => WatermarkStep::Query {
                    partitions,
                    offsets: OffsetSpec::Latest,
                    timeout: self.timeout,
                    then_with: WatermarkFetch::Latest { lows: came },
                },
                WatermarkFetch::Latest { lows } => WatermarkStep::Done(
                    Ok(merge_watermarks(&lows, &came)),
                ),
            },
        }
    }

    /// The options of an admin call: the timeout of every Kafka call.
    pub fn admin_options(&self) -> (options: AdminOptions)
        ensures
            options == request_timeout_options(
                (self.spec_timeout() / 1_000_000_000) as u64,
                (self.spec_timeout() % 1_000_000_000) as u32,
            ),
    {
        options_with_timeout(self.timeout.as_secs(), self.timeout.subsec_nanos())
    }

    /// What to ask about the configuration of the given topics. Nothing is asked
    /// where there are none.
    pub fn config_query(&self, topic_names: &[String]) -> (query: Option<ConfigQuery>)
        ensures
            query is None <==> topic_names@.len() == 0,
            query matches Some(q) ==> {
                &&& q.topics@ == topic_names@
                &&& q.options == request_timeout_options(
                    (self.spec_timeout() / 1_000_000_000) as u64,
                    (self.spec_timeout() % 1_000_000_000) as u32,
                )
            },
    {
        if topic_names.len() == 0 {
            return None;
        }
        let mut topics: Vec<String> = Vec::new();
        for i in 0..topic_names.len()
            invariant
                topics@ == topic_names@.take(i as int),
        {
            topics.push(topic_names[i].clone());
            assert(topic_names@.take(i + 1) == topic_names@.take(i as int).push(
                topic_names@[i as int],
            ));
        }
        assert(topic_names@.take(topic_names@.len() as int) == topic_names@);
        Some(ConfigQuery { topics, options: self.admin_options() })
    }

    /// The topics that turn out to be compacted, each once. `described` is what
    /// `config_query` gave, or `None` where it asked nothing.
    pub fn fetch_compacted_topics_for(
        &self,
        described: Option<Result<Vec<Result<ConfigResource, String>>, KafkaError>>,
    ) -> (topics: Result<Vec<String>, KlagError>)
        ensures
            match described {
                None => topics matches Ok(names) && names@.len() == 0,
                Some(Err(e)) => topics matches Err(KlagError::Kafka(k)) && k == e,
                Some(Ok(all)) => {
                    &&& topics matches Ok(names)
                    &&& texts(names@).no_duplicates()
                    &&& forall|topic: Seq<char>| #[trigger]
                        texts(names@).contains(topic) <==> compacted(all@, topic)
                },
            },
    {
        match described {
            None => Ok(Vec::new()),
            Some(outcome) => match kafka_result(outcome) {
                Ok(all) => Ok(compacted_topics(&all)),
                Err(e) => Err(e),
            },
        }
    }
}

/// A group of a batched description, with the protocol fields left blank.
fn describe_group(batched: BatchedGroup) -> (group: GroupDescription)
    ensures
        describes(batched, group),
{
    let mut members: Vec<GroupMemberInfo> = Vec::new();
    let ghost given = batched.members@;
    for member in it: batched.members
        invariant
            it.seq() == given,
            members@.len() == it.index(),
            forall|i: int|
                0 <= i < it.index() ==> describes_member(#[trigger] given[i], members@[i]),
    {
        members.push(
            GroupMemberInfo {
                member_id: member.member_id,
                client_id: member.client_id,
                client_host: member.client_host,
                assignments: member.assignments,
            },
        );
    }
    GroupDescription {
        group_id: batched.group_id,
        state: batched.state,
        protocol_type: String::new(),
        protocol: String::new(),
        members,
    }
}

} // verus!
