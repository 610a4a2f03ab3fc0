use klag_exporter::config::{AwsMskIamConfig, ClusterConfig, PerformanceConfig, StringMap};
use klag_exporter::duration::Duration;
use klag_exporter::error::{kafka_result, KlagError};
use klag_exporter::kafka::auth::{
    KlagContext, MskIamSupport, OAuthToken, OAuthTokenProvider, REGION_REQUIRED,
};
use klag_exporter::kafka::client::{
    client_configs, create_clients, BatchedGroup, BatchedMember, ClientStep, CreateStep,
    GroupListing, KafkaClient, TopicPartition,
};
use rdkafka::admin::{AdminClient, ResourceSpecifier};
use rdkafka::client::DefaultClientContext;
use rdkafka::config::ClientConfig;
use rdkafka::error::KafkaError;
use std::borrow::Cow;
use std::collections::HashMap;
use std::sync::Arc;

fn cluster(name: &str, properties: &[(&str, &str)], iam: bool) -> ClusterConfig {
    let mut consumer_properties = StringMap::new();
    for (key, value) in properties {
        consumer_properties.insert(key.to_string(), value.to_string());
    }
    ClusterConfig {
        name: name.to_string(),
        bootstrap_servers: "localhost:9092".to_string(),
        consumer_properties,
        labels: StringMap::new(),
        aws_msk_iam: if iam { Some(AwsMskIamConfig { region: Some("us-east-1".to_string()) }) } else { None },
    }
}

type Step = ClientStep<u8, u16>;

fn signer_built_in() -> MskIamSupport {
    MskIamSupport::BuiltIn { aws_region: None, aws_default_region: None }
}

/// Connects with clients that stand for themselves.
fn finished(step: Step) -> KafkaClient<u8, u16> {
    match step {
        ClientStep::Create { setup, .. } => setup.finish(Ok((1, 2))).ok().unwrap(),
        ClientStep::ShareProvider { unshared, .. } => {
            finished(unshared.provider_shared(Arc::new(NamedProvider)))
        }
        ClientStep::Failed(e) => panic!("connecting failed: {:?}", e),
    }
}

fn client() -> KafkaClient<u8, u16> {
    finished(KafkaClient::new(&cluster("prod", &[], false), signer_built_in()))
}

fn client_with_timeout(timeout: Duration) -> KafkaClient<u8, u16> {
    let mut performance = PerformanceConfig::default();
    performance.kafka_timeout = timeout;
    let config = cluster("prod", &[], false);
    finished(KafkaClient::with_performance(&config, performance, None, signer_built_in()))
}

/// What a context answers when it is asked for a token.
fn answer(context: &KlagContext) -> String {
    context.generate_oauth_token(None).err().unwrap()
}

#[test]
fn topic_partition_keeps_its_parts() {
    let tp = TopicPartition::new("orders", 3);
    assert_eq!(&*tp.topic, "orders");
    assert_eq!(tp.partition, 3);
    assert_eq!(tp, TopicPartition::new("orders".to_string(), 3));
    assert_ne!(tp, TopicPartition::new("orders", 4));
    assert_ne!(tp, TopicPartition::new("payments", 3));
}

#[test]
fn topic_partitions_are_equal_by_content() {
    let shared: Arc<str> = Arc::from("orders");
    let made = [
        TopicPartition::new("orders", -1),
        TopicPartition::new("orders".to_string(), -1),
        TopicPartition::new(Arc::clone(&shared), -1),
        TopicPartition::new(&shared, -1),
    ];
    for first in &made {
        assert_eq!(&*first.topic, "orders");
        assert_eq!(first.partition, -1);
        for second in &made {
            assert_eq!(first, second);
        }
    }
    assert!(Arc::ptr_eq(&made[2].topic, &shared));
    assert!(Arc::ptr_eq(&made[3].topic, &shared));
    assert_eq!(TopicPartition::new("", 0), TopicPartition::new(String::new(), 0));
    assert_ne!(TopicPartition::new("", 0), made[0]);
    assert_ne!(TopicPartition::new("order", -1), made[0]);
}

struct Prefixed(&'static str);

impl From<Prefixed> for Arc<str> {
    fn from(name: Prefixed) -> Arc<str> {
        Arc::from(format!("prod.{}", name.0))
    }
}

fn first_partition<T: Into<Arc<str>>>(topic: T) -> TopicPartition {
    TopicPartition::new(topic, 0)
}

#[test]
fn a_topic_is_named_by_whatever_makes_a_shared_text() {
    let expected = TopicPartition::new("orders", 0);
    let boxed: Box<str> = Box::from("orders");
    assert_eq!(TopicPartition::new(boxed, 0), expected);
    assert_eq!(TopicPartition::new(Cow::Borrowed("orders"), 0), expected);
    assert_eq!(TopicPartition::new(Cow::<str>::Owned("orders".to_string()), 0), expected);
    assert_eq!(first_partition("orders"), expected);
    assert_eq!(&*TopicPartition::new(Prefixed("orders"), 0).topic, "prod.orders");
}

#[test]
fn topic_partitions_share_a_shared_name() {
    let name: Arc<str> = Arc::from("orders");
    let first = TopicPartition::new(Arc::clone(&name), 0);
    let second = first.clone();
    assert!(Arc::ptr_eq(&first.topic, &name));
    assert!(Arc::ptr_eq(&second.topic, &name));
    assert_eq!(first, second);
}

#[test]
fn topic_partitions_are_found_again_in_a_map() {
    let mut offsets = HashMap::new();
    offsets.insert(TopicPartition::new("orders", 0), 17);
    assert_eq!(offsets.get(&TopicPartition::new("orders", 0)), Some(&17));
    assert_eq!(offsets.get(&TopicPartition::new("orders", 1)), None);
}

#[test]
fn the_admin_client_gets_the_cluster_and_a_name() {
    let configs = client_configs(&cluster("prod", &[], false));
    assert_eq!(configs.admin.get("bootstrap.servers"), Some("localhost:9092"));
    assert_eq!(configs.admin.get("client.id"), Some("klag-exporter-prod"));
    assert_eq!(configs.admin.config_map().len(), 2);
}

#[test]
fn the_consumer_gets_its_own_settings_on_top() {
    let configs = client_configs(&cluster("prod", &[], false));
    let consumer = &configs.consumer;
    assert_eq!(consumer.get("bootstrap.servers"), Some("localhost:9092"));
    assert_eq!(consumer.get("client.id"), Some("klag-exporter-prod"));
    assert_eq!(consumer.get("group.id"), Some("klag-exporter-internal-prod"));
    assert_eq!(consumer.get("enable.auto.commit"), Some("false"));
    assert_eq!(consumer.get("queued.min.messages"), Some("100"));
    assert_eq!(consumer.get("queued.max.messages.kbytes"), Some("1024"));
    assert_eq!(consumer.get("topic.metadata.refresh.interval.ms"), Some("600000"));
    assert_eq!(consumer.config_map().len(), 7);
}

#[test]
fn explicit_properties_win_over_iam_defaults() {
    let defaults = client_configs(&cluster("msk", &[], true));
    assert_eq!(defaults.admin.get("security.protocol"), Some("SASL_SSL"));
    assert_eq!(defaults.admin.get("sasl.mechanism"), Some("OAUTHBEARER"));
    assert_eq!(defaults.consumer.get("sasl.mechanism"), Some("OAUTHBEARER"));

    let properties = [("sasl.mechanism", "PLAIN"), ("client.id", "mine"), ("x", "1"), ("x", "2")];
    let overridden = client_configs(&cluster("msk", &properties, true));
    assert_eq!(overridden.admin.get("security.protocol"), Some("SASL_SSL"));
    assert_eq!(overridden.admin.get("sasl.mechanism"), Some("PLAIN"));
    assert_eq!(overridden.admin.get("client.id"), Some("mine"));
    assert_eq!(overridden.consumer.get("sasl.mechanism"), Some("PLAIN"));
    assert_eq!(overridden.admin.get("x"), Some("2"));
}

#[test]
fn the_consumer_never_commits_whatever_the_properties_say() {
    let properties = [("enable.auto.commit", "true"), ("group.id", "mine")];
    let configs = client_configs(&cluster("prod", &properties, false));
    assert_eq!(configs.admin.get("enable.auto.commit"), Some("true"));
    assert_eq!(configs.consumer.get("enable.auto.commit"), Some("false"));
    assert_eq!(configs.consumer.get("group.id"), Some("klag-exporter-internal-prod"));
}

#[test]
fn without_iam_sign_in_is_what_the_properties_say() {
    let plain = [("security.protocol", "SASL_SSL"), ("sasl.mechanism", "SCRAM-SHA-256")];
    let configs = client_configs(&cluster("prod", &plain, false));
    assert_eq!(configs.consumer.get("sasl.mechanism"), Some("SCRAM-SHA-256"));
    let bare = client_configs(&cluster("prod", &[], false));
    assert_eq!(bare.consumer.get("sasl.mechanism"), None);
    assert_eq!(bare.consumer.get("security.protocol"), None);
}

#[test]
fn a_given_token_provider_is_kept() {
    // No region is to be had, but none is needed either.
    let mut config = cluster("msk", &[], true);
    config.aws_msk_iam = Some(AwsMskIamConfig { region: None });
    let performance = PerformanceConfig::default();
    let given: Option<Arc<dyn OAuthTokenProvider>> = Some(Arc::new(NamedProvider));
    let step: Step =
        KafkaClient::with_performance(&config, performance, given, MskIamSupport::NotBuilt);
    match step {
        ClientStep::Create { first: CreateStep::Admin { config, context, .. }, .. } => {
            assert_eq!(config.get("sasl.mechanism"), Some("OAUTHBEARER"));
            assert_eq!(answer(&context), "named");
        }
        _ => panic!("a provider was handed in"),
    }
}

#[test]
fn a_missing_token_provider_is_built_as_configured() {
    let step: Step = KafkaClient::new(&cluster("msk", &[], true), signer_built_in());
    let ClientStep::ShareProvider { signer, unshared } = step else {
        panic!("IAM is configured");
    };
    assert_eq!(signer.region(), "us-east-1");
    let step: Step = unshared.provider_shared(Arc::new(NamedProvider));
    let ClientStep::Create { first: CreateStep::Admin { context, .. }, setup } = step else {
        panic!("the clients are next");
    };
    assert_eq!(answer(&context), "named");
    let client: KafkaClient<u8, u16> = setup.finish(Ok((1, 2))).ok().unwrap();
    let CreateStep::Admin { context, .. } = client.start_recycling() else {
        panic!("the admin client comes first");
    };
    assert_eq!(answer(&context), "named");
}

#[test]
fn a_token_provider_that_cannot_be_built_fails_the_connection() {
    let refused: Step = KafkaClient::new(&cluster("msk", &[], true), MskIamSupport::NotBuilt);
    assert!(matches!(refused, ClientStep::Failed(KlagError::Config(_))));
    let mut config = cluster("msk", &[], true);
    config.aws_msk_iam = Some(AwsMskIamConfig { region: None });
    let refused: Step = KafkaClient::new(&config, signer_built_in());
    assert!(matches!(refused, ClientStep::Failed(KlagError::Config(e)) if e == REGION_REQUIRED));
}

#[test]
fn the_admin_client_is_created_before_the_consumer() {
    let config = cluster("prod", &[], false);
    let given: Option<Arc<dyn OAuthTokenProvider>> = Some(Arc::new(NamedProvider));
    let step: CreateStep<u8, u16> = create_clients(&config, given);
    let CreateStep::Admin { config, context, pending } = step else {
        panic!("the admin client comes first");
    };
    assert_eq!(config.get("client.id"), Some("klag-exporter-prod"));
    assert_eq!(config.get("group.id"), None);
    assert_eq!(answer(&context), "named");
    let step: CreateStep<u8, u16> = pending.admin_created(Ok(1));
    let CreateStep::Consumer { config, context, waiting } = step else {
        panic!("the consumer comes next");
    };
    assert_eq!(config.get("group.id"), Some("klag-exporter-internal-prod"));
    assert_eq!(answer(&context), "named");
    match waiting.consumer_created(Ok(2u16)) {
        CreateStep::Done(Ok(created)) => assert_eq!(created, (1, 2)),
        _ => panic!("both were created"),
    }
}

#[test]
fn a_failed_admin_client_means_no_consumer() {
    let start = || -> CreateStep<u8, u16> { create_clients(&cluster("prod", &[], false), None) };
    let CreateStep::Admin { pending, .. } = start() else {
        panic!("the admin client comes first");
    };
    let step: CreateStep<u8, u16> = pending.admin_created(Err(KafkaError::Canceled));
    assert!(matches!(step, CreateStep::Done(Err(KlagError::Kafka(KafkaError::Canceled)))));
    let CreateStep::Admin { pending, .. } = start() else {
        panic!("the admin client comes first");
    };
    let CreateStep::Consumer { waiting, .. } = pending.admin_created::<u8, u16>(Ok(1)) else {
        panic!("the consumer comes next");
    };
    let step = waiting.consumer_created::<u16>(Err(KafkaError::NoMessageReceived));
    assert!(matches!(step, CreateStep::Done(Err(KlagError::Kafka(KafkaError::NoMessageReceived)))));
}

#[test]
fn oauthbearer_without_iam_has_no_token_provider() {
    let config = cluster("oidc", &[("sasl.mechanism", "OAUTHBEARER")], false);
    let step: Step = KafkaClient::new(&config, signer_built_in());
    let ClientStep::Create { first: CreateStep::Admin { config, context, .. }, .. } = step else {
        panic!("no token provider is needed");
    };
    assert_eq!(config.get("sasl.mechanism"), Some("OAUTHBEARER"));
    assert!(answer(&context).contains("no token provider is configured"));
}

#[test]
fn a_client_is_put_together_with_the_defaults() {
    let client = client();
    assert_eq!(client.cluster_name(), "prod");
    assert_eq!(*client.admin_handle(), 1);
    assert_eq!(*client.consumer_handle(), 2);
    assert_eq!(client.query_all().timeout, Duration::from_secs(30));
    assert!(client.query_all().name.is_none());
    let performance = client.performance();
    assert_eq!(performance.kafka_timeout, Duration::from_secs(30));
    assert_eq!(performance.offset_fetch_timeout, Duration::from_secs(10));
    assert_eq!(performance.max_concurrent_groups, 10);
    assert_eq!(performance.max_concurrent_watermarks, 50);
    assert_eq!(performance.client_recycle_interval, 50);
}

#[test]
fn a_client_takes_its_timeout_from_the_limits() {
    let client = client_with_timeout(Duration::from_secs(7));
    assert_eq!(client.query_all().timeout, Duration::from_secs(7));
    assert_eq!(client.performance().kafka_timeout, Duration::from_secs(7));
}

#[test]
fn a_client_that_cannot_be_created_is_an_error() {
    let step: Step = KafkaClient::new(&cluster("prod", &[], false), signer_built_in());
    let ClientStep::Create { setup, .. } = step else {
        panic!("no token provider is needed");
    };
    let failed = Err(KlagError::Kafka(KafkaError::ClientCreation("no".to_string())));
    match setup.finish::<u8, u16>(failed) {
        Err(KlagError::Kafka(e)) => assert_eq!(e, KafkaError::ClientCreation("no".to_string())),
        _ => panic!("creation failed"),
    }
}

#[test]
fn recycling_replaces_both_clients() {
    let mut client = client();
    let CreateStep::Admin { config, .. } = client.start_recycling() else {
        panic!("the admin client comes first");
    };
    assert_eq!(config.get("client.id"), Some("klag-exporter-prod"));
    let held = client.admin_handle();
    assert!(client.recycle(Ok((11, 12))).is_ok());
    assert_eq!(*client.admin_handle(), 11);
    assert_eq!(*client.consumer_handle(), 12);
    assert_eq!(*held, 1);
}

#[test]
fn a_failed_recycling_keeps_the_old_clients() {
    let mut client = client();
    match client.recycle(Err(KlagError::Kafka(KafkaError::Canceled))) {
        Err(KlagError::Kafka(e)) => assert_eq!(e, KafkaError::Canceled),
        _ => panic!("recycling failed"),
    }
    assert_eq!(*client.admin_handle(), 1);
    assert_eq!(*client.consumer_handle(), 2);
}

struct NamedProvider;

impl OAuthTokenProvider for NamedProvider {
    fn generate(&self) -> Result<OAuthToken, String> {
        Err("named".to_string())
    }
}

fn listing(name: &str, protocol_type: &str, state: &str) -> GroupListing {
    GroupListing {
        name: name.to_string(),
        protocol_type: protocol_type.to_string(),
        state: state.to_string(),
    }
}

#[test]
fn groups_are_listed_in_order() {
    let fetched = vec![listing("b", "consumer", "Stable"), listing("a", "connect", "Empty")];
    let groups = client().list_consumer_groups(Ok(fetched)).unwrap();
    assert_eq!(groups.len(), 2);
    assert_eq!(groups[0].group_id, "b");
    assert_eq!(groups[0].protocol_type, "consumer");
    assert_eq!(groups[0].state, "Stable");
    assert_eq!(groups[1].group_id, "a");
    assert_eq!(groups[1].protocol_type, "connect");
    assert_eq!(groups[1].state, "Empty");
}

#[test]
fn a_failed_listing_is_an_error() {
    let groups = client().list_consumer_groups(Err(KafkaError::NoMessageReceived));
    assert!(matches!(groups, Err(KlagError::Kafka(KafkaError::NoMessageReceived))));
}

#[test]
fn groups_are_described_a_hundred_at_a_time() {
    let client = client_with_timeout(Duration::from_secs(9));
    let ids = ["a", "b"];
    let query = client.describe_query(&ids, true, 4);
    assert_eq!(query.group_ids, &["a", "b"][..]);
    assert_eq!(query.timeout, Duration::from_secs(9));
    assert_eq!(query.chunk_size, 100);
    assert!(query.parse_assignments);
    assert_eq!(query.max_concurrent_chunks, 4);
}

#[test]
fn described_groups_keep_their_members() {
    let member = |id: &str, assignments: Vec<TopicPartition>| BatchedMember {
        member_id: id.to_string(),
        client_id: format!("{}-client", id),
        client_host: format!("/10.0.0.{}", id.len()),
        assignments,
    };
    let batched = vec![
        BatchedGroup {
            group_id: "g1".to_string(),
            state: "Stable".to_string(),
            members: vec![
                member("m1", vec![TopicPartition::new("orders", 0)]),
                member("m-2", vec![]),
            ],
        },
        BatchedGroup { group_id: "g2".to_string(), state: "Empty".to_string(), members: vec![] },
    ];
    let groups = client().describe_consumer_groups(Ok(batched)).unwrap();
    assert_eq!(groups.len(), 2);
    assert_eq!(groups[0].group_id, "g1");
    assert_eq!(groups[0].state, "Stable");
    assert_eq!(groups[0].protocol_type, "");
    assert_eq!(groups[0].protocol, "");
    assert_eq!(groups[0].members.len(), 2);
    assert_eq!(groups[0].members[0].member_id, "m1");
    assert_eq!(groups[0].members[0].client_id, "m1-client");
    assert_eq!(groups[0].members[0].client_host, "/10.0.0.2");
    assert_eq!(groups[0].members[0].assignments, vec![TopicPartition::new("orders", 0)]);
    assert_eq!(groups[0].members[1].client_host, "/10.0.0.3");
    assert!(groups[0].members[1].assignments.is_empty());
    assert_eq!(groups[1].group_id, "g2");
    assert!(groups[1].members.is_empty());
}

#[test]
fn a_failed_description_is_an_error() {
    let failed = Err(KlagError::Config("no".to_string()));
    let groups = client().describe_consumer_groups(failed);
    assert!(matches!(groups, Err(KlagError::Config(e)) if e == "no"));
}

#[test]
fn metadata_passes_through() {
    assert_eq!(client().fetch_metadata(Ok(5)).unwrap(), 5);
    let failed = client().fetch_metadata::<u8>(Err(KafkaError::Canceled));
    assert!(matches!(failed, Err(KlagError::Kafka(KafkaError::Canceled))));
}

#[test]
fn a_kafka_error_becomes_one_of_the_exporter() {
    assert_eq!(kafka_result::<u8>(Ok(3)).unwrap(), 3);
    let failed = kafka_result::<u8>(Err(KafkaError::PartitionEOF(3)));
    assert!(matches!(failed, Err(KlagError::Kafka(KafkaError::PartitionEOF(3)))));
}

fn describe_with(timeout: Duration) -> Result<usize, KafkaError> {
    let mut config = ClientConfig::new();
    config.set("bootstrap.servers", "127.0.0.1:1");
    let admin: AdminClient<DefaultClientContext> = config.create().unwrap();
    let options = client_with_timeout(timeout).admin_options();
    let topics = [ResourceSpecifier::Topic("orders")];
    let runtime = tokio::runtime::Builder::new_current_thread().build().unwrap();
    runtime.block_on(admin.describe_configs(topics.iter(), &options)).map(|all| all.len())
}

#[test]
fn admin_options_carry_the_timeout() {
    // Nothing listens there: the call ends when the timeout is over.
    match describe_with(Duration::new(0, 50_000_000)) {
        Err(KafkaError::AdminOp(_)) => {}
        other => panic!("the call should time out, but gave {:?}", other),
    }
}

#[test]
fn admin_options_with_a_timeout_out_of_range_are_refused() {
    // An admin call may take an hour at most.
    match describe_with(Duration::from_secs(7200)) {
        Err(KafkaError::AdminOpCreation(_)) => {}
        other => panic!("the timeout is out of range, but the call gave {:?}", other),
    }
}

#[test]
fn only_the_named_topics_are_asked_about() {
    let client = client();
    assert!(client.config_query(&[]).is_none());
    let names = vec!["orders".to_string(), "payments".to_string()];
    let query = client.config_query(&names).unwrap();
    assert_eq!(query.topics, names);
}
