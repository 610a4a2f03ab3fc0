use klag_exporter::cluster::manager::ClusterManager;
use klag_exporter::cluster::setup::{ClusterSetup, SetupAction, SetupEvent};
use klag_exporter::config::{
    AwsMskIamConfig, ClusterConfig, ExporterConfig, Granularity, PerformanceConfig, StringMap,
    TimestampSamplingConfig, TimestampSamplingMode,
};
use klag_exporter::duration::Duration;
use klag_exporter::error::KlagError;
use klag_exporter::kafka::auth::{MskIamSupport, REGION_REQUIRED};
use rdkafka::error::KafkaError;
use std::sync::Arc;

/// Providers that stand for themselves.
type Setup = ClusterSetup<str>;
type Event = SetupEvent<str>;
type Action = SetupAction<str>;

fn setup(sampling: Option<TimestampSamplingMode>, iam: Option<AwsMskIamConfig>) -> Setup {
    let config = ClusterConfig {
        name: "prod".to_string(),
        bootstrap_servers: "localhost:9092".to_string(),
        consumer_properties: StringMap::new(),
        labels: StringMap::new(),
        aws_msk_iam: iam,
    };
    let exporter = ExporterConfig {
        poll_interval: Duration::from_secs(30),
        granularity: Granularity::Topic,
        timestamp_sampling: TimestampSamplingConfig {
            enabled: sampling.is_some(),
            mode: sampling.unwrap_or(TimestampSamplingMode::Message),
            cache_ttl: Duration::from_secs(60),
            max_concurrent_fetches: 10,
            rate_history_samples: 12,
            rate_history_max_age: Duration::from_secs(600),
            rate_min_msgs_per_sec_bits: 0.01f64.to_bits(),
        },
        performance: PerformanceConfig::default(),
    };
    ClusterSetup::new(config, exporter)
}

fn filters_compiled() -> Event {
    SetupEvent::FiltersCompiled {
        outcome: Ok(()),
        support: MskIamSupport::BuiltIn { aws_region: None, aws_default_region: None },
    }
}

fn ready(action: Action) -> ClusterManager {
    match action {
        SetupAction::Ready(manager) => manager,
        _ => panic!("the setup should be complete"),
    }
}

#[test]
fn message_sampling_needs_a_pool() {
    let mut setup = setup(Some(TimestampSamplingMode::Message), None);
    match setup.advance(filters_compiled()) {
        SetupAction::CreateClient { token_provider, performance } => {
            assert!(token_provider.is_none());
            assert_eq!(performance.kafka_timeout, Duration::from_secs(30));
        }
        _ => panic!("clients are next"),
    }
    match setup.advance(SetupEvent::ClientCreated { outcome: Ok(()) }) {
        SetupAction::CreateTimestampPool { pool_size, token_provider } => {
            assert_eq!(pool_size, 10);
            assert!(token_provider.is_none());
        }
        _ => panic!("the pool is next"),
    }
    let manager = ready(setup.advance(SetupEvent::TimestampPoolCreated { outcome: Ok(()) }));
    assert_eq!(manager.cluster_name, "prod");
    assert_eq!(manager.collection_timeout, Duration::from_secs(25));
}

#[test]
fn no_pool_is_created_for_rates_or_without_sampling() {
    for sampling in [Some(TimestampSamplingMode::Rate), None] {
        let mut setup = setup(sampling, None);
        setup.advance(filters_compiled());
        let manager = ready(setup.advance(SetupEvent::ClientCreated { outcome: Ok(()) }));
        assert_eq!(manager.timestamp_sampler.is_some(), sampling.is_some());
    }
}

#[test]
fn one_provider_is_shared_by_the_clients_and_the_pool() {
    let iam = AwsMskIamConfig { region: Some("us-east-1".to_string()) };
    let mut setup = setup(Some(TimestampSamplingMode::Message), Some(iam));
    match setup.advance(filters_compiled()) {
        SetupAction::ShareProvider { signer } => assert_eq!(signer.region(), "us-east-1"),
        _ => panic!("a provider is to be shared"),
    }
    let provider: Arc<str> = Arc::from("provider");
    match setup.advance(SetupEvent::ProviderShared { provider: Arc::clone(&provider) }) {
        SetupAction::CreateClient { token_provider, .. } => {
            assert!(Arc::ptr_eq(&token_provider.unwrap(), &provider));
        }
        _ => panic!("clients are next"),
    }
    match setup.advance(SetupEvent::ClientCreated { outcome: Ok(()) }) {
        SetupAction::CreateTimestampPool { token_provider, .. } => {
            assert!(Arc::ptr_eq(&token_provider.unwrap(), &provider));
        }
        _ => panic!("the pool is next"),
    }
}

#[test]
fn a_missing_region_fails_the_setup() {
    match setup(None, Some(AwsMskIamConfig { region: None })).advance(filters_compiled()) {
        SetupAction::Fail(KlagError::Config(e)) => assert_eq!(e, REGION_REQUIRED),
        _ => panic!("the setup should fail"),
    }
}

#[test]
fn the_first_failure_ends_the_setup() {
    let bad_filter = SetupEvent::FiltersCompiled {
        outcome: Err(KlagError::Config("bad filter".to_string())),
        support: MskIamSupport::NotBuilt,
    };
    // The filters fail before anyone looks at the region.
    match setup(None, Some(AwsMskIamConfig { region: None })).advance(bad_filter) {
        SetupAction::Fail(KlagError::Config(e)) => assert_eq!(e, "bad filter"),
        _ => panic!("the setup should fail"),
    }
    let failed = || Err(KlagError::Kafka(KafkaError::Canceled));
    let mut no_client = setup(Some(TimestampSamplingMode::Message), None);
    no_client.advance(filters_compiled());
    match no_client.advance(SetupEvent::ClientCreated { outcome: failed() }) {
        SetupAction::Fail(KlagError::Kafka(e)) => assert_eq!(e, KafkaError::Canceled),
        _ => panic!("the setup should fail"),
    }
    let mut no_pool = setup(Some(TimestampSamplingMode::Message), None);
    no_pool.advance(filters_compiled());
    no_pool.advance(SetupEvent::ClientCreated { outcome: Ok(()) });
    match no_pool.advance(SetupEvent::TimestampPoolCreated { outcome: failed() }) {
        SetupAction::Fail(KlagError::Kafka(e)) => assert_eq!(e, KafkaError::Canceled),
        _ => panic!("the setup should fail"),
    }
}
