use klag_exporter::cluster::collection::{CollectAction, CollectEvent, CollectStage};
use klag_exporter::cluster::manager::ClusterManager;
use klag_exporter::config::{
    ClusterConfig, ExporterConfig, Granularity, PerformanceConfig, StringMap,
    TimestampSamplingConfig, TimestampSamplingMode,
};
use klag_exporter::duration::Duration;
use klag_exporter::error::KlagError;
use std::sync::Arc;

fn manager(sampling: bool) -> ClusterManager {
    let mut labels = StringMap::new();
    labels.insert("environment".to_string(), "production".to_string());
    let config = ClusterConfig {
        name: "prod".to_string(),
        bootstrap_servers: "localhost:9092".to_string(),
        consumer_properties: StringMap::new(),
        labels,
        aws_msk_iam: None,
    };
    let exporter = ExporterConfig {
        poll_interval: Duration::from_secs(30),
        granularity: Granularity::Topic,
        timestamp_sampling: TimestampSamplingConfig {
            enabled: sampling,
            mode: TimestampSamplingMode::Rate,
            cache_ttl: Duration::from_secs(60),
            max_concurrent_fetches: 10,
            rate_history_samples: 12,
            rate_history_max_age: Duration::from_secs(600),
            rate_min_msgs_per_sec_bits: 0.01f64.to_bits(),
        },
        performance: PerformanceConfig::default(),
    };
    ClusterManager::new(&config, &exporter)
}

/// A snapshot and time lags that stand for themselves.
type Stage = CollectStage<&'static str, u8>;
type Event = CollectEvent<&'static str, u8>;
type Action = CollectAction<&'static str, u8>;

fn elapsed(millis: u32) -> Event {
    CollectEvent::TimeElapsed { elapsed: Duration::new(0, millis * 1_000_000 + 999_999) }
}

fn collected() -> Event {
    CollectEvent::OffsetsCollected { outcome: Ok(Arc::new("snapshot")) }
}

fn clock() -> Event {
    CollectEvent::ClockRead { now: Duration::new(1_700_000_000, 123_999_999) }
}

const NOW_MS: i64 = 1_700_000_000_123;

fn assert_published(asked: &[Action], lags: Option<u8>, poll_ms: u64) {
    match asked {
        [CollectAction::PublishLag {
            cluster_name,
            labels,
            snapshot,
            time_lags,
            now_ms,
            poll_time_ms,
            granularity,
        }, CollectAction::ReadElapsed] => {
            assert_eq!(cluster_name, "prod");
            assert_eq!(labels.get("environment").unwrap(), "production");
            assert_eq!(**snapshot, "snapshot");
            assert_eq!(*time_lags, lags);
            assert_eq!(*now_ms, NOW_MS);
            assert_eq!(*poll_time_ms, poll_ms);
            assert_eq!(*granularity, Granularity::Topic);
        }
        _ => panic!("the lag is published"),
    }
}

#[test]
fn a_collection_with_a_sampler_is_for_one_snapshot() {
    let m = manager(true);
    let (stage, first): (Stage, Action) = m.begin_collection();
    assert!(matches!(first, CollectAction::CollectOffsets));

    let (stage, asked) = m.collect_once(stage, collected());
    assert!(matches!(asked[..], [CollectAction::ReadClock]));
    let (stage, asked) = m.collect_once(stage, clock());
    match &asked[..] {
        [CollectAction::ComputeTimeLags { snapshot, now_ms, max_concurrent_fetches }] => {
            assert_eq!(**snapshot, "snapshot");
            assert_eq!(*now_ms, NOW_MS);
            assert_eq!(*max_concurrent_fetches, 10);
        }
        _ => panic!("time lags are computed"),
    }
    let (stage, asked) = m.collect_once(stage, CollectEvent::TimeLagsComputed { lags: 7 });
    assert!(matches!(asked[..], [CollectAction::ReadElapsed]));
    let (stage, asked) = m.collect_once(stage, elapsed(40));
    assert_published(&asked, Some(7), 40);
    let (stage, asked) = m.collect_once(stage, elapsed(45));
    assert!(matches!(
        asked[..],
        [CollectAction::RecordScrapeDuration { millis: 45 }, CollectAction::Finish(Ok(()))]
    ));
    assert!(matches!(stage, CollectStage::Finished));
}

#[test]
fn a_collection_without_a_sampler_publishes_without_time_lags() {
    let m = manager(false);
    let (stage, _): (Stage, Action) = m.begin_collection();
    let (stage, _) = m.collect_once(stage, collected());
    let (stage, asked) = m.collect_once(stage, clock());
    assert!(matches!(asked[..], [CollectAction::ReadElapsed]));
    let (stage, asked) = m.collect_once(stage, elapsed(7));
    assert_published(&asked, None, 7);
    assert!(matches!(stage, CollectStage::ScrapeTime));
}

#[test]
fn a_failed_collection_publishes_nothing() {
    let m = manager(true);
    let (stage, _): (Stage, Action) = m.begin_collection();
    let failed = Err(KlagError::Config("no offsets".to_string()));
    let (stage, asked) = m.collect_once(stage, CollectEvent::OffsetsCollected { outcome: failed });
    match &asked[..] {
        [CollectAction::Finish(Err(KlagError::Config(e)))] => assert_eq!(e, "no offsets"),
        _ => panic!("the collection failed"),
    }
    assert!(matches!(stage, CollectStage::Finished));
}

#[test]
fn milliseconds_beyond_the_range_keep_their_lower_bits() {
    let m = manager(false);
    // u64::MAX seconds are more milliseconds than a u64 holds.
    let long: Event = CollectEvent::TimeElapsed { elapsed: Duration::from_secs(u64::MAX) };
    let (_, asked) = m.collect_once(CollectStage::ScrapeTime, long);
    let millis = (u64::MAX as u128 * 1000) as u64;
    match asked[0] {
        CollectAction::RecordScrapeDuration { millis: recorded } => assert_eq!(recorded, millis),
        _ => panic!("the duration is recorded"),
    }
}
