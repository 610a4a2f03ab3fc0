use klag_exporter::cluster::manager::{ClusterManager, SamplerPlan};
use klag_exporter::cluster::run::{LoopAction, LoopEvent, LoopPhase, LoopState};
use klag_exporter::config::{
    ClusterConfig, ExporterConfig, Granularity, PerformanceConfig, StringMap,
    TimestampSamplingConfig, TimestampSamplingMode,
};
use klag_exporter::duration::Duration;

fn secs(n: u64) -> Duration {
    Duration::from_secs(n)
}

fn exporter(sampling: Option<TimestampSamplingMode>, recycle_interval: u64) -> ExporterConfig {
    let mut performance = PerformanceConfig::default();
    performance.client_recycle_interval = recycle_interval;
    ExporterConfig {
        poll_interval: secs(30),
        granularity: Granularity::Partition,
        timestamp_sampling: TimestampSamplingConfig {
            enabled: sampling.is_some(),
            mode: sampling.unwrap_or(TimestampSamplingMode::Rate),
            cache_ttl: secs(60),
            max_concurrent_fetches: 10,
            rate_history_samples: 12,
            rate_history_max_age: secs(600),
            rate_min_msgs_per_sec_bits: 0.01f64.to_bits(),
        },
        performance,
    }
}

fn cluster() -> ClusterConfig {
    let mut labels = StringMap::new();
    labels.insert("environment".to_string(), "production".to_string());
    ClusterConfig {
        name: "prod".to_string(),
        bootstrap_servers: "localhost:9092".to_string(),
        consumer_properties: StringMap::new(),
        labels,
        aws_msk_iam: None,
    }
}

fn manager(sampling: Option<TimestampSamplingMode>, recycle_interval: u64) -> ClusterManager {
    ClusterManager::new(&cluster(), &exporter(sampling, recycle_interval))
}

fn collect(manager: &ClusterManager, state: &mut LoopState, end: LoopEvent) -> Vec<LoopAction> {
    let asked = manager.run(state, LoopEvent::PollTick { is_leader: true });
    assert_eq!(asked, [LoopAction::Collect { timeout: secs(25) }]);
    assert_eq!(state.phase, LoopPhase::Collecting);
    let asked = manager.run(state, end);
    assert_eq!(state.phase, LoopPhase::Waiting);
    asked
}

const HEALTHY: LoopAction = LoopAction::SetHealthy { healthy: true };
const UNHEALTHY: LoopAction = LoopAction::SetHealthy { healthy: false };

#[test]
fn a_manager_goes_by_its_configuration() {
    let m = manager(Some(TimestampSamplingMode::Message), 50);
    assert_eq!(m.cluster_name, "prod");
    assert_eq!(m.cluster_labels.get("environment").map(|l| l.as_str()), Some("production"));
    assert_eq!(m.poll_interval, secs(30));
    assert_eq!(m.max_backoff, secs(300));
    assert_eq!(m.granularity, Granularity::Partition);
    assert_eq!(m.max_concurrent_fetches, 10);
    assert_eq!(m.cache_cleanup_interval, secs(120));
    assert_eq!(m.collection_timeout, secs(25));
    assert_eq!(m.client_recycle_interval, 50);
    match m.timestamp_sampler {
        Some(SamplerPlan::Message { pool_size, cache_ttl }) => {
            assert_eq!(pool_size, 10);
            assert_eq!(cache_ttl, secs(60));
        }
        _ => panic!("messages are sampled"),
    }
}

#[test]
fn rate_sampling_needs_no_pool() {
    match manager(Some(TimestampSamplingMode::Rate), 50).timestamp_sampler {
        Some(SamplerPlan::Rate { history_samples, history_max_age, min_msgs_per_sec_bits }) => {
            assert_eq!(history_samples, 12);
            assert_eq!(history_max_age, secs(600));
            assert_eq!(f64::from_bits(min_msgs_per_sec_bits), 0.01);
        }
        _ => panic!("rates are sampled"),
    }
    assert!(manager(None, 50).timestamp_sampler.is_none());
}

#[test]
fn a_collection_fits_the_poll_interval() {
    let timeout_for = |poll_interval: Duration| {
        let mut config = exporter(None, 50);
        config.poll_interval = poll_interval;
        ClusterManager::new(&cluster(), &config).collection_timeout
    };
    assert_eq!(timeout_for(secs(30)), secs(25));
    assert_eq!(timeout_for(secs(300)), secs(295));
    assert_eq!(timeout_for(Duration::new(10, 1)), Duration::new(5, 1));
    assert_eq!(timeout_for(secs(10)), secs(5));
    assert_eq!(timeout_for(secs(3)), Duration::new(1, 500_000_000));
    assert_eq!(timeout_for(Duration::new(0, 2)), Duration::new(0, 1));
}

#[test]
fn who_leads_collects() {
    let m = manager(None, 50);
    let mut state = m.start(true);
    assert_eq!(collect(&m, &mut state, LoopEvent::Collected), [HEALTHY]);
}

#[test]
fn who_stands_by_does_not_collect() {
    let m = manager(None, 50);
    let mut state = m.start(false);
    assert!(m.run(&mut state, LoopEvent::PollTick { is_leader: false }).is_empty());
    assert_eq!(state.phase, LoopPhase::Waiting);
    collect(&m, &mut state, LoopEvent::Collected);
}

#[test]
fn lost_leadership_removes_the_metrics_once() {
    let m = manager(None, 50);
    let mut state = m.start(true);
    collect(&m, &mut state, LoopEvent::Collected);
    let lost = LoopEvent::PollTick { is_leader: false };
    assert_eq!(m.run(&mut state, lost), [LoopAction::RemoveCluster]);
    assert!(m.run(&mut state, lost).is_empty());
}

#[test]
fn shutdown_removes_the_metrics_and_stops() {
    let m = manager(None, 50);
    let mut state = m.start(true);
    let asked = m.run(&mut state, LoopEvent::Shutdown);
    assert_eq!(asked, [LoopAction::RemoveCluster, LoopAction::Stop]);
    assert_eq!(state.phase, LoopPhase::Stopped);
}

#[test]
fn the_third_failure_in_a_row_is_unhealthy() {
    let m = manager(None, 50);
    let mut state = m.start(true);
    assert!(collect(&m, &mut state, LoopEvent::CollectionFailed).is_empty());
    assert!(collect(&m, &mut state, LoopEvent::CollectionTimedOut).is_empty());
    let asked = collect(&m, &mut state, LoopEvent::CollectionTimedOut);
    assert_eq!(asked, [UNHEALTHY]);
    assert_eq!(state.consecutive_errors, 3);
    assert_eq!(collect(&m, &mut state, LoopEvent::Collected), [HEALTHY]);
    assert_eq!(state.consecutive_errors, 0);
}

#[test]
fn the_backoff_doubles_up_to_five_minutes() {
    let m = manager(None, 50);
    let mut state = m.start(true);
    collect(&m, &mut state, LoopEvent::CollectionFailed);
    collect(&m, &mut state, LoopEvent::CollectionFailed);
    for pause in [1, 2, 4, 8, 16, 32, 64, 128, 256, 300, 300] {
        let asked = collect(&m, &mut state, LoopEvent::CollectionFailed);
        assert_eq!(asked, [UNHEALTHY, LoopAction::Sleep { pause: secs(pause) }]);
    }
    collect(&m, &mut state, LoopEvent::Collected);
    collect(&m, &mut state, LoopEvent::CollectionFailed);
    collect(&m, &mut state, LoopEvent::CollectionFailed);
    let asked = collect(&m, &mut state, LoopEvent::CollectionFailed);
    assert_eq!(asked, [UNHEALTHY, LoopAction::Sleep { pause: secs(1) }]);
}

#[test]
fn a_timeout_does_not_pause() {
    let m = manager(None, 50);
    let mut state = m.start(true);
    for _ in 0..3 {
        collect(&m, &mut state, LoopEvent::CollectionFailed);
    }
    assert_eq!(collect(&m, &mut state, LoopEvent::CollectionTimedOut), [UNHEALTHY]);
    let asked = collect(&m, &mut state, LoopEvent::CollectionFailed);
    assert_eq!(asked, [UNHEALTHY, LoopAction::Sleep { pause: secs(2) }]);
}

#[test]
fn clients_are_recycled_once_per_interval() {
    let m = manager(Some(TimestampSamplingMode::Message), 3);
    let mut state = m.start(true);
    let recycled = [HEALTHY, LoopAction::RecycleClients, LoopAction::RecycleTimestampPool];
    for _ in 0..3 {
        assert_eq!(collect(&m, &mut state, LoopEvent::Collected), [HEALTHY]);
        collect(&m, &mut state, LoopEvent::CollectionFailed);
        assert_eq!(collect(&m, &mut state, LoopEvent::Collected), [HEALTHY]);
        m.run(&mut state, LoopEvent::PollTick { is_leader: false });
        assert_eq!(collect(&m, &mut state, LoopEvent::Collected), recycled);
    }
}

#[test]
fn without_a_sampler_only_the_clients_are_recycled() {
    let m = manager(None, 1);
    let mut state = m.start(true);
    for _ in 0..2 {
        let asked = collect(&m, &mut state, LoopEvent::Collected);
        assert_eq!(asked, [HEALTHY, LoopAction::RecycleClients]);
    }
}

#[test]
fn an_interval_of_zero_never_recycles() {
    let m = manager(None, 0);
    let mut state = m.start(true);
    for _ in 0..100 {
        assert_eq!(collect(&m, &mut state, LoopEvent::Collected), [HEALTHY]);
    }
    assert_eq!(state.cycle_count, 0);
}

#[test]
fn only_a_leader_with_a_sampler_cleans_up() {
    let m = manager(Some(TimestampSamplingMode::Message), 50);
    let mut state = m.start(true);
    let asked = m.run(&mut state, LoopEvent::CleanupTick { is_leader: true });
    assert_eq!(asked, [LoopAction::ClearStaleEntries]);
    assert!(m.run(&mut state, LoopEvent::CleanupTick { is_leader: false }).is_empty());
    let bare = manager(None, 50);
    let mut state = bare.start(true);
    assert!(bare.run(&mut state, LoopEvent::CleanupTick { is_leader: true }).is_empty());
}

#[test]
fn a_cleanup_does_not_look_at_lost_leadership() {
    // Only the next poll tick removes the metrics.
    let m = manager(None, 50);
    let mut state = m.start(true);
    assert!(m.run(&mut state, LoopEvent::CleanupTick { is_leader: false }).is_empty());
    let asked = m.run(&mut state, LoopEvent::PollTick { is_leader: false });
    assert_eq!(asked, [LoopAction::RemoveCluster]);
}
