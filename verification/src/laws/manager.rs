//! Laws of what the collection of a cluster goes by.

use crate::cluster::manager::{ClusterManager, SamplerPlan};
use crate::config::{ClusterConfig, ExporterConfig, StringMap};
use vstd::prelude::*;

verus! {

/// Time lag is sampled where sampling is enabled, and only there: in message mode by a
/// pool of the configured size, with the configured lifetime of what it reads; in rate mode
/// by the configured history and lowest rate.
pub proof fn law_sampling_is_as_configured(
    config: &ClusterConfig,
    exporter: &ExporterConfig,
    manager: ClusterManager,
)
    requires
        call_ensures(ClusterManager::new, (config, exporter), manager),
    ensures
        manager.timestamp_sampler is Some <==> exporter.timestamp_sampling.enabled,
        exporter.timestamp_sampling.enabled && exporter.timestamp_sampling.mode is Message ==> {
            &&& manager.timestamp_sampler matches Some(SamplerPlan::Message { pool_size, cache_ttl })
            &&& pool_size == exporter.timestamp_sampling.max_concurrent_fetches
            &&& cache_ttl == exporter.timestamp_sampling.cache_ttl
        },
        exporter.timestamp_sampling.enabled && exporter.timestamp_sampling.mode is Rate ==> {
            &&& manager.timestamp_sampler matches Some(
                SamplerPlan::Rate { history_samples, history_max_age, min_msgs_per_sec_bits },
            )
            &&& history_samples == exporter.timestamp_sampling.rate_history_samples
            &&& history_max_age == exporter.timestamp_sampling.rate_history_max_age
            &&& min_msgs_per_sec_bits == exporter.timestamp_sampling.rate_min_msgs_per_sec_bits
        },
        manager.max_concurrent_fetches == exporter.timestamp_sampling.max_concurrent_fetches,
{
}

/// A collection has all but five seconds of a poll interval of more than ten seconds, and
/// half of a shorter one: always less than the interval, and something of any that has a
/// half. Backoff ends at five minutes, and the cache is cleaned up after twice the lifetime
/// of its entries.
pub proof fn law_timing_is_as_configured(
    config: &ClusterConfig,
    exporter: &ExporterConfig,
    manager: ClusterManager,
)
    requires
        call_ensures(ClusterManager::new, (config, exporter), manager),
    ensures
        manager.poll_interval@ == exporter.poll_interval@,
        exporter.poll_interval@ > 10_000_000_000 ==> manager.collection_timeout@ + 5_000_000_000
            == exporter.poll_interval@,
        exporter.poll_interval@ <= 10_000_000_000 ==> manager.collection_timeout@
            == exporter.poll_interval@ / 2,
        exporter.poll_interval@ > 0 ==> manager.collection_timeout@ < exporter.poll_interval@,
        exporter.poll_interval@ > 1 ==> manager.collection_timeout@ > 0,
        manager.max_backoff@ == 300_000_000_000,
        manager.cache_cleanup_interval@ == exporter.timestamp_sampling.cache_ttl@
            + exporter.timestamp_sampling.cache_ttl@,
{
}

/// The metrics of a cluster carry its name and every label of it, at the granularity of
/// the exporter, and its clients are recycled at the exporter's interval.
pub proof fn law_metrics_are_as_configured(
    config: &ClusterConfig,
    exporter: &ExporterConfig,
    manager: ClusterManager,
    key: &str,
    label: Option<&String>,
    configured: Option<&String>,
)
    requires
        call_ensures(ClusterManager::new, (config, exporter), manager),
        call_ensures(StringMap::get, (&manager.cluster_labels, key), label),
        call_ensures(StringMap::get, (&config.labels, key), configured),
    ensures
        manager.cluster_name@ == config.name@,
        match configured {
            Some(value) => label matches Some(v) && v@ == value@,
            None => label is None,
        },
        manager.granularity == exporter.granularity,
        manager.client_recycle_interval == exporter.performance.client_recycle_interval,
{
}

/// Every configuration whose cache lifetime can be doubled is taken, and its loop can run
/// where neither the poll interval nor that lifetime is zero.
pub proof fn law_every_configuration_is_taken(
    config: &ClusterConfig,
    exporter: &ExporterConfig,
    manager: ClusterManager,
    is_leader: bool,
)
    requires
        2 * exporter.timestamp_sampling.cache_ttl@ <= 18_446_744_073_709_551_615_999_999_999,
        call_ensures(ClusterManager::new, (config, exporter), manager),
    ensures
        call_requires(ClusterManager::new, (config, exporter)),
        exporter.poll_interval@ > 0 && exporter.timestamp_sampling.cache_ttl@ > 0 ==> call_requires(
            ClusterManager::start,
            (&manager, is_leader),
        ),
{
}

} // verus!
