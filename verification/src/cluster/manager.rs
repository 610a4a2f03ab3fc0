//! What the collection of one cluster goes by.

use crate::config::{
    ClusterConfig, ExporterConfig, Granularity, StringMap, TimestampSamplingConfig,
    TimestampSamplingMode,
};
use crate::duration::{seconds, Duration, MAX_NANOS};
use vstd::prelude::*;

verus! {

/// The longest pause between two collections that keep failing.
pub const MAX_BACKOFF_SECS: u64 = 300;

/// How time lag is sampled.
#[derive(Clone, Copy, Debug)]
pub enum SamplerPlan {
    /// By reading messages, through a pool of consumers.
    Message { pool_size: usize, cache_ttl: Duration },
    /// By the rate at which partitions grow; no consumers are needed.
    Rate {
        history_samples: usize,
        history_max_age: Duration,
        /// The IEEE 754 bits of the lowest rate that gives a time lag.
        min_msgs_per_sec_bits: u64,
    },
}

/// How time lag is sampled under a configuration, if at all.
pub open spec fn sampler_plan(config: TimestampSamplingConfig) -> Option<SamplerPlan> {
    if !config.enabled {
        None
    } else if config.mode == TimestampSamplingMode::Message {
        Some(
            SamplerPlan::Message {
                pool_size: config.max_concurrent_fetches,
                cache_ttl: config.cache_ttl,
            },
        )
    } else {
        Some(
            SamplerPlan::Rate {
                history_samples: config.rate_history_samples,
                history_max_age: config.rate_history_max_age,
                min_msgs_per_sec_bits: config.rate_min_msgs_per_sec_bits,
            },
        )
    }
}

/// How long a collection may take: five seconds less than the time between two
/// collections, or half of that time where it is ten seconds or less. Collections do not
/// overlap, since this is always less than the time between them.
pub open spec fn collection_timeout(poll_interval: nat) -> nat {
    if poll_interval > seconds(10) {
        (poll_interval - seconds(5)) as nat
    } else {
        poll_interval / 2
    }
}

/// What the collection of one cluster goes by.
pub struct ClusterManager {
    pub cluster_name: String,
    pub cluster_labels: StringMap,
    pub timestamp_sampler: Option<SamplerPlan>,
    pub poll_interval: Duration,
    pub max_backoff: Duration,
    pub granularity: Granularity,
    pub max_concurrent_fetches: usize,
    pub cache_cleanup_interval: Duration,
    pub collection_timeout: Duration,
    pub client_recycle_interval: u64,
}

impl ClusterManager {
    /// Whether the longest backoff is at least the first one, and can be doubled.
    pub open spec fn wf(&self) -> bool {
        seconds(1) <= self.max_backoff@ && 2 * self.max_backoff@ <= MAX_NANOS
    }

    /// Whether the loop can run: its two timers need a time between two ticks.
    pub open spec fn can_run(&self) -> bool {
        self.wf() && self.poll_interval@ > 0 && self.cache_cleanup_interval@ > 0
    }

    /// Whether this is what the collection of a cluster goes by under the given
    /// configuration.
    pub open spec fn follows(&self, config: ClusterConfig, exporter: ExporterConfig) -> bool {
        &&& self.cluster_name@ == config.name@
        &&& self.cluster_labels@ == config.labels@
        &&& self.timestamp_sampler == sampler_plan(exporter.timestamp_sampling)
        &&& self.poll_interval == exporter.poll_interval
        &&& self.max_backoff@ == seconds(MAX_BACKOFF_SECS as nat)
        &&& self.granularity == exporter.granularity
        &&& self.max_concurrent_fetches == exporter.timestamp_sampling.max_concurrent_fetches
        &&& self.cache_cleanup_interval@ == 2 * exporter.timestamp_sampling.cache_ttl@
        &&& self.collection_timeout@ == collection_timeout(exporter.poll_interval@)
        &&& self.poll_interval@ > 0 ==> self.collection_timeout@ < self.poll_interval@
        &&& self.client_recycle_interval == exporter.performance.client_recycle_interval
    }

    /// Works out what the collection of a cluster goes by.
    pub fn new(config: &ClusterConfig, exporter_config: &ExporterConfig) -> (manager: Self)
        requires
            2 * exporter_config.timestamp_sampling.cache_ttl@ <= MAX_NANOS,
        ensures
            manager.wf(),
            manager.follows(*config, *exporter_config),
    {
        let sampling = exporter_config.timestamp_sampling;
        let timestamp_sampler = if sampling.enabled {
            Some(
                match sampling.mode {
                    TimestampSamplingMode::Message => SamplerPlan::Message {
                        pool_size: sampling.max_concurrent_fetches,
                        cache_ttl: sampling.cache_ttl,
                    },
                    TimestampSamplingMode::Rate => SamplerPlan::Rate {
                        history_samples: sampling.rate_history_samples,
                        history_max_age: sampling.rate_history_max_age,
                        min_msgs_per_sec_bits: sampling.rate_min_msgs_per_sec_bits,
                    },
                },
            )
        } else {
            None
        };
        // A collection ends before the next one is due.
        let poll_interval = exporter_config.poll_interval;
        let collection_timeout = if poll_interval.exceeds(&Duration::from_secs(10)) {
            poll_interval.minus(Duration::from_secs(5))
        } else {
            poll_interval.halved()
        };
        ClusterManager {
            cluster_name: config.name.clone(),
            cluster_labels: config.labels.clone(),
            timestamp_sampler,
            poll_interval,
            max_backoff: Duration::from_secs(MAX_BACKOFF_SECS),
            granularity: exporter_config.granularity,
            max_concurrent_fetches: sampling.max_concurrent_fetches,
            cache_cleanup_interval: sampling.cache_ttl.doubled(),
            collection_timeout,
            client_recycle_interval: exporter_config.performance.client_recycle_interval,
        }
    }
}

/// A collection ends before the next one is due, whatever the time between two
/// collections is, and leaves five seconds of it where it is longer than ten.
pub proof fn law_collection_fits_the_poll_interval(poll_interval: nat)
    ensures
        poll_interval > 0 ==> collection_timeout(poll_interval) < poll_interval,
        poll_interval > 1 ==> collection_timeout(poll_interval) > 0,
        poll_interval > seconds(10) ==> collection_timeout(poll_interval) + seconds(5)
            == poll_interval,
{
}

} // verus!
