//! What the exporter and its clusters are configured with.

use crate::duration::{seconds, Duration};
use crate::text::same_text;
use vstd::prelude::*;

verus! {

/// Text keyed by text. Where a key was inserted more than once, the value that
/// came last counts.
#[derive(Debug)]
pub struct StringMap {
    pub entries: Vec<(String, String)>,
}

/// The map that inserting the entries one after the other gives.
pub open spec fn map_of(entries: Seq<(String, String)>) -> Map<Seq<char>, Seq<char>>
    decreases entries.len(),
{
    if entries.len() == 0 {
        Map::empty()
    } else {
        map_of(entries.drop_last()).insert(entries.last().0@, entries.last().1@)
    }
}

impl View for StringMap {
    type V = Map<Seq<char>, Seq<char>>;

    open spec fn view(&self) -> Map<Seq<char>, Seq<char>> {
        map_of(self.entries@)
    }
}

impl StringMap {
    /// A map without entries.
    pub fn new() -> (m: Self)
        ensures
            m@ == Map::<Seq<char>, Seq<char>>::empty(),
    {
        StringMap { entries: Vec::new() }
    }

    /// Sets the value of `key`.
    pub fn insert(&mut self, key: String, value: String)
        ensures
            final(self)@ == old(self)@.insert(key@, value@),
    {
        self.entries.push((key, value));
        assert(self.entries@.drop_last() == old(self).entries@);
    }

    /// The value of `key`.
    pub fn get(&self, key: &str) -> (value: Option<&String>)
        ensures
            match value {
                Some(v) => self@.contains_key(key@) && v@ == self@[key@],
                None => !self@.contains_key(key@),
            },
    {
        let mut left: usize = self.entries.len();
        assert(self.entries@.take(left as int) == self.entries@);
        while left > 0
            invariant
                left <= self.entries.len(),
                map_of(self.entries@.take(left as int)).contains_key(key@) == self@.contains_key(
                    key@,
                ),
                map_of(self.entries@.take(left as int))[key@] == self@[key@],
            decreases left,
        {
            assert(self.entries@.take(left as int).drop_last() == self.entries@.take(left - 1));
            left = left - 1;
            if same_text(self.entries[left].0.as_str(), key) {
                return Some(&self.entries[left].1);
            }
        }
        None
    }
}

impl Clone for StringMap {
    fn clone(&self) -> (m: Self)
        ensures
            m@ == self@,
    {
        let mut entries: Vec<(String, String)> = Vec::new();
        for i in 0..self.entries.len()
            invariant
                entries@ == self.entries@.take(i as int),
        {
            entries.push((self.entries[i].0.clone(), self.entries[i].1.clone()));
            assert(self.entries@.take(i + 1) == self.entries@.take(i as int).push(
                self.entries@[i as int],
            ));
        }
        assert(self.entries@.take(self.entries@.len() as int) == self.entries@);
        StringMap { entries }
    }
}

/// How to sign in to an Amazon MSK cluster with IAM.
#[derive(Debug)]
pub struct AwsMskIamConfig {
    /// The region to sign for; without one the environment decides.
    pub region: Option<String>,
}

/// One cluster to collect from.
#[derive(Debug)]
pub struct ClusterConfig {
    pub name: String,
    pub bootstrap_servers: String,
    /// Settings handed to the Kafka clients as they are.
    pub consumer_properties: StringMap,
    /// Labels added to every metric of the cluster.
    pub labels: StringMap,
    pub aws_msk_iam: Option<AwsMskIamConfig>,
}

/// What a `ClusterConfig` says, as mathematical values.
#[verifier::ext_equal]
pub struct ClusterConfigView {
    pub name: Seq<char>,
    pub bootstrap_servers: Seq<char>,
    pub consumer_properties: Map<Seq<char>, Seq<char>>,
    pub labels: Map<Seq<char>, Seq<char>>,
    /// Outer: whether IAM is configured. Inner: the region, if one is given.
    pub aws_msk_iam: Option<Option<Seq<char>>>,
}

/// The text of an optional string.
pub open spec fn text_of(text: Option<String>) -> Option<Seq<char>> {
    match text {
        Some(t) => Some(t@),
        None => None,
    }
}

impl View for ClusterConfig {
    type V = ClusterConfigView;

    open spec fn view(&self) -> ClusterConfigView {
        ClusterConfigView {
            name: self.name@,
            bootstrap_servers: self.bootstrap_servers@,
            consumer_properties: self.consumer_properties@,
            labels: self.labels@,
            aws_msk_iam: match self.aws_msk_iam {
                Some(iam) => Some(text_of(iam.region)),
                None => None,
            },
        }
    }
}

impl Clone for ClusterConfig {
    fn clone(&self) -> (c: Self)
        ensures
            c@ == self@,
    {
        ClusterConfig {
            name: self.name.clone(),
            bootstrap_servers: self.bootstrap_servers.clone(),
            consumer_properties: self.consumer_properties.clone(),
            labels: self.labels.clone(),
            aws_msk_iam: match &self.aws_msk_iam {
                Some(iam) => Some(AwsMskIamConfig { region: iam.region.clone() }),
                None => None,
            },
        }
    }
}

/// Limits and timeouts of the Kafka calls.
#[derive(Clone, Copy, Debug)]
pub struct PerformanceConfig {
    /// Timeout for individual Kafka API operations.
    pub kafka_timeout: Duration,
    /// Timeout for each per-group committed-offsets fetch.
    pub offset_fetch_timeout: Duration,
    /// Groups whose committed offsets are fetched at the same time.
    pub max_concurrent_groups: usize,
    /// Watermarks that are fetched at the same time.
    pub max_concurrent_watermarks: usize,
    /// Collection cycles between two recyclings of the clients; 0 turns recycling off.
    pub client_recycle_interval: u64,
}

impl PerformanceConfig {
    /// Whether these are the limits and timeouts of an exporter that is told none.
    pub open spec fn is_default(&self) -> bool {
        &&& self.kafka_timeout@ == seconds(30)
        &&& self.offset_fetch_timeout@ == seconds(10)
        &&& self.max_concurrent_groups == 10
        &&& self.max_concurrent_watermarks == 50
        &&& self.client_recycle_interval == 50
    }
}

impl Default for PerformanceConfig {
    fn default() -> (p: Self)
        ensures
            p.is_default(),
    {
        PerformanceConfig {
            kafka_timeout: Duration::from_secs(30),
            offset_fetch_timeout: Duration::from_secs(10),
            max_concurrent_groups: 10,
            max_concurrent_watermarks: 50,
            client_recycle_interval: 50,
        }
    }
}

/// How finely metrics are split.
#[derive(Clone, Copy, Debug, PartialEq, Eq, Structural)]
pub enum Granularity {
    Topic,
    Partition,
}

/// How the age of a consumer's position is found.
#[derive(Clone, Copy, Debug, PartialEq, Eq, Structural)]
pub enum TimestampSamplingMode {
    /// From the rate at which the partition grows.
    Rate,
    /// From the timestamp of the message at the committed offset.
    Message,
}

/// Whether and how time lag is sampled.
#[derive(Clone, Copy, Debug)]
pub struct TimestampSamplingConfig {
    pub enabled: bool,
    pub mode: TimestampSamplingMode,
    pub cache_ttl: Duration,
    pub max_concurrent_fetches: usize,
    pub rate_history_samples: usize,
    pub rate_history_max_age: Duration,
    /// The IEEE 754 bits of the lowest rate, in messages per second, that gives a time lag.
    pub rate_min_msgs_per_sec_bits: u64,
}

/// What holds for every cluster.
#[derive(Clone, Copy, Debug)]
pub struct ExporterConfig {
    pub poll_interval: Duration,
    pub granularity: Granularity,
    pub timestamp_sampling: TimestampSamplingConfig,
    pub performance: PerformanceConfig,
}

} // verus!
