//! The Kafka clients of a cluster.

pub mod auth;
pub mod client;
pub mod compaction;
pub mod partition_map;
pub mod settings;
pub mod watermarks;
