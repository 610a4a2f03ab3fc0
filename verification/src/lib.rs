//! Collection core of a Kafka consumer-group lag exporter: the client settings,
//! authentication rules, watermark merging and collection loop of one cluster.

pub mod cluster;
pub mod config;
pub mod duration;
pub mod error;
pub mod kafka;
pub mod laws;
pub mod memory;
pub mod text;
