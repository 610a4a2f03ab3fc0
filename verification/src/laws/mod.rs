//! What the operations promise, stated on their calls: whatever arguments and results a
//! call can have, they are related as the laws say.

pub mod answers;
pub mod auth;
pub mod client;
pub mod collection;
pub mod manager;
pub mod partitions;
pub mod run;
pub mod setup;
pub mod taken;
pub mod values;
