//! The collection of one cluster.

pub mod collection;
pub mod history;
pub mod manager;
pub mod run;
pub mod setup;
