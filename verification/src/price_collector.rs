//! The round-aggregation engine: feeders submit observations, the engine
//! groups them into rounds and publishes a value once a quorum agrees.

pub mod aggregation;
pub mod contract;
pub mod error;
pub mod laws;
pub mod msg;
pub mod registry;
pub mod state;
pub mod store;
pub mod transition;
