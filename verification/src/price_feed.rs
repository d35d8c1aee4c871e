//! The price feed: the store that records each value its controller pushes
//! and answers lookups by round.

pub mod contract;
pub mod error;
pub mod msg;
pub mod state;
