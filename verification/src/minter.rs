//! The minter: it takes a native coin from a buyer and has a stable token
//! minted at the price that the feed reports.

pub mod contract;
pub mod error;
pub mod msg;
pub mod state;
