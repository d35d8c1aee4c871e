//! The wrapped token: a fungible token of which every unit is backed by one
//! unit of a native coin held by the contract.

pub mod contract;
pub mod error;
pub mod state;
