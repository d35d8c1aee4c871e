//! The minter that exchanges only for buyers who hold enough of a list of
//! whitelisted assets.

pub mod contract;
pub mod msg;
pub mod state;
