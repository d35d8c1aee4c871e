//! Verified core of a decentralized price oracle and of the token contracts
//! that consume its feed.
//!
//! The heart of the crate is [`price_collector`]: authorized feeders submit
//! price observations, the collector groups them into rounds, and a round
//! publishes one value once more than two thirds of the feeders have
//! answered. [`price_feed`] is the store that receives the published values.
//! [`minter`], [`minter_with_whitelist`] and [`wrap_token`] are the contracts
//! that exchange and wrap coins at the published price.
//!
//! Every contract is modelled as an explicitly owned state value together
//! with the operations that act on it. Nothing here touches persistent
//! storage or the message bus: a host loads the state, reads what the
//! operation needs to know from other contracts, calls the operation, stores
//! the state again and dispatches what the response names.

pub mod chain;
pub mod cosmwasm;
pub mod minter;
pub mod minter_with_whitelist;
pub mod price_collector;
pub mod price_feed;
pub mod token;
pub mod wrap_token;
