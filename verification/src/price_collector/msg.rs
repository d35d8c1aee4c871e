//! Messages that the collector receives and the report it gives back.

use vstd::prelude::*;

verus! {

/// Sets the collector up.
#[derive(Debug, PartialEq, Eq)]
pub struct InstantiateMsg {
    /// Validated address of the price feed that receives finalized values.
    pub price_feed: String,
    /// Number of decimals of the reported price.
    pub decimals: u8,
}

/// Changes the collector's state.
#[derive(Debug, PartialEq, Eq)]
pub enum ExecuteMsg {
    /// Authorizes `price_feeder` (`status` true) or withdraws its
    /// authorization (`status` false). Owner only.
    UpdatePriceFeeder { price_feeder: String, status: bool },
    /// Submits one observation for the current round. Feeders only.
    ProvideRoundData { answer: u64 },
}

/// The one message that a migration accepts; it carries no data.
#[derive(Clone, Copy, Debug, PartialEq, Eq, Structural)]
pub enum MigrateMsg {
    Migrate {  },
}

/// Reads the collector's state.
#[derive(Clone, Copy, Debug, PartialEq, Eq, Structural)]
pub enum QueryMsg {
    /// The round opened last.
    LastestRoundData {  },
    /// The most recent round at or before `round_id`, within the lookback
    /// window.
    RoundData { round_id: u64 },
}

/// What a successful execution reports.
#[derive(Clone, Copy, Debug, PartialEq, Eq, Structural)]
pub enum Response {
    /// The feeder registry now has the requested state.
    PriceFeederUpdated,
    /// The observation `answer` was recorded in round `round_id`. Where the
    /// submission finalized the round as answered, `publish` is the value to
    /// push to the price feed; otherwise nothing is to be pushed.
    RoundDataUpdated { round_id: u64, answer: u64, publish: Option<u64> },
}

/// A push to the price feed: one message, sent once, whose answer the
/// collector does not wait for.
#[derive(Debug, PartialEq, Eq)]
pub struct Publication {
    /// Address of the price feed.
    pub contract_addr: String,
    /// What the price feed is asked to do.
    pub msg: crate::price_feed::msg::ExecuteMsg,
}

} // verus!
