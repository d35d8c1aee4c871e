//! Messages that the price feed receives and the answers it gives.

use vstd::prelude::*;

verus! {

/// Sets the price feed up.
#[derive(Debug, PartialEq, Eq)]
pub struct InstantiateMsg {
    /// Validated address of the only account that may push values.
    pub controller: String,
    /// Number of decimals of the price.
    pub decimals: u8,
    /// What the price is a price of.
    pub description: String,
}

/// Changes the price feed's state.
#[derive(Debug, PartialEq, Eq)]
pub enum ExecuteMsg {
    /// Names a new controller. Owner only.
    UpdateController { controller: String },
    /// Records `answer` as the price of the current block. Controller only.
    UpdateRoundData { answer: u64 },
}

/// The one message that a migration accepts; it carries no data.
#[derive(Clone, Copy, Debug, PartialEq, Eq, Structural)]
pub enum MigrateMsg {
    Migrate {  },
}

/// Reads the price feed's state.
#[derive(Clone, Copy, Debug, PartialEq, Eq, Structural)]
pub enum QueryMsg {
    /// The value recorded last.
    LastestRoundData {  },
    /// The most recent value at or before `round_id`, within the lookback
    /// window.
    RoundData { round_id: u64 },
    /// Number of decimals of the price.
    Decimals {  },
    /// What the price is a price of.
    Description {  },
    /// Address of the controller.
    Controller {  },
}

/// A recorded price as a lookup returns it.
#[derive(Clone, Copy, Debug, PartialEq, Eq, Structural)]
pub struct RoundDataResponse {
    /// The round that was asked for.
    pub round_id: u64,
    pub answer: u128,
    /// Block time of the recording, in nanoseconds since the Unix epoch.
    pub updated_at: u64,
    /// The round in which the value was recorded.
    pub answered_in_round: u64,
}

/// What a successful execution reports.
#[derive(Clone, Copy, Debug, PartialEq, Eq, Structural)]
pub enum Response {
    /// The controller was replaced.
    ControllerUpdated,
    /// `answer` was recorded under `round_id`.
    RoundDataUpdated { round_id: u64, answer: u64 },
}

/// What a read returns.
#[derive(Debug, PartialEq, Eq)]
pub enum QueryResponse {
    RoundData(RoundDataResponse),
    Decimals(u8),
    Description(String),
    Controller(String),
}

} // verus!
