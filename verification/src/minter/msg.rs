//! Messages that a minter receives, the answers it gives and the actions it
//! asks its host to take.

use crate::token::TokenInstantiateMsg;
use vstd::prelude::*;

verus! {

/// Sets a minter up.
#[derive(Debug, PartialEq, Eq)]
pub struct InstantiateMsg {
    pub receiver_name: String,
    /// Validated address of the receiver's wallet.
    pub receiver_address: String,
    pub accepted_denom: String,
    /// Validated address of the price feed.
    pub price_feed: String,
    /// Code of the token contract to instantiate.
    pub token_code_id: u64,
    /// What to instantiate the token with. The minter replaces `mint`.
    pub token_instantiation_msg: TokenInstantiateMsg,
}

/// Changes a minter's state or moves funds.
#[derive(Clone, Copy, Debug, PartialEq, Eq, Structural)]
pub enum ExecuteMsg {
    /// Offers `amount` of the accepted coin for at least `expected_received`
    /// of the stable token.
    Exchange { amount: u128, expected_received: u128 },
    /// Sends the coins that the minter holds to the owner.
    Withdraw {  },
}

/// Reads a minter's state.
#[derive(Clone, Copy, Debug, PartialEq, Eq, Structural)]
pub enum QueryMsg {
    Owner {  },
    Receiver {  },
    ExchangingInfo {  },
}

/// The receiver of the minted token.
#[derive(Debug, PartialEq, Eq)]
pub struct ReceiverResponse {
    pub name: String,
    pub address: String,
}

/// What the minter exchanges and where it looks the price up.
#[derive(Debug, PartialEq, Eq)]
pub struct ExchangingInfoResponse {
    pub accepted_denom: String,
    pub token_address: String,
    pub price_feed: String,
}

/// What a read returns.
#[derive(Debug, PartialEq, Eq)]
pub enum QueryResponse {
    Owner(String),
    Receiver(ReceiverResponse),
    ExchangingInfo(ExchangingInfoResponse),
}

/// The identifier that the minter gives the submessage which instantiates
/// the token.
pub const INSTANTIATE_TOKEN_REPLY_ID: u64 = 1;

/// What a successful call asks the host to do.
#[derive(Debug, PartialEq, Eq)]
pub enum Response {
    /// Instantiate the token contract `code_id` with `msg` and `admin` as its
    /// administrator, and hand the reply to a success back under `reply_id`.
    InstantiateToken { admin: String, code_id: u64, msg: TokenInstantiateMsg, reply_id: u64 },
    /// Have the token contract `contract_addr` mint `amount` to `recipient`.
    Mint { contract_addr: String, recipient: String, amount: u128 },
    /// Send `amount` of `denom` from the minter to `to_address`.
    Send { to_address: String, denom: String, amount: u128 },
    /// The address of the token contract was recorded. Nothing to do.
    TokenRegistered { token_address: String },
}

} // verus!
