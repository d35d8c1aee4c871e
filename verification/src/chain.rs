//! Plain-value picture of what the chain hands to a contract call.

use vstd::prelude::*;

verus! {

/// The block in which a call executes.
#[derive(Clone, Copy, Debug, PartialEq, Eq, Structural)]
pub struct BlockInfo {
    /// Height of the block.
    pub height: u64,
    /// Block time in nanoseconds since the Unix epoch.
    pub time: u64,
}

/// The contract that executes a call.
#[derive(Debug, PartialEq, Eq)]
pub struct ContractInfo {
    /// Address of the contract itself.
    pub address: String,
}

/// Execution environment of a call: the current block and the contract that
/// runs.
#[derive(Debug, PartialEq, Eq)]
pub struct Env {
    pub block: BlockInfo,
    pub contract: ContractInfo,
}

/// An amount of one native denomination.
#[derive(Debug, PartialEq, Eq)]
pub struct Coin {
    pub denom: String,
    pub amount: u128,
}

/// Mathematical value of a [`Coin`].
pub struct CoinView {
    pub denom: Seq<char>,
    pub amount: u128,
}

impl View for Coin {
    type V = CoinView;

    open spec fn view(&self) -> CoinView {
        CoinView { denom: self.denom@, amount: self.amount }
    }
}

/// The views of a list of coins, in the same order.
pub open spec fn coins_view(coins: Seq<Coin>) -> Seq<CoinView> {
    coins.map_values(|c: Coin| c@)
}

/// Who sent a message and which funds came with it.
#[derive(Debug, PartialEq, Eq)]
pub struct MessageInfo {
    /// Validated address of the sender.
    pub sender: String,
    pub funds: Vec<Coin>,
}

/// What the execution of a submessage returned on success.
#[derive(Debug, PartialEq, Eq)]
pub struct SubMsgResponse {
    /// The bytes that the called contract or the chain handed back.
    pub data: Option<Vec<u8>>,
}

/// The answer to a submessage that asked for one.
#[derive(Debug, PartialEq, Eq)]
pub struct Reply {
    /// The identifier that the contract gave the submessage.
    pub id: u64,
    /// What a successful execution returned, or the error text of a failed
    /// one.
    pub result: Result<SubMsgResponse, String>,
}

impl Reply {
    /// The bytes that a successful execution handed back, if it did.
    pub open spec fn data(&self) -> Option<Seq<u8>> {
        match self.result {
            Ok(response) => match response.data {
                Some(bytes) => Some(bytes@),
                None => None,
            },
            Err(_) => None,
        }
    }
}

} // verus!
