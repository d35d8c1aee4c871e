//! Plain-value picture of the messages of a fungible-token contract.

use vstd::prelude::*;

verus! {

/// An initial balance: an amount of the token for an address.
#[derive(Debug, PartialEq, Eq)]
pub struct Cw20Coin {
    pub address: String,
    pub amount: u128,
}

/// Who may mint the token and up to which total supply.
#[derive(Debug, PartialEq, Eq)]
pub struct MinterResponse {
    pub minter: String,
    /// The greatest total supply that minting may reach; unlimited if `None`.
    pub cap: Option<u128>,
}

/// What a token contract is instantiated with.
#[derive(Debug, PartialEq, Eq)]
pub struct TokenInstantiateMsg {
    pub name: String,
    pub symbol: String,
    pub decimals: u8,
    pub initial_balances: Vec<Cw20Coin>,
    pub mint: Option<MinterResponse>,
}

} // verus!
