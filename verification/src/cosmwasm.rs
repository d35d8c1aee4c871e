//! Calls into the CosmWasm libraries. What this module states of them is
//! taken from their source and believed, not proved.

use crate::chain::{coins_view, Coin, CoinView, Reply};
use vstd::prelude::*;

verus! {

/// The first coin of `coins` with the denomination of `required` holds at
/// least the required amount.
pub open spec fn covers(coins: Seq<CoinView>, required: CoinView) -> bool {
    exists|i: int|
        0 <= i < coins.len() && (#[trigger] coins[i]).denom == required.denom && coins[i].amount
            >= required.amount && forall|k: int|
            0 <= k < i ==> (#[trigger] coins[k]).denom != required.denom
}

/// `cosmwasm_std::has_coins`: looks for the first coin whose denomination
/// equals that of `required` and says whether its amount is at least the
/// required one; `false` where no coin has that denomination.
#[verifier::external_body]
pub(crate) fn has_coins(coins: &Vec<Coin>, required: &Coin) -> (res: bool)
    ensures
        res == covers(coins_view(coins@), required@),
{
    let funds: Vec<cosmwasm_std::Coin> = coins.iter().map(
        |c| cosmwasm_std::Coin::new(c.amount, c.denom.clone()),
    ).collect();
    let wanted = cosmwasm_std::Coin::new(required.amount, required.denom.clone());
    cosmwasm_std::has_coins(&funds, &wanted)
}

/// The contract address that `cw_utils::parse_reply_instantiate_data` reads
/// from a successful reply that carries the bytes `data`, or `None` where it
/// reports an error.
pub uninterp spec fn instantiate_response_address(data: Seq<u8>) -> Option<Seq<char>>;

/// `cw_utils::parse_reply_instantiate_data`: fails for a failed execution and
/// for a response without data, and otherwise decodes the contract address
/// from the response bytes, which alone decide the outcome. The result is
/// that address, or `None` for any failure.
#[verifier::external_body]
pub(crate) fn parse_reply_instantiate_data(msg: &Reply) -> (res: Option<String>)
    ensures
        match msg.data() {
            Some(bytes) => match res {
                Some(address) => instantiate_response_address(bytes) == Some(address@),
                None => instantiate_response_address(bytes) is None,
            },
            None => res is None,
        },
{
    let result = match &msg.result {
        Ok(r) => cosmwasm_std::SubMsgResult::Ok(
            cosmwasm_std::SubMsgResponse {
                events: Vec::new(),
                data: r.data.clone().map(cosmwasm_std::Binary),
            },
        ),
        Err(e) => cosmwasm_std::SubMsgResult::Err(e.clone()),
    };
    match cw_utils::parse_reply_instantiate_data(cosmwasm_std::Reply { id: msg.id, result }) {
        Ok(parsed) => Some(parsed.contract_address),
        Err(_) => None,
    }
}

} // verus!
