use vstd::prelude::*;

verus! {

/// Who administers the minter and for whom it mints.
#[derive(Debug, PartialEq, Eq)]
pub struct Config {
    /// The only address that may withdraw the coins taken.
    pub owner: String,
    /// Display name of the receiver.
    pub receiver_name: String,
}

/// What the minter exchanges, for whom, and at which price.
#[derive(Debug, PartialEq, Eq)]
pub struct ExchangingInfo {
    /// The native denomination that the minter accepts.
    pub accepted_denom: String,
    /// The wallet to which the stable token is minted.
    pub receiver_address: String,
    /// The stable token. It holds a placeholder until the token contract
    /// has reported its address.
    pub token_address: String,
    /// The price feed that gives the rate between coin and token.
    pub price_feed: String,
}

/// Everything a minter keeps between calls.
#[derive(Debug, PartialEq, Eq)]
pub struct MinterState {
    pub config: Config,
    pub exchanging_info: ExchangingInfo,
}

/// Mathematical value of a [`MinterState`].
pub struct MinterView {
    pub owner: Seq<char>,
    pub receiver_name: Seq<char>,
    pub accepted_denom: Seq<char>,
    pub receiver_address: Seq<char>,
    pub token_address: Seq<char>,
    pub price_feed: Seq<char>,
}

impl View for MinterState {
    type V = MinterView;

    open spec fn view(&self) -> MinterView {
        MinterView {
            owner: self.config.owner@,
            receiver_name: self.config.receiver_name@,
            accepted_denom: self.exchanging_info.accepted_denom@,
            receiver_address: self.exchanging_info.receiver_address@,
            token_address: self.exchanging_info.token_address@,
            price_feed: self.exchanging_info.price_feed@,
        }
    }
}

} // verus!
