use crate::token::{Cw20Coin, MinterResponse};
use crate::wrap_token::error::ContractError;
use vstd::prelude::*;
use vstd::utf8::encode_utf8;

verus! {

/// Sets the wrapped token up.
#[derive(Debug, PartialEq, Eq)]
pub struct InstantiateMsg {
    pub name: String,
    pub symbol: String,
    pub decimals: u8,
    pub initial_balances: Vec<Cw20Coin>,
    pub mint: Option<MinterResponse>,
    pub native_denom: String,
}

/// A name takes 3 to 50 bytes.
pub open spec fn valid_name(name: Seq<u8>) -> bool {
    3 <= name.len() <= 50
}

/// A byte of a ticker symbol: a hyphen or an ASCII letter.
pub open spec fn valid_symbol_byte(byte: u8) -> bool {
    byte == 45 || 65 <= byte <= 90 || 97 <= byte <= 122
}

/// A ticker symbol takes 3 to 12 bytes, each a hyphen or an ASCII letter.
pub open spec fn valid_symbol(symbol: Seq<u8>) -> bool {
    &&& 3 <= symbol.len() <= 12
    &&& forall|i: int| 0 <= i < symbol.len() ==> valid_symbol_byte(#[trigger] symbol[i])
}

/// Whether `error` is a general refusal with the text `text`.
pub open spec fn is_std_error(error: ContractError, text: Seq<char>) -> bool {
    error matches ContractError::Std { msg } && msg@ == text
}

/// The text of the first refusal that a name, a symbol and a number of
/// decimals meet, looked at in this order; `None` where all three are in
/// format.
pub open spec fn validation_failure(name: Seq<u8>, symbol: Seq<u8>, decimals: u8) -> Option<
    Seq<char>,
> {
    if !valid_name(name) {
        Some("Name is not in the expected format (3-50 UTF-8 bytes)"@)
    } else if !valid_symbol(symbol) {
        Some("Ticker symbol is not in expected format [a-zA-Z\\-]{3,12}"@)
    } else if decimals > 18 {
        Some("Decimals must not exceed 18"@)
    } else {
        None
    }
}

impl InstantiateMsg {
    /// What `validate` refuses the message with, if it does.
    pub open spec fn validation_failure(&self) -> Option<Seq<char>> {
        validation_failure(encode_utf8(self.name@), encode_utf8(self.symbol@), self.decimals)
    }

    /// The cap on the total supply, if the message names a minter with one.
    pub fn get_cap(&self) -> (res: Option<u128>)
        ensures
            res == match self.mint {
                Some(mint) => mint.cap,
                None => None,
            },
    {
        match &self.mint {
            Some(v) => v.cap,
            None => None,
        }
    }

    /// Checks name, symbol and decimals, in this order, and refuses the first
    /// that is out of format: a name outside 3 to 50 bytes, a symbol outside
    /// 3 to 12 letters and hyphens, more than 18 decimals.
    pub fn validate(&self) -> (res: Result<(), ContractError>)
        ensures
            match self.validation_failure() {
                Some(text) => res matches Err(e) && is_std_error(e, text),
                None => res is Ok,
            },
    {
        if !self.has_valid_name() {
            return Err(
                ContractError::Std {
                    msg: "Name is not in the expected format (3-50 UTF-8 bytes)".to_string(),
                },
            );
        }
        if !self.has_valid_symbol() {
            return Err(
                ContractError::Std {
                    msg: "Ticker symbol is not in expected format [a-zA-Z\\-]{3,12}".to_string(),
                },
            );
        }
        if self.decimals > 18 {
            return Err(ContractError::Std { msg: "Decimals must not exceed 18".to_string() });
        }
        Ok(())
    }

    fn has_valid_name(&self) -> (res: bool)
        ensures
            res == valid_name(encode_utf8(self.name@)),
    {
        let bytes = self.name.as_str().as_bytes();
        if bytes.len() < 3 || bytes.len() > 50 {
            return false;
        }
        true
    }

    fn has_valid_symbol(&self) -> (res: bool)
        ensures
            res == valid_symbol(encode_utf8(self.symbol@)),
    {
        let bytes = self.symbol.as_str().as_bytes();
        if bytes.len() < 3 || bytes.len() > 12 {
            return false;
        }
        let mut i: usize = 0;
        while i < bytes.len()
            invariant
                i <= bytes.len(),
                bytes@ == encode_utf8(self.symbol@),
                forall|k: int| 0 <= k < i ==> valid_symbol_byte(#[trigger] bytes@[k]),
            decreases bytes.len() - i,
        {
            let byte = bytes[i];
            if (byte != 45) && (byte < 65 || byte > 90) && (byte < 97 || byte > 122) {
                return false;
            }
            i += 1;
        }
        true
    }
}

/// The native denomination that backs the token.
#[derive(Debug, PartialEq, Eq)]
pub struct SupportedNative {
    pub denom: String,
}

/// Who may mint and up to which total supply.
#[derive(Debug, PartialEq, Eq)]
pub struct MinterData {
    /// Validated address of the minter.
    pub minter: String,
    /// The greatest total supply that minting may reach; unlimited if `None`.
    pub cap: Option<u128>,
}

/// The token's description and its total supply.
#[derive(Debug, PartialEq, Eq)]
pub struct TokenInfo {
    pub name: String,
    pub symbol: String,
    pub decimals: u8,
    pub total_supply: u128,
    pub mint: Option<MinterData>,
}

impl TokenInfo {
    /// The cap on the total supply, if there is a minter with one.
    pub fn get_cap(&self) -> (res: Option<u128>)
        ensures
            res == match self.mint {
                Some(mint) => mint.cap,
                None => None,
            },
    {
        match &self.mint {
            Some(v) => v.cap,
            None => None,
        }
    }
}

/// What the wrapped token keeps between calls, but for the balances, which
/// the host hands in one at a time.
#[derive(Debug, PartialEq, Eq)]
pub struct TokenState {
    pub token_info: TokenInfo,
    pub supported_native: SupportedNative,
}

} // verus!
