use vstd::prelude::*;

verus! {

/// Why an operation of the wrapped token was refused.
#[derive(Debug, PartialEq, Eq)]
pub enum ContractError {
    /// A general refusal, with its text.
    Std { msg: String },
    /// A balance or the total supply is smaller than the amount to take off.
    Overflow,
    /// The sender may not mint, or the funds sent are not one non-zero coin
    /// of the supported denomination.
    Unauthorized,
    /// Minting would bring the total supply above the cap.
    CannotExceedCap,
    /// Two initial balances name one address.
    DuplicateInitialBalanceAddresses,
    /// The contract holds less of the native coin than the token's total
    /// supply.
    InvalidBalance { total_supply: u128, balance: u128 },
}

} // verus!
