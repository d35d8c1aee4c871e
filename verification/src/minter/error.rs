use vstd::prelude::*;

verus! {

/// Why an operation of a minter was refused.
#[derive(Debug, PartialEq, Eq)]
pub enum ContractError {
    /// The sender lacks the role the operation needs, or a reply carries an
    /// identifier that the minter did not give.
    Unauthorized,
    /// The funds sent do not cover the amount offered.
    NotEnoughFunds,
    /// The amount offered buys less than the buyer expects.
    ExpectedReceivedNotMatched,
    /// Any other refusal, with its text.
    CustomError { val: String },
}

} // verus!
