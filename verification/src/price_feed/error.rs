use vstd::prelude::*;

verus! {

/// Why an operation of the price feed was refused.
#[derive(Clone, Copy, Debug, PartialEq, Eq, Structural)]
pub enum ContractError {
    /// The sender lacks the role the operation needs.
    Unauthorized,
    /// No round is stored under the requested identifier or range.
    NotFound,
}

} // verus!
