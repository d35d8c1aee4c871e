use vstd::prelude::*;

verus! {

/// Why an operation of the collector was refused. A refused operation leaves
/// the state exactly as it was.
#[derive(Clone, Copy, Debug, PartialEq, Eq, Structural)]
pub enum ContractError {
    /// The sender lacks the role the operation needs.
    Unauthorized,
    /// The current round is already answered or rejected.
    RoundEnded,
    /// The feeder already has an observation in the current round.
    InvalidUpdate,
    /// No round is stored under the requested identifier or range.
    NotFound,
}

} // verus!
