use vstd::prelude::*;

verus! {

/// Reasons an operation is refused. Every refusal leaves all records unchanged.
#[derive(Debug, Clone, Copy, PartialEq, Eq, Structural)]
pub enum GameError {
    /// The instruction bytes do not decode to any operation.
    InvalidInstruction,
    /// A record that must be written was handed over read-only.
    NotWritable,
    /// A payload field is malformed or out of range.
    ValidationError,
    /// Wrong signer or wrong record ownership.
    AuthorizationError,
    /// The operation is not allowed in the record's current phase.
    PhaseError,
    /// The revealed layout does not hash to the stored commitment.
    CommitmentMismatch,
    /// A timeout claim came before the timeout elapsed.
    TimeoutNotElapsed,
    /// A balance is too small for the transfers the operation must make.
    InsufficientFunds,
    /// The tournament shard has no free participant slot.
    CapacityReached,
}

impl GameError {
    /// The numeric code the error is reported under.
    pub fn code(&self) -> (r: u32)
        ensures
            r == error_code(*self),
    {
        match self {
            GameError::InvalidInstruction => 0,
            GameError::NotWritable => 1,
            GameError::ValidationError => 2,
            GameError::AuthorizationError => 3,
            GameError::PhaseError => 4,
            GameError::CommitmentMismatch => 5,
            GameError::TimeoutNotElapsed => 6,
            GameError::InsufficientFunds => 7,
            GameError::CapacityReached => 8,
        }
    }
}

/// Position of the variant in declaration order.
pub open spec fn error_code(e: GameError) -> u32 {
    match e {
        GameError::InvalidInstruction => 0,
        GameError::NotWritable => 1,
        GameError::ValidationError => 2,
        GameError::AuthorizationError => 3,
        GameError::PhaseError => 4,
        GameError::CommitmentMismatch => 5,
        GameError::TimeoutNotElapsed => 6,
        GameError::InsufficientFunds => 7,
        GameError::CapacityReached => 8,
    }
}

} // verus!
