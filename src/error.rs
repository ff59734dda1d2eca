use vstd::prelude::*;

verus! {

/// Every way a request to the counter program can be refused.
#[derive(Debug, Clone, Copy, PartialEq, Eq, Structural)]
pub enum CounterTestError {
    /// The record's slot already holds a counter.
    AlreadyInitialized,
    /// The authority account did not sign the request.
    MissingRequiredSignature,
    /// The slot's address is not the one derived for the authority.
    InvalidSeeds,
    /// No bump byte yields a program address for the authority.
    NoViableBump,
    /// The slot's data does not have the record's fixed length.
    InvalidAccountData,
    /// The signing account is not the authority stored in the record.
    IllegalOwner,
    /// The request bytes name no known instruction.
    InvalidInstructionData,
    /// Fewer accounts were supplied than the instruction needs.
    NotEnoughAccountKeys,
    /// The counter is at its largest value.
    ArithmeticOverflow,
}

impl CounterTestError {
    /// A stable numeric code for the error, in declaration order.
    pub fn code(&self) -> (r: u32)
        ensures
            r == self.spec_code(),
    {
        match self {
            CounterTestError::AlreadyInitialized => 0,
            CounterTestError::MissingRequiredSignature => 1,
            CounterTestError::InvalidSeeds => 2,
            CounterTestError::NoViableBump => 3,
            CounterTestError::InvalidAccountData => 4,
            CounterTestError::IllegalOwner => 5,
            CounterTestError::InvalidInstructionData => 6,
            CounterTestError::NotEnoughAccountKeys => 7,
            CounterTestError::ArithmeticOverflow => 8,
        }
    }

    pub open spec fn spec_code(&self) -> u32 {
        match self {
            CounterTestError::AlreadyInitialized => 0,
            CounterTestError::MissingRequiredSignature => 1,
            CounterTestError::InvalidSeeds => 2,
            CounterTestError::NoViableBump => 3,
            CounterTestError::InvalidAccountData => 4,
            CounterTestError::IllegalOwner => 5,
            CounterTestError::InvalidInstructionData => 6,
            CounterTestError::NotEnoughAccountKeys => 7,
            CounterTestError::ArithmeticOverflow => 8,
        }
    }
}

} // verus!
