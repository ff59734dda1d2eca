use vstd::prelude::*;

use crate::error::CounterTestError;

verus! {

/// The requests that the counter program accepts.
///
/// Each is stored as a single tag byte: `0` for `Initialize`, `1` for
/// `Increment`.
#[derive(Debug, Clone, Copy, PartialEq, Eq, Structural)]
pub enum CounterTestInstruction {
    /// Create the authority's counter at its canonical address, with count 0.
    ///
    /// Accounts: the counter (writable), the authority (signer), the system program.
    Initialize,
    /// Add 1 to the counter.
    ///
    /// Accounts: the counter (writable), the authority (signer).
    Increment,
}

/// The bytes of a request.
pub open spec fn encode_instruction(i: CounterTestInstruction) -> Seq<u8> {
    match i {
        CounterTestInstruction::Initialize => seq![0u8],
        CounterTestInstruction::Increment => seq![1u8],
    }
}

/// The request that `s` holds, if any: one known tag byte and nothing after it.
pub open spec fn decode_instruction(s: Seq<u8>) -> Option<CounterTestInstruction> {
    if s == seq![0u8] {
        Some(CounterTestInstruction::Initialize)
    } else if s == seq![1u8] {
        Some(CounterTestInstruction::Increment)
    } else {
        None
    }
}

/// The number of accounts a request needs.
pub open spec fn spec_accounts_needed(i: CounterTestInstruction) -> nat {
    match i {
        CounterTestInstruction::Initialize => 3,
        CounterTestInstruction::Increment => 2,
    }
}

impl CounterTestInstruction {
    /// Reads a request; fails closed on an unknown tag or trailing bytes.
    pub fn try_from_slice(data: &[u8]) -> (r: Result<CounterTestInstruction, CounterTestError>)
        ensures
            match decode_instruction(data@) {
                Some(i) => r == Ok::<CounterTestInstruction, CounterTestError>(i),
                None => r == Err::<CounterTestInstruction, CounterTestError>(
                    CounterTestError::InvalidInstructionData,
                ),
            },
    {
        if data.len() != 1 {
            proof {
                assert(data@ != seq![0u8] && data@ != seq![1u8]) by {
                    assert(seq![0u8].len() == 1 && seq![1u8].len() == 1);
                }
            }
            return Err(CounterTestError::InvalidInstructionData);
        }
        let tag = data[0];
        if tag == 0 {
            assert(data@ =~= seq![0u8]);
            Ok(CounterTestInstruction::Initialize)
        } else if tag == 1 {
            assert(data@ =~= seq![1u8]);
            Ok(CounterTestInstruction::Increment)
        } else {
            assert(data@ != seq![0u8] && data@ != seq![1u8]) by {
                assert(seq![0u8][0] == 0 && seq![1u8][0] == 1);
            }
            Err(CounterTestError::InvalidInstructionData)
        }
    }

    /// The request's bytes.
    pub fn to_bytes(&self) -> (r: Vec<u8>)
        ensures
            r@ == encode_instruction(*self),
    {
        let r: Vec<u8> = match self {
            CounterTestInstruction::Initialize => vec![0u8],
            CounterTestInstruction::Increment => vec![1u8],
        };
        assert(r@ =~= encode_instruction(*self));
        r
    }

    /// The number of accounts the request needs.
    pub fn accounts_needed(&self) -> (r: usize)
        ensures
            r == spec_accounts_needed(*self),
    {
        match self {
            CounterTestInstruction::Initialize => 3,
            CounterTestInstruction::Increment => 2,
        }
    }
}

} // verus!
