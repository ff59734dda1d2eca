use vstd::prelude::*;

use crate::error::CounterTestError;
use crate::instruction::{decode_instruction, spec_accounts_needed, CounterTestInstruction};
use crate::pda::{
    counter_address, counter_seeds, counter_signer_seeds, create_counter_pda, find_counter_pda,
    is_canonical_derivation, lemma_canonical_unique, no_viable_bump,
};
use crate::state::{
    counter_discriminator, counter_discriminator_bytes, decode_counter, encode_counter, Counter,
    CounterView,
};

verus! {

/// An account named by a request: its address and whether it signed.
#[derive(Debug, Clone, Copy)]
pub struct AccountRef {
    pub key: [u8; 32],
    pub is_signer: bool,
}

/// The account creation that an accepted `Initialize` asks of the runtime:
/// `payer` funds a new account of `space` bytes at `address`, owned by the
/// program, which signs for it with `signer_seeds`. After it, the record is
/// written with `complete_initialize` and `bump`.
#[derive(Debug, Clone)]
pub struct CreateAccount {
    pub payer: [u8; 32],
    pub address: [u8; 32],
    pub space: u64,
    pub bump: u8,
    pub signer_seeds: Vec<Vec<u8>>,
}

/// What is left to do once a request has been accepted.
#[derive(Debug, Clone)]
pub enum Step {
    /// Create the account as described, then write the new record.
    CreateAccount(CreateAccount),
    /// Nothing: the record's bytes have been updated in place.
    Done,
}

/// Program state processor.
pub struct Processor {}

/// The bump with which `Initialize` creates the record at `counter_key` for
/// `authority`, or why it refuses.
pub open spec fn initialize_outcome(
    program_id: Seq<u8>,
    counter_key: Seq<u8>,
    authority: Seq<u8>,
    signed: bool,
) -> Result<u8, CounterTestError> {
    if !signed {
        Err(CounterTestError::MissingRequiredSignature)
    } else if no_viable_bump(program_id, authority) {
        Err(CounterTestError::NoViableBump)
    } else if exists|b: u8| is_canonical_derivation(program_id, authority, counter_key, b) {
        Ok(choose|b: u8| is_canonical_derivation(program_id, authority, counter_key, b))
    } else {
        Err(CounterTestError::InvalidSeeds)
    }
}

/// `r` is what `process_initialize` owes for these accounts.
pub open spec fn initialize_result(
    program_id: Seq<u8>,
    counter: AccountRef,
    authority: AccountRef,
    r: Result<CreateAccount, CounterTestError>,
) -> bool {
    match r {
        Ok(p) => {
            &&& initialize_outcome(program_id, counter.key@, authority.key@, authority.is_signer) == Ok::<
                u8,
                CounterTestError,
            >(p.bump)
            &&& p.payer == authority.key
            &&& p.address == counter.key
            &&& p.space == Counter::LEN
            &&& p.signer_seeds.deep_view() == counter_seeds(authority.key@, p.bump)
        },
        Err(e) => initialize_outcome(program_id, counter.key@, authority.key@, authority.is_signer)
            == Err::<u8, CounterTestError>(e),
    }
}

/// The bytes of a freshly allocated slot `data` once `Initialize` has written
/// its record: the counter tag, count 0, the authority and the bump, with the
/// reserved bytes as they were.
pub open spec fn initialize_record(data: Seq<u8>, authority: Seq<u8>, bump: u8) -> Seq<u8> {
    encode_counter(
        CounterView {
            authority,
            discriminator: counter_discriminator(),
            count: 0,
            bump,
            padding: decode_counter(data).padding,
        },
    )
}

/// The record's new bytes after `Increment` on the slot at `counter_key`
/// holding `data`, requested by `authority_key`, or why it refuses.
pub open spec fn increment_outcome(
    program_id: Seq<u8>,
    counter_key: Seq<u8>,
    authority_key: Seq<u8>,
    signed: bool,
    data: Seq<u8>,
) -> Result<Seq<u8>, CounterTestError> {
    if !signed {
        Err(CounterTestError::MissingRequiredSignature)
    } else if data.len() != Counter::LEN {
        Err(CounterTestError::InvalidAccountData)
    } else {
        let rec = decode_counter(data);
        if rec.authority != authority_key {
            Err(CounterTestError::IllegalOwner)
        } else if counter_address(program_id, rec.authority, rec.bump) != Some(counter_key) {
            Err(CounterTestError::InvalidSeeds)
        } else if rec.count == u64::MAX {
            Err(CounterTestError::ArithmeticOverflow)
        } else {
            Ok(
                encode_counter(
                    CounterView {
                        authority: rec.authority,
                        discriminator: rec.discriminator,
                        count: (rec.count + 1) as u64,
                        bump: rec.bump,
                        padding: rec.padding,
                    },
                ),
            )
        }
    }
}

/// `r` and the slot's bytes after the call are what `process_increment` owes.
pub open spec fn increment_result(
    program_id: Seq<u8>,
    counter: AccountRef,
    authority: AccountRef,
    before: Seq<u8>,
    after: Seq<u8>,
    r: Result<(), CounterTestError>,
) -> bool {
    match r {
        Ok(_) => increment_outcome(program_id, counter.key@, authority.key@, authority.is_signer, before)
            == Ok::<Seq<u8>, CounterTestError>(after),
        Err(e) => {
            &&& increment_outcome(program_id, counter.key@, authority.key@, authority.is_signer, before)
                == Err::<Seq<u8>, CounterTestError>(e)
            &&& after == before
        },
    }
}

/// Checks an `Initialize` request: the authority signed, and the counter's
/// address is the authority's canonical derivation. Describes the account that
/// must then be created; nothing is written here.
pub fn process_initialize(program_id: &[u8; 32], counter: &AccountRef, authority: &AccountRef) -> (r:
    Result<CreateAccount, CounterTestError>)
    ensures
        initialize_result(program_id@, *counter, *authority, r),
{
    if !authority.is_signer {
        return Err(CounterTestError::MissingRequiredSignature);
    }
    let found = find_counter_pda(program_id, &authority.key);
    match found {
        None => Err(CounterTestError::NoViableBump),
        Some((address, bump)) => {
            proof {
                assert(!no_viable_bump(program_id@, authority.key@)) by {
                    assert(counter_address(program_id@, authority.key@, bump) is Some);
                }
            }
            if !crate::state::same_bytes(&address, &counter.key) {
                proof {
                    assert forall|b: u8|
                        !is_canonical_derivation(program_id@, authority.key@, counter.key@, b) by {
                        if is_canonical_derivation(program_id@, authority.key@, counter.key@, b) {
                            lemma_canonical_unique(
                                program_id@,
                                authority.key@,
                                address@,
                                bump,
                                counter.key@,
                                b,
                            );
                        }
                    }
                }
                return Err(CounterTestError::InvalidSeeds);
            }
            proof {
                assert(is_canonical_derivation(program_id@, authority.key@, counter.key@, bump));
                let c = choose|b: u8| is_canonical_derivation(program_id@, authority.key@, counter.key@, b);
                lemma_canonical_unique(program_id@, authority.key@, address@, bump, counter.key@, c);
                assert(counter.key@ =~= address@);
            }
            let signer_seeds = counter_signer_seeds(&authority.key, bump);
            Ok(
                CreateAccount {
                    payer: authority.key,
                    address: counter.key,
                    space: Counter::LEN as u64,
                    bump,
                    signer_seeds,
                },
            )
        },
    }
}

/// Writes a new counter record into the freshly created slot `data`: the
/// counter tag, count 0, `authority` and `bump`. Fails, writing nothing, where
/// the slot does not have the record's length.
pub fn complete_initialize(data: &mut Vec<u8>, authority: &[u8; 32], bump: u8) -> (r: Result<
    (),
    CounterTestError,
>)
    ensures
        r is Ok <==> old(data)@.len() == Counter::LEN,
        r is Ok ==> final(data)@ == initialize_record(old(data)@, authority@, bump),
        r matches Err(e) ==> e == CounterTestError::InvalidAccountData && final(data)@ == old(data)@,
{
    let mut counter = match Counter::try_from_slice(data.as_slice()) {
        Ok(c) => c,
        Err(e) => return Err(e),
    };
    counter.discriminator = counter_discriminator_bytes();
    counter.count = 0;
    counter.authority = *authority;
    counter.bump = bump;
    let bytes = counter.to_bytes();
    *data = bytes;
    Ok(())
}

/// Adds 1 to the counter stored in `data`, at the slot `counter`, on behalf of
/// `authority`. The authority must have signed and be the record's authority,
/// the slot must have the record's length, and the record's authority and
/// bump must derive the slot's address. On failure nothing is written.
pub fn process_increment(
    program_id: &[u8; 32],
    counter: &AccountRef,
    authority: &AccountRef,
    data: &mut Vec<u8>,
) -> (r: Result<(), CounterTestError>)
    ensures
        increment_result(program_id@, *counter, *authority, old(data)@, final(data)@, r),
{
    if !authority.is_signer {
        return Err(CounterTestError::MissingRequiredSignature);
    }
    if data.len() != Counter::LEN {
        return Err(CounterTestError::InvalidAccountData);
    }
    let mut record = match Counter::try_from_slice(data.as_slice()) {
        Ok(c) => c,
        Err(e) => return Err(e),
    };
    if !crate::state::same_bytes(&record.authority, &authority.key) {
        return Err(CounterTestError::IllegalOwner);
    }
    let derived = create_counter_pda(program_id, &record.authority, record.bump);
    match derived {
        None => {
            return Err(CounterTestError::InvalidSeeds);
        },
        Some(address) => {
            if !crate::state::same_bytes(&address, &counter.key) {
                return Err(CounterTestError::InvalidSeeds);
            }
        },
    }
    if record.count == u64::MAX {
        return Err(CounterTestError::ArithmeticOverflow);
    }
    record.count = record.count + 1;
    let bytes = record.to_bytes();
    *data = bytes;
    Ok(())
}

impl Processor {
    /// Decodes a request and routes it to its handler. `accounts` are the
    /// request's accounts in order (counter, authority, then the system
    /// program for `Initialize`); `counter_data` holds the counter slot's bytes.
    pub fn process_instruction(
        program_id: &[u8; 32],
        accounts: &[AccountRef],
        instruction_data: &[u8],
        counter_data: &mut Vec<u8>,
    ) -> (r: Result<Step, CounterTestError>)
        ensures
            match decode_instruction(instruction_data@) {
                None => r == Err::<Step, CounterTestError>(CounterTestError::InvalidInstructionData)
                    && final(counter_data)@ == old(counter_data)@,
                Some(i) => if accounts@.len() < spec_accounts_needed(i) {
                    r == Err::<Step, CounterTestError>(CounterTestError::NotEnoughAccountKeys)
                        && final(counter_data)@ == old(counter_data)@
                } else {
                    match i {
                        CounterTestInstruction::Initialize => {
                            &&& final(counter_data)@ == old(counter_data)@
                            &&& match r {
                                Ok(Step::CreateAccount(p)) => initialize_result(
                                    program_id@,
                                    accounts@[0],
                                    accounts@[1],
                                    Ok(p),
                                ),
                                Ok(Step::Done) => false,
                                Err(e) => initialize_result(
                                    program_id@,
                                    accounts@[0],
                                    accounts@[1],
                                    Err(e),
                                ),
                            }
                        },
                        CounterTestInstruction::Increment => match r {
                            Ok(Step::Done) => increment_result(
                                program_id@,
                                accounts@[0],
                                accounts@[1],
                                old(counter_data)@,
                                final(counter_data)@,
                                Ok(()),
                            ),
                            Ok(Step::CreateAccount(_)) => false,
                            Err(e) => increment_result(
                                program_id@,
                                accounts@[0],
                                accounts@[1],
                                old(counter_data)@,
                                final(counter_data)@,
                                Err(e),
                            ),
                        },
                    }
                },
            },
    {
        let instruction = match CounterTestInstruction::try_from_slice(instruction_data) {
            Ok(i) => i,
            Err(e) => return Err(e),
        };
        if accounts.len() < instruction.accounts_needed() {
            return Err(CounterTestError::NotEnoughAccountKeys);
        }
        match instruction {
            CounterTestInstruction::Initialize => {
                match process_initialize(program_id, &accounts[0], &accounts[1]) {
                    Ok(p) => Ok(Step::CreateAccount(p)),
                    Err(e) => Err(e),
                }
            },
            CounterTestInstruction::Increment => {
                match process_increment(program_id, &accounts[0], &accounts[1], counter_data) {
                    Ok(()) => Ok(Step::Done),
                    Err(e) => Err(e),
                }
            },
        }
    }
}

} // verus!
