//! Facts about a counter's lifecycle that follow from the processor's contracts.
use vstd::prelude::*;

use crate::error::CounterTestError;
use crate::pda::{counter_address, is_canonical_derivation};
use crate::processor::{increment_outcome, initialize_outcome, initialize_record};
use crate::state::{counter_discriminator, decode_counter, lemma_decode_encode, CounterView};

verus! {

/// Reading the record that `Initialize` wrote gives count 0, the signing
/// authority, the canonical bump for the slot's address, and the counter tag;
/// that authority and bump derive the slot's address again.
pub proof fn lemma_initialize_then_read(
    program_id: Seq<u8>,
    counter_key: Seq<u8>,
    authority: Seq<u8>,
    data: Seq<u8>,
)
    requires
        initialize_outcome(program_id, counter_key, authority, true) is Ok,
        authority.len() == 32,
        data.len() == 64,
    ensures
        ({
            let bump = initialize_outcome(program_id, counter_key, authority, true)->Ok_0;
            let rec = decode_counter(initialize_record(data, authority, bump));
            &&& rec.count == 0
            &&& rec.authority == authority
            &&& rec.bump == bump
            &&& rec.discriminator == counter_discriminator()
            &&& is_canonical_derivation(program_id, authority, counter_key, bump)
            &&& counter_address(program_id, rec.authority, rec.bump) == Some(counter_key)
        }),
{
    let bump = initialize_outcome(program_id, counter_key, authority, true)->Ok_0;
    lemma_decode_encode(
        CounterView {
            authority,
            discriminator: counter_discriminator(),
            count: 0,
            bump,
            padding: decode_counter(data).padding,
        },
    );
}

/// The slot's bytes after `n` signed `Increment` requests by `authority`, one
/// after the other, or the first refusal.
pub open spec fn repeated_increments(
    program_id: Seq<u8>,
    counter_key: Seq<u8>,
    authority: Seq<u8>,
    data: Seq<u8>,
    n: nat,
) -> Result<Seq<u8>, CounterTestError>
    decreases n,
{
    if n == 0 {
        Ok(data)
    } else {
        match repeated_increments(program_id, counter_key, authority, data, (n - 1) as nat) {
            Ok(d) => increment_outcome(program_id, counter_key, authority, true, d),
            Err(e) => Err(e),
        }
    }
}

/// After `Initialize` with the canonical bump, `n` increments by the authority
/// all succeed and leave count `n`, with the rest of the record unchanged.
pub proof fn lemma_increments_count(
    program_id: Seq<u8>,
    counter_key: Seq<u8>,
    authority: Seq<u8>,
    bump: u8,
    data: Seq<u8>,
    n: nat,
)
    requires
        is_canonical_derivation(program_id, authority, counter_key, bump),
        authority.len() == 32,
        data.len() == 64,
        n <= u64::MAX,
    ensures
        repeated_increments(program_id, counter_key, authority, initialize_record(data, authority, bump), n) matches Ok(d)
            && d.len() == 64
            && decode_counter(d) == (CounterView {
                authority,
                discriminator: counter_discriminator(),
                count: n as u64,
                bump,
                padding: decode_counter(data).padding,
            }),
    decreases n,
{
    let start = initialize_record(data, authority, bump);
    if n == 0 {
        lemma_decode_encode(
            CounterView {
                authority,
                discriminator: counter_discriminator(),
                count: 0,
                bump,
                padding: decode_counter(data).padding,
            },
        );
    } else {
        lemma_increments_count(program_id, counter_key, authority, bump, data, (n - 1) as nat);
        let next = CounterView {
            authority,
            discriminator: counter_discriminator(),
            count: n as u64,
            bump,
            padding: decode_counter(data).padding,
        };
        lemma_decode_encode(next);
    }
}

/// `Initialize` refuses a slot whose address is not the authority's canonical
/// derivation, so no account is created for it.
pub proof fn lemma_initialize_rejects_non_canonical(
    program_id: Seq<u8>,
    counter_key: Seq<u8>,
    authority: Seq<u8>,
    signed: bool,
)
    requires
        forall|b: u8| !is_canonical_derivation(program_id, authority, counter_key, b),
    ensures
        initialize_outcome(program_id, counter_key, authority, signed) is Err,
{
}

/// `Increment` refuses a record whose stored authority and bump derive an
/// address other than the slot's; the slot's bytes are then left as they were.
pub proof fn lemma_increment_rejects_wrong_address(
    program_id: Seq<u8>,
    counter_key: Seq<u8>,
    authority_key: Seq<u8>,
    signed: bool,
    data: Seq<u8>,
)
    requires
        data.len() == 64,
        counter_address(program_id, decode_counter(data).authority, decode_counter(data).bump)
            != Some(counter_key),
    ensures
        increment_outcome(program_id, counter_key, authority_key, signed, data) is Err,
{
}

/// `Increment` without the authority's signature is refused.
pub proof fn lemma_increment_requires_signature(
    program_id: Seq<u8>,
    counter_key: Seq<u8>,
    authority_key: Seq<u8>,
    data: Seq<u8>,
)
    ensures
        increment_outcome(program_id, counter_key, authority_key, false, data)
            == Err::<Seq<u8>, CounterTestError>(CounterTestError::MissingRequiredSignature),
{
}

/// An account other than the record's authority cannot increment it, signed
/// or not.
pub proof fn lemma_other_authority_rejected(
    program_id: Seq<u8>,
    counter_key: Seq<u8>,
    other: Seq<u8>,
    signed: bool,
    data: Seq<u8>,
)
    requires
        data.len() == 64,
        decode_counter(data).authority != other,
    ensures
        increment_outcome(program_id, counter_key, other, signed, data) is Err,
{
}

} // verus!
