use spl_discriminator::ArrayDiscriminator;
use vstd::bytes::*;
use vstd::prelude::*;
use vstd::slice::slice_subrange;

use crate::error::CounterTestError;

verus! {

/// The first eight bytes of the SHA-256 digest of `hash_input`, as
/// `ArrayDiscriminator::new_with_hash_input` computes them.
pub uninterp spec fn hashed_discriminator(hash_input: Seq<char>) -> [u8; 8];

/// Relies on `ArrayDiscriminator::new_with_hash_input`: an eight-byte tag that
/// depends on the input string alone.
#[verifier::external_body]
fn discriminator_from_hash_input(hash_input: &str) -> (r: [u8; 8])
    ensures
        r == hashed_discriminator(hash_input@),
{
    ArrayDiscriminator::new_with_hash_input(hash_input).into()
}

/// The string whose digest tags a counter record.
pub const COUNTER_HASH_INPUT: &'static str = "counter_test::state::counter";

/// The tag of an initialized counter record.
pub open spec fn counter_discriminator() -> Seq<u8> {
    hashed_discriminator(COUNTER_HASH_INPUT@)@
}

/// The tag of a record's slot that was allocated and never written.
pub open spec fn uninitialized_discriminator() -> Seq<u8> {
    seq![0u8, 0u8, 0u8, 0u8, 0u8, 0u8, 0u8, 0u8]
}

/// The tag of an initialized counter record.
pub fn counter_discriminator_bytes() -> (r: [u8; 8])
    ensures
        r@ == counter_discriminator(),
{
    discriminator_from_hash_input(COUNTER_HASH_INPUT)
}

/// A counter record: the authority that owns it, its type tag, the count, the
/// bump that its address was derived with, and reserved bytes.
///
/// In storage it takes `Counter::LEN` bytes, the fields in this order, the
/// count little-endian.
#[derive(Debug, Clone, Copy)]
pub struct Counter {
    pub authority: [u8; 32],
    pub discriminator: [u8; 8],
    pub count: u64,
    pub bump: u8,
    pub padding: [u8; 15],
}

/// The value of a counter record, with its byte arrays as sequences.
pub struct CounterView {
    pub authority: Seq<u8>,
    pub discriminator: Seq<u8>,
    pub count: u64,
    pub bump: u8,
    pub padding: Seq<u8>,
}

impl View for Counter {
    type V = CounterView;

    open spec fn view(&self) -> CounterView {
        CounterView {
            authority: self.authority@,
            discriminator: self.discriminator@,
            count: self.count,
            bump: self.bump,
            padding: self.padding@,
        }
    }
}

/// The stored bytes of a record.
pub open spec fn encode_counter(c: CounterView) -> Seq<u8> {
    c.authority + c.discriminator + spec_u64_to_le_bytes(c.count) + seq![c.bump] + c.padding
}

/// The record that `Counter::LEN` stored bytes hold.
pub open spec fn decode_counter(s: Seq<u8>) -> CounterView {
    CounterView {
        authority: s.subrange(0, 32),
        discriminator: s.subrange(32, 40),
        count: spec_u64_from_le_bytes(s.subrange(40, 48)),
        bump: s[48],
        padding: s.subrange(49, 64),
    }
}

/// The record's byte arrays have their fixed lengths.
pub open spec fn counter_view_wf(c: CounterView) -> bool {
    &&& c.authority.len() == 32
    &&& c.discriminator.len() == 8
    &&& c.padding.len() == 15
}

/// Reading back the bytes of a record gives the record.
pub proof fn lemma_decode_encode(c: CounterView)
    requires
        counter_view_wf(c),
    ensures
        encode_counter(c).len() == 64,
        decode_counter(encode_counter(c)) == c,
{
    lemma_auto_spec_u64_to_from_le_bytes();
    let s = encode_counter(c);
    assert(s.subrange(0, 32) =~= c.authority);
    assert(s.subrange(32, 40) =~= c.discriminator);
    assert(s.subrange(40, 48) =~= spec_u64_to_le_bytes(c.count));
    assert(s.subrange(49, 64) =~= c.padding);
}

fn copy_array<const N: usize>(data: &[u8], start: usize) -> (r: [u8; N])
    requires
        start + N <= data@.len(),
    ensures
        r@ == data@.subrange(start as int, start + N),
{
    let mut r: [u8; N] = [0u8; N];
    let n = data.len();
    let mut i: usize = 0;
    while i < N
        invariant
            0 <= i <= N,
            n == data@.len(),
            start + N <= data@.len(),
            r@.len() == N,
            forall|j: int| 0 <= j < i ==> r@[j] == data@[start + j],
        decreases N - i,
    {
        r[i] = data[start + i];
        i += 1;
    }
    assert(r@ =~= data@.subrange(start as int, start + N));
    r
}

fn push_bytes(out: &mut Vec<u8>, src: &[u8])
    ensures
        final(out)@ == old(out)@ + src@,
{
    let ghost start = out@;
    let mut i: usize = 0;
    while i < src.len()
        invariant
            0 <= i <= src@.len(),
            out@ == start + src@.subrange(0, i as int),
        decreases src@.len() - i,
    {
        out.push(src[i]);
        i += 1;
        assert(out@ =~= start + src@.subrange(0, i as int));
    }
    assert(src@.subrange(0, src@.len() as int) =~= src@);
}

impl Counter {
    /// The number of bytes a record takes in storage.
    pub const LEN: usize = 64;

    /// Is `true` if the record carries the counter tag.
    pub fn is_initialized(&self) -> (r: bool)
        ensures
            r == (self.discriminator@ == counter_discriminator()),
    {
        let tag = counter_discriminator_bytes();
        same_bytes(&self.discriminator, &tag)
    }

    /// Is `true` if the record's tag is all zero, as in a fresh slot.
    pub fn is_uninitialized(&self) -> (r: bool)
        ensures
            r == (self.discriminator@ == uninitialized_discriminator()),
    {
        let zero: [u8; 8] = [0u8; 8];
        assert(zero@ =~= uninitialized_discriminator());
        same_bytes(&self.discriminator, &zero)
    }

    /// Reads a record from stored bytes, which must be exactly `Counter::LEN` long.
    pub fn try_from_slice(data: &[u8]) -> (r: Result<Counter, CounterTestError>)
        ensures
            data@.len() == 64 <==> r is Ok,
            r matches Ok(c) ==> c@ == decode_counter(data@),
            r matches Err(e) ==> e == CounterTestError::InvalidAccountData,
    {
        if data.len() != Self::LEN {
            return Err(CounterTestError::InvalidAccountData);
        }
        let authority: [u8; 32] = copy_array(data, 0);
        let discriminator: [u8; 8] = copy_array(data, 32);
        let count = u64_from_le_bytes(slice_subrange(data, 40, 48));
        let bump = data[48];
        let padding: [u8; 15] = copy_array(data, 49);
        Ok(Counter { authority, discriminator, count, bump, padding })
    }

    /// The record's stored bytes.
    pub fn to_bytes(&self) -> (r: Vec<u8>)
        ensures
            r@ == encode_counter(self@),
            r@.len() == 64,
    {
        let mut out: Vec<u8> = Vec::new();
        push_bytes(&mut out, self.authority.as_slice());
        push_bytes(&mut out, self.discriminator.as_slice());
        let count = u64_to_le_bytes(self.count);
        push_bytes(&mut out, count.as_slice());
        out.push(self.bump);
        push_bytes(&mut out, self.padding.as_slice());
        proof {
            lemma_auto_spec_u64_to_from_le_bytes();
            assert(out@ =~= encode_counter(self@));
        }
        out
    }
}

/// Is `true` if the two arrays hold the same bytes.
pub fn same_bytes<const N: usize>(a: &[u8; N], b: &[u8; N]) -> (r: bool)
    ensures
        r == (a@ == b@),
{
    let mut i: usize = 0;
    while i < N
        invariant
            0 <= i <= N,
            a@.len() == N,
            b@.len() == N,
            forall|j: int| 0 <= j < i ==> a@[j] == b@[j],
        decreases N - i,
    {
        if a[i] != b[i] {
            return false;
        }
        i += 1;
    }
    assert(a@ =~= b@);
    true
}

} // verus!
