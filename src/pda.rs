use solana_program::pubkey::Pubkey;
use vstd::prelude::*;

verus! {

/// The address that `Pubkey::create_program_address` derives from `seeds`
/// under `program_id`, or `None` where it refuses them.
pub uninterp spec fn program_address(seeds: Seq<Seq<u8>>, program_id: Seq<u8>) -> Option<Seq<u8>>;

/// Relies on `Pubkey::create_program_address`: it hashes the seeds with the
/// program id, and gives the address unless the seeds are too long or the hash
/// lies on the ed25519 curve. Both failures are folded into `None`.
#[verifier::external_body]
fn create_program_address(seeds: &Vec<Vec<u8>>, program_id: &[u8; 32]) -> (r: Option<[u8; 32]>)
    ensures
        match r {
            Some(a) => program_address(seeds.deep_view(), program_id@) == Some(a@),
            None => program_address(seeds.deep_view(), program_id@) is None,
        },
{
    let s: Vec<&[u8]> = seeds.iter().map(|x| x.as_slice()).collect();
    Pubkey::create_program_address(&s, &Pubkey::new_from_array(*program_id)).ok().map(
        |a| a.to_bytes(),
    )
}

/// Relies on `Pubkey::try_find_program_address`: it appends one bump byte to
/// the seeds, tries 255 down to 1 with `create_program_address`, and returns
/// the first address found with its bump, or `None` where none is found.
#[verifier::external_body]
fn try_find_program_address(seeds: &Vec<Vec<u8>>, program_id: &[u8; 32]) -> (r: Option<([u8; 32], u8)>)
    ensures
        match r {
            Some((a, b)) => {
                &&& 1 <= b
                &&& program_address(seeds.deep_view().push(seq![b]), program_id@) == Some(a@)
                &&& forall|c: u8|
                    b < c ==> (#[trigger] program_address(seeds.deep_view().push(seq![c]), program_id@)) is None
            },
            None => forall|c: u8|
                1 <= c ==> (#[trigger] program_address(seeds.deep_view().push(seq![c]), program_id@)) is None,
        },
{
    let s: Vec<&[u8]> = seeds.iter().map(|x| x.as_slice()).collect();
    Pubkey::try_find_program_address(&s, &Pubkey::new_from_array(*program_id)).map(
        |(a, b)| (a.to_bytes(), b),
    )
}

/// The fixed seed that every counter address is derived from: `b"counter"`.
pub open spec fn counter_seed() -> Seq<u8> {
    seq![99u8, 111u8, 117u8, 110u8, 116u8, 101u8, 114u8]
}

/// The seeds of an authority's counter, before the bump byte.
pub open spec fn counter_base_seeds(authority: Seq<u8>) -> Seq<Seq<u8>> {
    seq![counter_seed(), authority]
}

/// The seeds of an authority's counter, with the bump byte.
pub open spec fn counter_seeds(authority: Seq<u8>, bump: u8) -> Seq<Seq<u8>> {
    counter_base_seeds(authority).push(seq![bump])
}

/// The address of `authority`'s counter for a given bump, if there is one.
pub open spec fn counter_address(program_id: Seq<u8>, authority: Seq<u8>, bump: u8) -> Option<Seq<u8>> {
    program_address(counter_seeds(authority, bump), program_id)
}

/// `(address, bump)` is the canonical derivation for `authority`: the largest
/// nonzero bump that yields an address, and that address.
pub open spec fn is_canonical_derivation(
    program_id: Seq<u8>,
    authority: Seq<u8>,
    address: Seq<u8>,
    bump: u8,
) -> bool {
    &&& 1 <= bump
    &&& counter_address(program_id, authority, bump) == Some(address)
    &&& forall|c: u8| bump < c ==> (#[trigger] counter_address(program_id, authority, c)) is None
}

/// No nonzero bump yields an address for `authority`.
pub open spec fn no_viable_bump(program_id: Seq<u8>, authority: Seq<u8>) -> bool {
    forall|c: u8| 1 <= c ==> (#[trigger] counter_address(program_id, authority, c)) is None
}

/// The seeds of an authority's counter as bytes, with the bump byte appended.
pub fn counter_signer_seeds(authority: &[u8; 32], bump: u8) -> (r: Vec<Vec<u8>>)
    ensures
        r.deep_view() == counter_seeds(authority@, bump),
{
    let mut r = base_seeds(authority);
    let ghost before = r@;
    let last: Vec<u8> = vec![bump];
    proof {
        assert(last@ =~= seq![bump]);
    }
    r.push(last);
    proof {
        assert(r@[0] == before[0] && r@[1] == before[1]);
        assert(r.deep_view()[0] =~= counter_seed());
        assert(r.deep_view()[1] =~= authority@);
        assert(r.deep_view()[2] =~= seq![bump]);
        assert(r.deep_view() =~= counter_seeds(authority@, bump));
    }
    r
}

fn base_seeds(authority: &[u8; 32]) -> (r: Vec<Vec<u8>>)
    ensures
        r@.len() == 2,
        r@[0]@ == counter_seed(),
        r@[1]@ == authority@,
        r.deep_view() == counter_base_seeds(authority@),
{
    let seed: Vec<u8> = vec![99u8, 111u8, 117u8, 110u8, 116u8, 101u8, 114u8];
    let mut key: Vec<u8> = Vec::new();
    let mut i: usize = 0;
    while i < 32
        invariant
            0 <= i <= 32,
            key@ == authority@.subrange(0, i as int),
        decreases 32 - i,
    {
        key.push(authority[i]);
        i += 1;
        proof {
            assert(key@ =~= authority@.subrange(0, i as int));
        }
    }
    proof {
        assert(key@ =~= authority@);
    }
    proof {
        assert(seed@ =~= counter_seed());
    }
    let r = vec![seed, key];
    proof {
        assert(r.deep_view()[0] =~= counter_seed());
        assert(r.deep_view()[1] =~= authority@);
        assert(r.deep_view() =~= counter_base_seeds(authority@));
    }
    r
}

/// The address of `authority`'s counter for a known bump; `None` where that
/// bump yields no program address.
pub fn create_counter_pda(program_id: &[u8; 32], authority: &[u8; 32], bump: u8) -> (r: Option<[u8; 32]>)
    ensures
        match r {
            Some(a) => counter_address(program_id@, authority@, bump) == Some(a@),
            None => counter_address(program_id@, authority@, bump) is None,
        },
{
    let seeds = counter_signer_seeds(authority, bump);
    create_program_address(&seeds, program_id)
}

/// The canonical address and bump of `authority`'s counter; `None` where no
/// bump yields one.
pub fn find_counter_pda(program_id: &[u8; 32], authority: &[u8; 32]) -> (r: Option<([u8; 32], u8)>)
    ensures
        match r {
            Some((a, b)) => is_canonical_derivation(program_id@, authority@, a@, b),
            None => no_viable_bump(program_id@, authority@),
        },
{
    let seeds = base_seeds(authority);
    let r = try_find_program_address(&seeds, program_id);
    proof {
        assert forall|c: u8| #![trigger counter_seeds(authority@, c)]
            counter_seeds(authority@, c) == seeds.deep_view().push(seq![c]) by {}
    }
    r
}

/// Two canonical derivations for one authority are the same.
pub proof fn lemma_canonical_unique(
    program_id: Seq<u8>,
    authority: Seq<u8>,
    a1: Seq<u8>,
    b1: u8,
    a2: Seq<u8>,
    b2: u8,
)
    requires
        is_canonical_derivation(program_id, authority, a1, b1),
        is_canonical_derivation(program_id, authority, a2, b2),
    ensures
        a1 == a2,
        b1 == b2,
{
    if b1 < b2 {
        assert(counter_address(program_id, authority, b2) is None);
    } else if b2 < b1 {
        assert(counter_address(program_id, authority, b1) is None);
    }
}

/// Re-deriving with the bump that the canonical search found gives back the
/// address that it found.
pub proof fn lemma_canonical_rederives(
    program_id: Seq<u8>,
    authority: Seq<u8>,
    address: Seq<u8>,
    bump: u8,
)
    requires
        is_canonical_derivation(program_id, authority, address, bump),
    ensures
        counter_address(program_id, authority, bump) == Some(address),
{
}

} // verus!
