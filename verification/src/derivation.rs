//! Identity derivation: the scheme that binds an escrow record to its maker
//! and seed.
//!
//! A derived identity is a hash of the seeds, a bump byte and the program's
//! identity that is not a valid signing key. Hashing and the curve test are
//! the ledger library's; what this module adds is which seeds an escrow uses,
//! which bump is chosen, and how a candidate is checked against them.

use vstd::prelude::*;
use crate::address::Address;
use crate::bytes::{le_bytes, to_le_bytes};

verus! {

/// The identity that the ledger library's `create_program_address` computes
/// from `seeds` and `program`, or `None` where it reports an error (the hash
/// is a valid signing key, or there are too many or too long seeds).
pub uninterp spec fn created_program_address(seeds: Seq<Seq<u8>>, program: Seq<u8>) -> Option<
    Seq<u8>,
>;

/// The byte strings held by a list of seeds.
pub open spec fn seeds_view(seeds: &Vec<Vec<u8>>) -> Seq<Seq<u8>> {
    seeds@.map_values(|s: Vec<u8>| s@)
}

/// The namespace tag of escrow records: the ASCII bytes of `escrow`.
pub open spec fn escrow_tag() -> Seq<u8> {
    seq![101u8, 115u8, 99u8, 114u8, 111u8, 119u8]
}

/// The seeds that name the escrow of `maker` with `seed`, without the bump.
pub open spec fn escrow_seeds(maker: Seq<u8>, seed: u64) -> Seq<Seq<u8>> {
    seq![escrow_tag(), maker, le_bytes(seed)]
}

/// The seeds with which the record signs for itself: those of
/// [`escrow_seeds`] followed by the bump.
pub open spec fn signer_seeds(maker: Seq<u8>, seed: u64, bump: u8) -> Seq<Seq<u8>> {
    escrow_seeds(maker, seed).push(seq![bump])
}

/// The first bump, going down from `from` to 1, at which `seeds` followed by
/// the bump derive an identity, together with that identity.
pub open spec fn search_bump(seeds: Seq<Seq<u8>>, program: Seq<u8>, from: int) -> Option<
    (Seq<u8>, u8),
>
    decreases from,
{
    if from < 1 || from > 255 {
        None
    } else {
        match created_program_address(seeds.push(seq![from as u8]), program) {
            Some(identity) => Some((identity, from as u8)),
            None => search_bump(seeds, program, from - 1),
        }
    }
}

/// The identity and bump of the escrow of `maker` with `seed` under
/// `program`: the search starts at bump 255.
pub open spec fn derived(maker: Seq<u8>, seed: u64, program: Seq<u8>) -> Option<(Seq<u8>, u8)> {
    search_bump(escrow_seeds(maker, seed), program, 255)
}

/// Whether `candidate` is the identity derived from `maker`, `seed` and the
/// explicit `bump`.
pub open spec fn verified(
    candidate: Seq<u8>,
    maker: Seq<u8>,
    seed: u64,
    bump: u8,
    program: Seq<u8>,
) -> bool {
    created_program_address(signer_seeds(maker, seed, bump), program) == Some(candidate)
}

/// Calls `Address::create_program_address` of the ledger library. Trusted:
/// the result is the named value [`created_program_address`] of the same
/// seeds and program, with every error of the library mapped to `None`.
#[verifier::external_body]
fn create_program_address(seeds: &Vec<Vec<u8>>, program: &Address) -> (r: Option<Address>)
    ensures
        match r {
            Some(a) => created_program_address(seeds_view(seeds), program@) == Some(a@),
            None => created_program_address(seeds_view(seeds), program@) is None,
        },
{
    let parts: Vec<&[u8]> = seeds.iter().map(|s| s.as_slice()).collect();
    let program = pinocchio::Address::new_from_array(program.bytes);
    match pinocchio::Address::create_program_address(&parts, &program) {
        Ok(a) => Some(Address { bytes: a.to_bytes() }),
        Err(_) => None,
    }
}

/// Calls `Address::try_find_program_address` of the ledger library. Trusted:
/// it tries the bumps 255, 254, .. 1 in turn, each with
/// `create_program_address` on the seeds followed by the bump, and returns
/// the first identity that comes out with its bump, `None` if none does.
#[verifier::external_body]
fn try_find_program_address(seeds: &Vec<Vec<u8>>, program: &Address) -> (r: Option<(Address, u8)>)
    ensures
        match r {
            Some((a, bump)) => search_bump(seeds_view(seeds), program@, 255) == Some((a@, bump)),
            None => search_bump(seeds_view(seeds), program@, 255) is None,
        },
{
    let parts: Vec<&[u8]> = seeds.iter().map(|s| s.as_slice()).collect();
    let program = pinocchio::Address::new_from_array(program.bytes);
    match pinocchio::Address::try_find_program_address(&parts, &program) {
        Some((a, bump)) => Some((Address { bytes: a.to_bytes() }, bump)),
        None => None,
    }
}

/// The eight little-endian bytes of `seed` as a vector.
fn seed_bytes(seed: u64) -> (r: Vec<u8>)
    ensures
        r@ == le_bytes(seed),
{
    let b = to_le_bytes(seed);
    let r = vec![b[0], b[1], b[2], b[3], b[4], b[5], b[6], b[7]];
    assert(r@ =~= b@);
    r
}

/// The seeds of the escrow of `maker` with `seed`, without the bump.
pub fn escrow_seed_list(maker: &Address, seed: u64) -> (r: Vec<Vec<u8>>)
    ensures
        seeds_view(&r) == escrow_seeds(maker@, seed),
{
    let tag: Vec<u8> = vec![101u8, 115u8, 99u8, 114u8, 111u8, 119u8];
    assert(tag@ =~= escrow_tag());
    let mut r: Vec<Vec<u8>> = Vec::new();
    r.push(tag);
    r.push(maker.to_vec());
    r.push(seed_bytes(seed));
    assert(seeds_view(&r) =~= escrow_seeds(maker@, seed));
    r
}

/// The seeds with which the record of `maker`, `seed` and `bump` signs.
pub fn signer_seed_list(maker: &Address, seed: u64, bump: u8) -> (r: Vec<Vec<u8>>)
    ensures
        seeds_view(&r) == signer_seeds(maker@, seed, bump),
{
    let mut r = escrow_seed_list(maker, seed);
    let ghost before = seeds_view(&r);
    let last: Vec<u8> = vec![bump];
    assert(last@ =~= seq![bump]);
    r.push(last);
    assert(seeds_view(&r) =~= before.push(seq![bump]));
    r
}

/// Derives the identity of the escrow record of `maker` with `seed`, and the
/// bump that makes it one. `None` only if no bump from 255 down to 1 gives a
/// derived identity.
pub fn derive(maker: &Address, seed: u64, program: &Address) -> (r: Option<(Address, u8)>)
    ensures
        match r {
            Some((identity, bump)) => derived(maker@, seed, program@) == Some((identity@, bump)),
            None => derived(maker@, seed, program@) is None,
        },
{
    let seeds = escrow_seed_list(maker, seed);
    try_find_program_address(&seeds, program)
}

/// Whether `candidate` is the identity that `maker`, `seed` and the explicit
/// `bump` derive under `program`.
pub fn verify(candidate: &Address, maker: &Address, seed: u64, bump: u8, program: &Address) -> (r:
    bool)
    ensures
        r == verified(candidate@, maker@, seed, bump, program@),
{
    let seeds = signer_seed_list(maker, seed, bump);
    match create_program_address(&seeds, program) {
        Some(identity) => identity.same(candidate),
        None => false,
    }
}

/// What a search finds, it finds at a bump between 1 and `from`, and the
/// identity is the one that the seeds followed by that bump derive.
pub proof fn lemma_search_bump_sound(seeds: Seq<Seq<u8>>, program: Seq<u8>, from: int)
    ensures
        search_bump(seeds, program, from) matches Some((identity, bump)) ==> 1 <= bump <= from
            && created_program_address(seeds.push(seq![bump]), program) == Some(identity),
    decreases from,
{
    if 1 <= from <= 255 {
        if created_program_address(seeds.push(seq![from as u8]), program) is None {
            lemma_search_bump_sound(seeds, program, from - 1);
        }
    }
}

/// A derived identity verifies: whatever identity and bump `derive` yields
/// for a maker and seed, `verify` accepts that identity with that maker, seed
/// and bump.
pub proof fn lemma_derived_verifies(maker: Seq<u8>, seed: u64, program: Seq<u8>)
    ensures
        derived(maker, seed, program) matches Some((identity, bump)) ==> verified(
            identity,
            maker,
            seed,
            bump,
            program,
        ),
{
    lemma_search_bump_sound(escrow_seeds(maker, seed), program, 255);
}

} // verus!
