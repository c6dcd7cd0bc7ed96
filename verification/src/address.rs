//! Deterministic derivation of program-owned account addresses from seed
//! material, and re-verification of stored records against their own
//! claimed derivation.

use crate::account::keys_equal;
use crate::account::ChestAccount;
use crate::account::UserAccount;
use anchor_lang::solana_program::pubkey::Pubkey;
use vstd::prelude::*;

verus! {

/// The byte-strings of a seed list, as mathematical sequences.
pub open spec fn seed_views(seeds: Seq<Vec<u8>>) -> Seq<Seq<u8>> {
    Seq::new(seeds.len(), |i: int| seeds[i]@)
}

/// The address, if any, that the ledger's derivation primitive assigns to
/// an ordered sequence of seed byte-strings under a program identity.
/// `None` stands for the rejected inputs: too many seeds, a seed longer
/// than the permitted maximum, or a derived point that lies on the signing
/// curve and so could be controlled by a private key.
pub uninterp spec fn program_address_of(seeds: Seq<Seq<u8>>, program_id: Seq<u8>) -> Option<Seq<u8>>;

/// Relies on `Pubkey::create_program_address` (through
/// `anchor_lang::solana_program`): the result is a pure function of the
/// seed slices and the program id alone — a hash over the concatenated
/// seeds, the program id and a fixed marker — and it is an error exactly
/// when there are more than 16 seeds, a seed exceeds 32 bytes, or the hash
/// lies on the ed25519 curve.
#[verifier::external_body]
fn create_address(seeds: &Vec<Vec<u8>>, program_id: &[u8; 32]) -> (r: Option<[u8; 32]>)
    ensures
        (match r {
            Option::Some(a) => program_address_of(seed_views(seeds@), program_id@) == Option::Some(
                a@,
            ),
            Option::None => program_address_of(seed_views(seeds@), program_id@) is None,
        }),
{
    let refs: Vec<&[u8]> = seeds.iter().map(|s| s.as_slice()).collect();
    let pid = Pubkey::new_from_array(*program_id);
    match Pubkey::create_program_address(&refs, &pid) {
        Ok(a) => Some(a.to_bytes()),
        Err(_) => None,
    }
}

/// The derivation search below a given bound: try disambiguation bytes
/// from `bump` down to 1 and return the first address the primitive
/// accepts, together with the byte that produced it.
pub open spec fn derivation_from(seeds: Seq<Seq<u8>>, program_id: Seq<u8>, bump: int) -> Option<
    (Seq<u8>, u8),
>
    decreases bump,
{
    if bump < 1 {
        None
    } else {
        match program_address_of(seeds.push(seq![bump as u8]), program_id) {
            Option::Some(a) => Some((a, bump as u8)),
            Option::None => derivation_from(seeds, program_id, bump - 1),
        }
    }
}

/// `derive(seeds)`: the deterministic address and bump for a seed
/// sequence, searching disambiguation bytes from 255 downward. `None`
/// only on seed-space exhaustion or oversized seed material.
pub open spec fn derived_address(seeds: Seq<Seq<u8>>, program_id: Seq<u8>) -> Option<(Seq<u8>, u8)> {
    derivation_from(seeds, program_id, 255)
}

/// How an executable derivation result is pinned to the mathematical one.
pub open spec fn derivation_matches(
    r: Option<([u8; 32], u8)>,
    seeds: Seq<Seq<u8>>,
    program_id: Seq<u8>,
) -> bool {
    match r {
        Option::Some((a, b)) => derived_address(seeds, program_id) == Option::Some((a@, b)),
        Option::None => derived_address(seeds, program_id) is None,
    }
}

/// An owned copy of a byte-string.
fn copy_bytes(src: &Vec<u8>) -> (r: Vec<u8>)
    ensures
        r@ == src@,
{
    let mut r: Vec<u8> = Vec::new();
    let mut i: usize = 0;
    while i < src.len()
        invariant
            i <= src@.len(),
            r@ == src@.take(i as int),
        decreases src@.len() - i,
    {
        r.push(src[i]);
        proof {
            assert(r@ =~= src@.take(i as int + 1));
        }
        i += 1;
    }
    proof {
        assert(src@.take(src@.len() as int) =~= src@);
    }
    r
}

/// Derive the program-owned address for `seeds`: the highest
/// disambiguation byte whose derived point is acceptable, with the
/// address it produces. Purely a function of `seeds` and `program_id`.
pub fn derive_address(seeds: &Vec<Vec<u8>>, program_id: &[u8; 32]) -> (r: Option<([u8; 32], u8)>)
    ensures
        derivation_matches(r, seed_views(seeds@), program_id@),
{
    let ghost sv = seed_views(seeds@);
    let mut work: Vec<Vec<u8>> = Vec::new();
    let mut i: usize = 0;
    while i < seeds.len()
        invariant
            i <= seeds@.len(),
            work@.len() == i,
            seed_views(work@) == sv.take(i as int),
            sv == seed_views(seeds@),
        decreases seeds@.len() - i,
    {
        work.push(copy_bytes(&seeds[i]));
        proof {
            assert(seed_views(work@) =~= sv.take(i as int + 1));
        }
        i += 1;
    }
    proof {
        assert(sv.take(sv.len() as int) =~= sv);
    }
    let mut bump: u16 = 255;
    while bump >= 1
        invariant
            bump <= 255,
            seed_views(work@) == sv,
            sv == seed_views(seeds@),
            derivation_from(sv, program_id@, 255) == derivation_from(sv, program_id@, bump as int),
        decreases bump,
    {
        let mut bump_seed: Vec<u8> = Vec::new();
        bump_seed.push(bump as u8);
        work.push(bump_seed);
        proof {
            assert(seed_views(work@) =~= sv.push(seq![bump as u8]));
        }
        let found = create_address(&work, program_id);
        match found {
            Option::Some(a) => {
                proof {
                    assert(derivation_from(sv, program_id@, bump as int) == Option::Some(
                        (a@, bump as u8),
                    ));
                }
                return Some((a, bump as u8));
            },
            Option::None => {},
        }
        work.pop();
        proof {
            assert(seed_views(work@) =~= sv);
        }
        bump = bump - 1;
    }
    None
}

/// The seed views under which a chest record's address is derived: its
/// 8-byte seed followed by the one-byte bump.
pub open spec fn chest_seeds(chest: ChestAccount) -> Seq<Seq<u8>> {
    seq![chest.seed@, seq![chest.bump]]
}

/// The seed views under which a claimant record's address is derived: its
/// two 32-byte seed components followed by the one-byte bump.
pub open spec fn user_seeds(user: UserAccount) -> Seq<Seq<u8>> {
    seq![user.seed@[0]@, user.seed@[1]@, seq![user.bump]]
}

/// Re-verify a stored chest record against its own claimed derivation:
/// true exactly when the primitive maps the record's seed and bump to
/// `address` under `program_id`.
pub fn chest_address_matches(chest: &ChestAccount, address: &[u8; 32], program_id: &[u8; 32]) -> (r:
    bool)
    ensures
        r == (program_address_of(chest_seeds(*chest), program_id@) == Option::Some(address@)),
{
    let mut seeds: Vec<Vec<u8>> = Vec::new();
    seeds.push(vstd::slice::slice_to_vec(chest.seed.as_slice()));
    let mut bump_seed: Vec<u8> = Vec::new();
    bump_seed.push(chest.bump);
    seeds.push(bump_seed);
    proof {
        assert(seed_views(seeds@) =~= chest_seeds(*chest));
    }
    match create_address(&seeds, program_id) {
        Option::Some(a) => keys_equal(&a, address),
        Option::None => false,
    }
}

/// Re-verify a stored claimant record against its own claimed derivation.
pub fn user_address_matches(user: &UserAccount, address: &[u8; 32], program_id: &[u8; 32]) -> (r:
    bool)
    ensures
        r == (program_address_of(user_seeds(*user), program_id@) == Option::Some(address@)),
{
    let mut seeds: Vec<Vec<u8>> = Vec::new();
    let first = user.seed[0];
    let second = user.seed[1];
    seeds.push(vstd::slice::slice_to_vec(first.as_slice()));
    seeds.push(vstd::slice::slice_to_vec(second.as_slice()));
    let mut bump_seed: Vec<u8> = Vec::new();
    bump_seed.push(user.bump);
    seeds.push(bump_seed);
    proof {
        assert(seed_views(seeds@) =~= user_seeds(*user));
    }
    match create_address(&seeds, program_id) {
        Option::Some(a) => keys_equal(&a, address),
        Option::None => false,
    }
}

} // verus!
