//! Address derivation checks.
//!
//! Every record lives at an address derived deterministically from a domain
//! tag plus key material.  The core never trusts a caller-supplied address:
//! it recomputes the expected derivation and compares.  The derivation
//! itself is the host SDK's; `pda_of` names its result, and `find_pda` is
//! the one call through which every check goes.

use vstd::prelude::*;
use vstd::bytes::{spec_u128_to_le_bytes, u128_to_le_bytes};
use crate::wire::push_array32;

verus! {

/// The derived address and bump for a seed list and a program id, or `None`
/// when the derivation finds no valid address.  Deterministic: the SDK walks
/// bump bytes from high to low and hashes seeds, bump and program id.
pub uninterp spec fn pda_of(seeds: Seq<Seq<u8>>, program_id: Seq<u8>) -> Option<(Seq<u8>, u8)>;

/// `r` is the executable image of the derivation result `d`.
pub open spec fn pda_matches(r: Option<([u8; 32], u8)>, d: Option<(Seq<u8>, u8)>) -> bool {
    match r {
        Some((a, b)) => d == Some((a@, b)),
        None => d is None,
    }
}

/// Relies on `solana_program::pubkey::Pubkey::try_find_program_address`: the
/// result is a pure function of the seed list and the program id (a SHA-256
/// search over bump bytes), so it is named by `pda_of`.
#[verifier::external_body]
pub fn find_pda(seeds: &Vec<Vec<u8>>, program_id: &[u8; 32]) -> (r: Option<([u8; 32], u8)>)
    ensures
        pda_matches(r, pda_of(seeds.deep_view(), program_id@)),
{
    let refs: Vec<&[u8]> = seeds.iter().map(|s| s.as_slice()).collect();
    let pid = solana_program::pubkey::Pubkey::new_from_array(*program_id);
    solana_program::pubkey::Pubkey::try_find_program_address(&refs, &pid)
        .map(|(addr, bump)| (addr.to_bytes(), bump))
}

/// The domain tag of the global record: the bytes of `"global"`.
pub open spec fn spec_seed_global() -> Seq<u8> {
    seq![103u8, 108u8, 111u8, 98u8, 97u8, 108u8]
}

/// The domain tag of an object record: the bytes of `"object"`.
pub open spec fn spec_seed_object() -> Seq<u8> {
    seq![111u8, 98u8, 106u8, 101u8, 99u8, 116u8]
}

/// The domain tag of an epoch record: the bytes of `"epoch"`.
pub open spec fn spec_seed_epoch() -> Seq<u8> {
    seq![101u8, 112u8, 111u8, 99u8, 104u8]
}

/// The domain tag of a miner ledger entry: the bytes of `"miner"`.
pub open spec fn spec_seed_miner() -> Seq<u8> {
    seq![109u8, 105u8, 110u8, 101u8, 114u8]
}

/// The domain tag of the reward asset: the bytes of `"tape_mint"`.
pub open spec fn spec_seed_tape_mint() -> Seq<u8> {
    seq![116u8, 97u8, 112u8, 101u8, 95u8, 109u8, 105u8, 110u8, 116u8]
}

/// The domain tag of the reward vault: the bytes of `"reward_vault"`.
pub open spec fn spec_seed_reward_vault() -> Seq<u8> {
    seq![114u8, 101u8, 119u8, 97u8, 114u8, 100u8, 95u8, 118u8, 97u8, 117u8, 108u8, 116u8]
}

/// Seed list of the global record.
pub open spec fn spec_global_seeds() -> Seq<Seq<u8>> {
    seq![spec_seed_global()]
}

/// Seed list of the object record owned by `owner` with id `object_id`.
pub open spec fn spec_object_seeds(owner: Seq<u8>, object_id: u128) -> Seq<Seq<u8>> {
    seq![spec_seed_object(), owner, spec_u128_to_le_bytes(object_id)]
}

/// Seed list of the epoch record keyed by `(object_id, epoch_id)`.
pub open spec fn spec_epoch_seeds(object_id: u128, epoch_id: u128) -> Seq<Seq<u8>> {
    seq![spec_seed_epoch(), spec_u128_to_le_bytes(object_id), spec_u128_to_le_bytes(epoch_id)]
}

/// Seed list of the ledger entry of `miner`.
pub open spec fn spec_miner_seeds(miner: Seq<u8>) -> Seq<Seq<u8>> {
    seq![spec_seed_miner(), miner]
}

/// Seed list of the reward asset record.
pub open spec fn spec_tape_mint_seeds() -> Seq<Seq<u8>> {
    seq![spec_seed_tape_mint()]
}

/// Seed list of the reward vault of `mint`.
pub open spec fn spec_reward_vault_seeds(mint: Seq<u8>) -> Seq<Seq<u8>> {
    seq![spec_seed_reward_vault(), mint]
}

fn seed_global() -> (s: Vec<u8>)
    ensures
        s@ == spec_seed_global(),
{
    let mut s: Vec<u8> = Vec::new();
    s.push(103);
    s.push(108);
    s.push(111);
    s.push(98);
    s.push(97);
    s.push(108);
    proof {
        assert(s@ =~= spec_seed_global());
    }
    s
}

fn seed_object() -> (s: Vec<u8>)
    ensures
        s@ == spec_seed_object(),
{
    let mut s: Vec<u8> = Vec::new();
    s.push(111);
    s.push(98);
    s.push(106);
    s.push(101);
    s.push(99);
    s.push(116);
    proof {
        assert(s@ =~= spec_seed_object());
    }
    s
}

fn seed_epoch() -> (s: Vec<u8>)
    ensures
        s@ == spec_seed_epoch(),
{
    let mut s: Vec<u8> = Vec::new();
    s.push(101);
    s.push(112);
    s.push(111);
    s.push(99);
    s.push(104);
    proof {
        assert(s@ =~= spec_seed_epoch());
    }
    s
}

fn seed_miner() -> (s: Vec<u8>)
    ensures
        s@ == spec_seed_miner(),
{
    let mut s: Vec<u8> = Vec::new();
    s.push(109);
    s.push(105);
    s.push(110);
    s.push(101);
    s.push(114);
    proof {
        assert(s@ =~= spec_seed_miner());
    }
    s
}

fn seed_tape_mint() -> (s: Vec<u8>)
    ensures
        s@ == spec_seed_tape_mint(),
{
    let mut s: Vec<u8> = Vec::new();
    s.push(116);
    s.push(97);
    s.push(112);
    s.push(101);
    s.push(95);
    s.push(109);
    s.push(105);
    s.push(110);
    s.push(116);
    proof {
        assert(s@ =~= spec_seed_tape_mint());
    }
    s
}

fn seed_reward_vault() -> (s: Vec<u8>)
    ensures
        s@ == spec_seed_reward_vault(),
{
    let mut s: Vec<u8> = Vec::new();
    s.push(114);
    s.push(101);
    s.push(119);
    s.push(97);
    s.push(114);
    s.push(100);
    s.push(95);
    s.push(118);
    s.push(97);
    s.push(117);
    s.push(108);
    s.push(116);
    proof {
        assert(s@ =~= spec_seed_reward_vault());
    }
    s
}

fn key_seed(key: &[u8; 32]) -> (s: Vec<u8>)
    ensures
        s@ == key@,
{
    let mut s: Vec<u8> = Vec::new();
    push_array32(&mut s, key);
    s
}

/// Derived address of the global record.
pub fn global_pda(program_id: &[u8; 32]) -> (r: Option<([u8; 32], u8)>)
    ensures
        pda_matches(r, pda_of(spec_global_seeds(), program_id@)),
{
    let mut seeds: Vec<Vec<u8>> = Vec::new();
    seeds.push(seed_global());
    proof {
        assert(seeds.deep_view() =~~= spec_global_seeds());
    }
    find_pda(&seeds, program_id)
}

/// Derived address of the object record `(owner, object_id)`.
pub fn object_pda(program_id: &[u8; 32], owner: &[u8; 32], object_id: u128) -> (r: Option<
    ([u8; 32], u8),
>)
    ensures
        pda_matches(r, pda_of(spec_object_seeds(owner@, object_id), program_id@)),
{
    let mut seeds: Vec<Vec<u8>> = Vec::new();
    seeds.push(seed_object());
    seeds.push(key_seed(owner));
    seeds.push(u128_to_le_bytes(object_id));
    proof {
        assert(seeds.deep_view() =~~= spec_object_seeds(owner@, object_id));
    }
    find_pda(&seeds, program_id)
}

/// Derived address of the epoch record `(object_id, epoch_id)`.
pub fn epoch_pda(program_id: &[u8; 32], object_id: u128, epoch_id: u128) -> (r: Option<
    ([u8; 32], u8),
>)
    ensures
        pda_matches(r, pda_of(spec_epoch_seeds(object_id, epoch_id), program_id@)),
{
    let mut seeds: Vec<Vec<u8>> = Vec::new();
    seeds.push(seed_epoch());
    seeds.push(u128_to_le_bytes(object_id));
    seeds.push(u128_to_le_bytes(epoch_id));
    proof {
        assert(seeds.deep_view() =~~= spec_epoch_seeds(object_id, epoch_id));
    }
    find_pda(&seeds, program_id)
}

/// Derived address of the ledger entry of `miner`.
pub fn miner_pda(program_id: &[u8; 32], miner: &[u8; 32]) -> (r: Option<([u8; 32], u8)>)
    ensures
        pda_matches(r, pda_of(spec_miner_seeds(miner@), program_id@)),
{
    let mut seeds: Vec<Vec<u8>> = Vec::new();
    seeds.push(seed_miner());
    seeds.push(key_seed(miner));
    proof {
        assert(seeds.deep_view() =~~= spec_miner_seeds(miner@));
    }
    find_pda(&seeds, program_id)
}

/// Derived address of the reward asset record.
pub fn tape_mint_pda(program_id: &[u8; 32]) -> (r: Option<([u8; 32], u8)>)
    ensures
        pda_matches(r, pda_of(spec_tape_mint_seeds(), program_id@)),
{
    let mut seeds: Vec<Vec<u8>> = Vec::new();
    seeds.push(seed_tape_mint());
    proof {
        assert(seeds.deep_view() =~~= spec_tape_mint_seeds());
    }
    find_pda(&seeds, program_id)
}

/// Derived address of the reward vault of `mint`.
pub fn reward_vault_pda(program_id: &[u8; 32], mint: &[u8; 32]) -> (r: Option<([u8; 32], u8)>)
    ensures
        pda_matches(r, pda_of(spec_reward_vault_seeds(mint@), program_id@)),
{
    let mut seeds: Vec<Vec<u8>> = Vec::new();
    seeds.push(seed_reward_vault());
    seeds.push(key_seed(mint));
    proof {
        assert(seeds.deep_view() =~~= spec_reward_vault_seeds(mint@));
    }
    find_pda(&seeds, program_id)
}

/// Byte-for-byte equality of two 32-byte keys.
pub fn keys_equal(a: &[u8; 32], b: &[u8; 32]) -> (r: bool)
    ensures
        r <==> a@ == b@,
{
    let mut i: usize = 0;
    while i < 32
        invariant
            i <= 32,
            forall|j: int| 0 <= j < i ==> a@[j] == b@[j],
        decreases 32 - i,
    {
        if a[i] != b[i] {
            return false;
        }
        i = i + 1;
    }
    proof {
        assert(a@ =~= b@);
    }
    true
}

/// Whether a supplied key is the derived address of `d`.
pub open spec fn key_is_derived(key: Seq<u8>, d: Option<(Seq<u8>, u8)>) -> bool {
    match d {
        Some((a, _)) => key == a,
        None => false,
    }
}

} // verus!
