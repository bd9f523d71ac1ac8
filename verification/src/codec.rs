//! The record codec: each persisted record to and from its binary layout.
//!
//! The layout is the one the records have on the ledger: fields in
//! declaration order, integers little-endian, a signed timestamp as its
//! two's-complement image, an optional field as a tag byte `0`/`1` followed
//! by the payload, an enum as a tag byte followed by its payload.  A decoder
//! accepts exactly the encodings and consumes the whole input; anything else
//! is malformed.
//!
//! For every record the decoder is proved to invert the encoder
//! (`lemma_*_round_trip`): encoding then decoding yields the record back,
//! bit for bit.

use vstd::prelude::*;
use vstd::bytes::{
    lemma_auto_spec_u32_to_from_le_bytes, lemma_auto_spec_u64_to_from_le_bytes,
    lemma_auto_spec_u128_to_from_le_bytes, spec_u32_from_le_bytes, spec_u32_to_le_bytes,
    spec_u64_from_le_bytes, spec_u64_to_le_bytes, spec_u128_from_le_bytes,
    spec_u128_to_le_bytes,
};
use crate::errors::ProtocolError;
use crate::state::{
    EpochRecord, EpochRecordV, EpochStatus, GlobalState, GlobalStateV, MinerAccount,
    MinerAccountV, ObjectRecord, ObjectRecordV, ProofType, RewardInstruction,
    RewardInstructionV,
};
use crate::wire::{
    push_array32, push_i64_le, push_u32_le, push_u64_le, push_u128_le, read_array32,
    read_i64_le, read_u32_le, read_u64_le, read_u128_le, spec_i64_from_le_bytes,
    spec_i64_to_le_bytes,
};

verus! {

/// Encoded length of a `GlobalState`: three 32-byte keys and five 8-byte scalars.
pub const GLOBAL_STATE_LEN: usize = 136;

/// Encoded length of a `MinerAccount`.
pub const MINER_ACCOUNT_LEN: usize = 61;

/// Binary image of a global record.
pub open spec fn spec_encode_global(v: GlobalStateV) -> Seq<u8> {
    v.admin + v.reward_mint + v.reward_vault + spec_u64_to_le_bytes(v.total_minted)
        + spec_u64_to_le_bytes(v.emission_cap) + spec_u64_to_le_bytes(v.decay_numerator)
        + spec_u64_to_le_bytes(v.decay_denom) + spec_i64_to_le_bytes(v.last_decay_at)
}

/// The global record a byte string is the image of, if any.
pub open spec fn spec_decode_global(s: Seq<u8>) -> Option<GlobalStateV> {
    if s.len() == GLOBAL_STATE_LEN {
        Some(GlobalStateV {
            admin: s.subrange(0, 32),
            reward_mint: s.subrange(32, 64),
            reward_vault: s.subrange(64, 96),
            total_minted: spec_u64_from_le_bytes(s.subrange(96, 104)),
            emission_cap: spec_u64_from_le_bytes(s.subrange(104, 112)),
            decay_numerator: spec_u64_from_le_bytes(s.subrange(112, 120)),
            decay_denom: spec_u64_from_le_bytes(s.subrange(120, 128)),
            last_decay_at: spec_i64_from_le_bytes(s.subrange(128, 136)),
        })
    } else {
        None
    }
}

/// Decoding inverts encoding on every well-formed global record.
pub proof fn lemma_global_round_trip(v: GlobalStateV)
    requires
        v.wf(),
    ensures
        spec_decode_global(spec_encode_global(v)) == Some(v),
{
    lemma_auto_spec_u64_to_from_le_bytes();
    let s = spec_encode_global(v);
    assert(s.len() == GLOBAL_STATE_LEN);
    assert(s.subrange(0, 32) =~= v.admin);
    assert(s.subrange(32, 64) =~= v.reward_mint);
    assert(s.subrange(64, 96) =~= v.reward_vault);
    assert(s.subrange(96, 104) =~= spec_u64_to_le_bytes(v.total_minted));
    assert(s.subrange(104, 112) =~= spec_u64_to_le_bytes(v.emission_cap));
    assert(s.subrange(112, 120) =~= spec_u64_to_le_bytes(v.decay_numerator));
    assert(s.subrange(120, 128) =~= spec_u64_to_le_bytes(v.decay_denom));
    assert(s.subrange(128, 136) =~= spec_i64_to_le_bytes(v.last_decay_at));
}

/// Serialize a global record.
pub fn encode_global(g: &GlobalState) -> (out: Vec<u8>)
    ensures
        out@ == spec_encode_global(g@),
{
    let mut out: Vec<u8> = Vec::new();
    push_array32(&mut out, &g.admin);
    push_array32(&mut out, &g.reward_mint);
    push_array32(&mut out, &g.reward_vault);
    push_u64_le(&mut out, g.total_minted);
    push_u64_le(&mut out, g.emission_cap);
    push_u64_le(&mut out, g.decay_numerator);
    push_u64_le(&mut out, g.decay_denom);
    push_i64_le(&mut out, g.last_decay_at);
    out
}

/// Deserialize a global record; `None` exactly on malformed input.
pub fn decode_global(data: &[u8]) -> (r: Option<GlobalState>)
    ensures
        match r {
            Some(g) => spec_decode_global(data@) == Some(g@),
            None => spec_decode_global(data@) is None,
        },
{
    if data.len() != GLOBAL_STATE_LEN {
        return None;
    }
    let g = GlobalState {
        admin: read_array32(data, 0),
        reward_mint: read_array32(data, 32),
        reward_vault: read_array32(data, 64),
        total_minted: read_u64_le(data, 96),
        emission_cap: read_u64_le(data, 104),
        decay_numerator: read_u64_le(data, 112),
        decay_denom: read_u64_le(data, 120),
        last_decay_at: read_i64_le(data, 128),
    };
    Some(g)
}

/// Binary image of a miner ledger entry.
pub open spec fn spec_encode_miner(v: MinerAccountV) -> Seq<u8> {
    v.miner + spec_u64_to_le_bytes(v.stake) + spec_u64_to_le_bytes(v.pending_rewards)
        + spec_u32_to_le_bytes(v.reputation) + spec_i64_to_le_bytes(v.unstake_ts)
        + seq![v.bump]
}

/// The miner ledger entry a byte string is the image of, if any.
pub open spec fn spec_decode_miner(s: Seq<u8>) -> Option<MinerAccountV> {
    if s.len() == MINER_ACCOUNT_LEN {
        Some(MinerAccountV {
            miner: s.subrange(0, 32),
            stake: spec_u64_from_le_bytes(s.subrange(32, 40)),
            pending_rewards: spec_u64_from_le_bytes(s.subrange(40, 48)),
            reputation: spec_u32_from_le_bytes(s.subrange(48, 52)),
            unstake_ts: spec_i64_from_le_bytes(s.subrange(52, 60)),
            bump: s[60],
        })
    } else {
        None
    }
}

/// Decoding inverts encoding on every well-formed miner ledger entry.
pub proof fn lemma_miner_round_trip(v: MinerAccountV)
    requires
        v.wf(),
    ensures
        spec_decode_miner(spec_encode_miner(v)) == Some(v),
{
    lemma_auto_spec_u64_to_from_le_bytes();
    lemma_auto_spec_u32_to_from_le_bytes();
    let s = spec_encode_miner(v);
    assert(s.len() == MINER_ACCOUNT_LEN);
    assert(s.subrange(0, 32) =~= v.miner);
    assert(s.subrange(32, 40) =~= spec_u64_to_le_bytes(v.stake));
    assert(s.subrange(40, 48) =~= spec_u64_to_le_bytes(v.pending_rewards));
    assert(s.subrange(48, 52) =~= spec_u32_to_le_bytes(v.reputation));
    assert(s.subrange(52, 60) =~= spec_i64_to_le_bytes(v.unstake_ts));
    assert(s[60] == v.bump);
}

/// Serialize a miner ledger entry.
pub fn encode_miner(m: &MinerAccount) -> (out: Vec<u8>)
    ensures
        out@ == spec_encode_miner(m@),
{
    let mut out: Vec<u8> = Vec::new();
    push_array32(&mut out, &m.miner);
    push_u64_le(&mut out, m.stake);
    push_u64_le(&mut out, m.pending_rewards);
    push_u32_le(&mut out, m.reputation);
    push_i64_le(&mut out, m.unstake_ts);
    out.push(m.bump);
    proof {
        assert(out@ =~= spec_encode_miner(m@));
    }
    out
}

/// Deserialize a miner ledger entry; `None` exactly on malformed input.
pub fn decode_miner(data: &[u8]) -> (r: Option<MinerAccount>)
    ensures
        match r {
            Some(m) => spec_decode_miner(data@) == Some(m@),
            None => spec_decode_miner(data@) is None,
        },
{
    if data.len() != MINER_ACCOUNT_LEN {
        return None;
    }
    let m = MinerAccount {
        miner: read_array32(data, 0),
        stake: read_u64_le(data, 32),
        pending_rewards: read_u64_le(data, 40),
        reputation: read_u32_le(data, 48),
        unstake_ts: read_i64_le(data, 52),
        bump: data[60],
    };
    Some(m)
}

/// Tag-plus-payload image of a proof kind.
pub open spec fn spec_encode_proof_type(t: ProofType) -> Seq<u8> {
    match t {
        ProofType::CompactHash => seq![0u8],
        ProofType::Snark => seq![1u8],
        ProofType::Other(x) => seq![2u8, x],
    }
}

/// Binary image of an object descriptor.
pub open spec fn spec_encode_object(v: ObjectRecordV) -> Seq<u8> {
    v.owner + v.commitment + spec_encode_proof_type(v.proof_type)
        + spec_u64_to_le_bytes(v.size) + spec_i64_to_le_bytes(v.created_ts)
        + spec_u64_to_le_bytes(v.retention_epochs) + seq![v.bump]
}

/// The object descriptor a byte string is the image of, if any.
pub open spec fn spec_decode_object(s: Seq<u8>) -> Option<ObjectRecordV> {
    if s.len() < 65 {
        None
    } else if (s[64] == 0 || s[64] == 1) && s.len() == 90 {
        Some(ObjectRecordV {
            owner: s.subrange(0, 32),
            commitment: s.subrange(32, 64),
            proof_type: if s[64] == 0 { ProofType::CompactHash } else { ProofType::Snark },
            size: spec_u64_from_le_bytes(s.subrange(65, 73)),
            created_ts: spec_i64_from_le_bytes(s.subrange(73, 81)),
            retention_epochs: spec_u64_from_le_bytes(s.subrange(81, 89)),
            bump: s[89],
        })
    } else if s[64] == 2 && s.len() == 91 {
        Some(ObjectRecordV {
            owner: s.subrange(0, 32),
            commitment: s.subrange(32, 64),
            proof_type: ProofType::Other(s[65]),
            size: spec_u64_from_le_bytes(s.subrange(66, 74)),
            created_ts: spec_i64_from_le_bytes(s.subrange(74, 82)),
            retention_epochs: spec_u64_from_le_bytes(s.subrange(82, 90)),
            bump: s[90],
        })
    } else {
        None
    }
}

/// Decoding inverts encoding on every well-formed object descriptor.
pub proof fn lemma_object_round_trip(v: ObjectRecordV)
    requires
        v.wf(),
    ensures
        spec_decode_object(spec_encode_object(v)) == Some(v),
{
    lemma_auto_spec_u64_to_from_le_bytes();
    let s = spec_encode_object(v);
    match v.proof_type {
        ProofType::Other(x) => {
            assert(s.len() == 91);
            assert(s[64] == 2);
            assert(s[65] == x);
            assert(s.subrange(0, 32) =~= v.owner);
            assert(s.subrange(32, 64) =~= v.commitment);
            assert(s.subrange(66, 74) =~= spec_u64_to_le_bytes(v.size));
            assert(s.subrange(74, 82) =~= spec_i64_to_le_bytes(v.created_ts));
            assert(s.subrange(82, 90) =~= spec_u64_to_le_bytes(v.retention_epochs));
            assert(s[90] == v.bump);
        },
        _ => {
            assert(s.len() == 90);
            assert(s[64] == 0 || s[64] == 1);
            assert(s.subrange(0, 32) =~= v.owner);
            assert(s.subrange(32, 64) =~= v.commitment);
            assert(s.subrange(65, 73) =~= spec_u64_to_le_bytes(v.size));
            assert(s.subrange(73, 81) =~= spec_i64_to_le_bytes(v.created_ts));
            assert(s.subrange(81, 89) =~= spec_u64_to_le_bytes(v.retention_epochs));
            assert(s[89] == v.bump);
        },
    }
}

/// Serialize an object descriptor.
pub fn encode_object(o: &ObjectRecord) -> (out: Vec<u8>)
    ensures
        out@ == spec_encode_object(o@),
{
    let mut out: Vec<u8> = Vec::new();
    push_array32(&mut out, &o.owner);
    push_array32(&mut out, &o.commitment);
    match o.proof_type {
        ProofType::CompactHash => out.push(0),
        ProofType::Snark => out.push(1),
        ProofType::Other(x) => {
            out.push(2);
            out.push(x);
        },
    }
    push_u64_le(&mut out, o.size);
    push_i64_le(&mut out, o.created_ts);
    push_u64_le(&mut out, o.retention_epochs);
    out.push(o.bump);
    proof {
        assert(out@ =~= spec_encode_object(o@));
    }
    out
}

/// Deserialize an object descriptor; `None` exactly on malformed input.
pub fn decode_object(data: &[u8]) -> (r: Option<ObjectRecord>)
    ensures
        match r {
            Some(o) => spec_decode_object(data@) == Some(o@),
            None => spec_decode_object(data@) is None,
        },
{
    if data.len() < 65 {
        return None;
    }
    let tag = data[64];
    if tag <= 1 {
        if data.len() != 90 {
            return None;
        }
        let o = ObjectRecord {
            owner: read_array32(data, 0),
            commitment: read_array32(data, 32),
            proof_type: if tag == 0 { ProofType::CompactHash } else { ProofType::Snark },
            size: read_u64_le(data, 65),
            created_ts: read_i64_le(data, 73),
            retention_epochs: read_u64_le(data, 81),
            bump: data[89],
        };
        Some(o)
    } else if tag == 2 {
        if data.len() != 91 {
            return None;
        }
        let o = ObjectRecord {
            owner: read_array32(data, 0),
            commitment: read_array32(data, 32),
            proof_type: ProofType::Other(data[65]),
            size: read_u64_le(data, 66),
            created_ts: read_i64_le(data, 74),
            retention_epochs: read_u64_le(data, 82),
            bump: data[90],
        };
        Some(o)
    } else {
        None
    }
}

/// Tag byte of a lifecycle state.
pub open spec fn spec_status_byte(st: EpochStatus) -> u8 {
    match st {
        EpochStatus::Open => 0,
        EpochStatus::Submitted => 1,
        EpochStatus::Challenged => 2,
        EpochStatus::Finalized => 3,
    }
}

/// Lifecycle state behind a tag byte, if the byte is one.
pub open spec fn spec_status_from_byte(b: u8) -> Option<EpochStatus> {
    if b == 0 {
        Some(EpochStatus::Open)
    } else if b == 1 {
        Some(EpochStatus::Submitted)
    } else if b == 2 {
        Some(EpochStatus::Challenged)
    } else if b == 3 {
        Some(EpochStatus::Finalized)
    } else {
        None
    }
}

fn status_byte(st: EpochStatus) -> (b: u8)
    ensures
        b == spec_status_byte(st),
{
    match st {
        EpochStatus::Open => 0,
        EpochStatus::Submitted => 1,
        EpochStatus::Challenged => 2,
        EpochStatus::Finalized => 3,
    }
}

fn status_from_byte(b: u8) -> (r: Option<EpochStatus>)
    ensures
        r == spec_status_from_byte(b),
{
    if b == 0 {
        Some(EpochStatus::Open)
    } else if b == 1 {
        Some(EpochStatus::Submitted)
    } else if b == 2 {
        Some(EpochStatus::Challenged)
    } else if b == 3 {
        Some(EpochStatus::Finalized)
    } else {
        None
    }
}

/// Tag-plus-payload image of an optional 32-byte key.
pub open spec fn spec_encode_opt_key(o: Option<Seq<u8>>) -> Seq<u8> {
    match o {
        None => seq![0u8],
        Some(k) => seq![1u8] + k,
    }
}

/// Binary image of an epoch record.
pub open spec fn spec_encode_epoch(v: EpochRecordV) -> Seq<u8> {
    spec_u128_to_le_bytes(v.object_id) + spec_u128_to_le_bytes(v.epoch_id)
        + spec_u64_to_le_bytes(v.nonce) + spec_i64_to_le_bytes(v.deadline_ts)
        + spec_encode_opt_key(v.solver) + v.proof_hash + seq![spec_status_byte(v.status)]
        + spec_u64_to_le_bytes(v.reward) + seq![v.bump]
}

/// The epoch record a byte string is the image of, if any.
pub open spec fn spec_decode_epoch(s: Seq<u8>) -> Option<EpochRecordV> {
    if s.len() < 49 {
        None
    } else if s[48] == 0 && s.len() == 91 {
        match spec_status_from_byte(s[81]) {
            None => None,
            Some(status) => Some(EpochRecordV {
                object_id: spec_u128_from_le_bytes(s.subrange(0, 16)),
                epoch_id: spec_u128_from_le_bytes(s.subrange(16, 32)),
                nonce: spec_u64_from_le_bytes(s.subrange(32, 40)),
                deadline_ts: spec_i64_from_le_bytes(s.subrange(40, 48)),
                solver: None,
                proof_hash: s.subrange(49, 81),
                status,
                reward: spec_u64_from_le_bytes(s.subrange(82, 90)),
                bump: s[90],
            }),
        }
    } else if s[48] == 1 && s.len() == 123 {
        match spec_status_from_byte(s[113]) {
            None => None,
            Some(status) => Some(EpochRecordV {
                object_id: spec_u128_from_le_bytes(s.subrange(0, 16)),
                epoch_id: spec_u128_from_le_bytes(s.subrange(16, 32)),
                nonce: spec_u64_from_le_bytes(s.subrange(32, 40)),
                deadline_ts: spec_i64_from_le_bytes(s.subrange(40, 48)),
                solver: Some(s.subrange(49, 81)),
                proof_hash: s.subrange(81, 113),
                status,
                reward: spec_u64_from_le_bytes(s.subrange(114, 122)),
                bump: s[122],
            }),
        }
    } else {
        None
    }
}

/// Decoding inverts encoding on every well-formed epoch record.
pub proof fn lemma_epoch_round_trip(v: EpochRecordV)
    requires
        v.wf(),
    ensures
        spec_decode_epoch(spec_encode_epoch(v)) == Some(v),
{
    lemma_auto_spec_u64_to_from_le_bytes();
    lemma_auto_spec_u128_to_from_le_bytes();
    let s = spec_encode_epoch(v);
    match v.solver {
        None => {
            assert(s.len() == 91);
            assert(s[48] == 0);
            assert(s[81] == spec_status_byte(v.status));
            assert(spec_status_from_byte(spec_status_byte(v.status)) == Some(v.status));
            assert(s.subrange(0, 16) =~= spec_u128_to_le_bytes(v.object_id));
            assert(s.subrange(16, 32) =~= spec_u128_to_le_bytes(v.epoch_id));
            assert(s.subrange(32, 40) =~= spec_u64_to_le_bytes(v.nonce));
            assert(s.subrange(40, 48) =~= spec_i64_to_le_bytes(v.deadline_ts));
            assert(s.subrange(49, 81) =~= v.proof_hash);
            assert(s.subrange(82, 90) =~= spec_u64_to_le_bytes(v.reward));
            assert(s[90] == v.bump);
        },
        Some(k) => {
            assert(s.len() == 123);
            assert(s[48] == 1);
            assert(s[113] == spec_status_byte(v.status));
            assert(spec_status_from_byte(spec_status_byte(v.status)) == Some(v.status));
            assert(s.subrange(0, 16) =~= spec_u128_to_le_bytes(v.object_id));
            assert(s.subrange(16, 32) =~= spec_u128_to_le_bytes(v.epoch_id));
            assert(s.subrange(32, 40) =~= spec_u64_to_le_bytes(v.nonce));
            assert(s.subrange(40, 48) =~= spec_i64_to_le_bytes(v.deadline_ts));
            assert(s.subrange(49, 81) =~= k);
            assert(s.subrange(81, 113) =~= v.proof_hash);
            assert(s.subrange(114, 122) =~= spec_u64_to_le_bytes(v.reward));
            assert(s[122] == v.bump);
        },
    }
}

/// Serialize an epoch record.
pub fn encode_epoch(e: &EpochRecord) -> (out: Vec<u8>)
    ensures
        out@ == spec_encode_epoch(e@),
{
    let mut out: Vec<u8> = Vec::new();
    push_u128_le(&mut out, e.object_id);
    push_u128_le(&mut out, e.epoch_id);
    push_u64_le(&mut out, e.nonce);
    push_i64_le(&mut out, e.deadline_ts);
    match &e.solver {
        None => out.push(0),
        Some(k) => {
            out.push(1);
            push_array32(&mut out, k);
        },
    }
    push_array32(&mut out, &e.proof_hash);
    out.push(status_byte(e.status));
    push_u64_le(&mut out, e.reward);
    out.push(e.bump);
    proof {
        assert(out@ =~= spec_encode_epoch(e@));
    }
    out
}

/// Deserialize an epoch record; `None` exactly on malformed input.
pub fn decode_epoch(data: &[u8]) -> (r: Option<EpochRecord>)
    ensures
        match r {
            Some(e) => spec_decode_epoch(data@) == Some(e@),
            None => spec_decode_epoch(data@) is None,
        },
{
    if data.len() < 49 {
        return None;
    }
    let tag = data[48];
    if tag == 0 {
        if data.len() != 91 {
            return None;
        }
        match status_from_byte(data[81]) {
            None => None,
            Some(status) => {
                let e = EpochRecord {
                    object_id: read_u128_le(data, 0),
                    epoch_id: read_u128_le(data, 16),
                    nonce: read_u64_le(data, 32),
                    deadline_ts: read_i64_le(data, 40),
                    solver: None,
                    proof_hash: read_array32(data, 49),
                    status,
                    reward: read_u64_le(data, 82),
                    bump: data[90],
                };
                Some(e)
            },
        }
    } else if tag == 1 {
        if data.len() != 123 {
            return None;
        }
        match status_from_byte(data[113]) {
            None => None,
            Some(status) => {
                let e = EpochRecord {
                    object_id: read_u128_le(data, 0),
                    epoch_id: read_u128_le(data, 16),
                    nonce: read_u64_le(data, 32),
                    deadline_ts: read_i64_le(data, 40),
                    solver: Some(read_array32(data, 49)),
                    proof_hash: read_array32(data, 81),
                    status,
                    reward: read_u64_le(data, 114),
                    bump: data[122],
                };
                Some(e)
            },
        }
    } else {
        None
    }
}

/// The instruction a payload is the image of, if any: one tag byte, then
/// the payload fields of that instruction, nothing more.
pub open spec fn spec_decode_instruction(s: Seq<u8>) -> Option<RewardInstructionV> {
    if s.len() < 1 {
        None
    } else if s[0] == 0 && s.len() == 25 {
        Some(RewardInstructionV::Initialize {
            decay_numerator: spec_u64_from_le_bytes(s.subrange(1, 9)),
            decay_denom: spec_u64_from_le_bytes(s.subrange(9, 17)),
            emission_cap: spec_u64_from_le_bytes(s.subrange(17, 25)),
        })
    } else if s[0] == 1 && s.len() == 66 {
        Some(RewardInstructionV::RegisterObject {
            commitment: s.subrange(1, 33),
            proof_type: s[33],
            size: spec_u64_from_le_bytes(s.subrange(34, 42)),
            retention_epochs: spec_u64_from_le_bytes(s.subrange(42, 50)),
            object_id: spec_u128_from_le_bytes(s.subrange(50, 66)),
        })
    } else if s[0] == 2 && s.len() == 41 {
        Some(RewardInstructionV::CreateEpoch {
            object_id: spec_u128_from_le_bytes(s.subrange(1, 17)),
            nonce: spec_u64_from_le_bytes(s.subrange(17, 25)),
            epoch_id: spec_u128_from_le_bytes(s.subrange(25, 41)),
        })
    } else if s[0] == 3 && s.len() == 49 {
        Some(RewardInstructionV::SubmitProof {
            epoch_id: spec_u128_from_le_bytes(s.subrange(1, 17)),
            proof_hash: s.subrange(17, 49),
        })
    } else if s[0] == 4 && s.len() == 49 {
        Some(RewardInstructionV::ChallengeProof {
            epoch_id: spec_u128_from_le_bytes(s.subrange(1, 17)),
            evidence_hash: s.subrange(17, 49),
        })
    } else if s[0] == 5 && s.len() == 17 {
        Some(RewardInstructionV::FinalizeEpoch {
            epoch_id: spec_u128_from_le_bytes(s.subrange(1, 17)),
        })
    } else if s[0] == 6 && s.len() == 9 {
        Some(RewardInstructionV::Stake {
            amount: spec_u64_from_le_bytes(s.subrange(1, 9)),
        })
    } else if s[0] == 7 && s.len() == 9 {
        Some(RewardInstructionV::Unstake {
            amount: spec_u64_from_le_bytes(s.subrange(1, 9)),
        })
    } else if s[0] == 8 && s.len() == 41 {
        Some(RewardInstructionV::Slash {
            miner: s.subrange(1, 33),
            amount: spec_u64_from_le_bytes(s.subrange(33, 41)),
        })
    } else if s[0] == 9 && s.len() == 1 {
        Some(RewardInstructionV::ClaimRewards)
    } else {
        None
    }
}

/// Decode an incoming instruction payload; the dispatcher's first step.
pub fn parse_instruction(data: &[u8]) -> (r: Result<RewardInstruction, ProtocolError>)
    ensures
        match spec_decode_instruction(data@) {
            Some(i) => r matches Ok(x) && x@ == i,
            None => r == Err::<RewardInstruction, ProtocolError>(ProtocolError::CodecError),
        },
{
    if data.len() < 1 {
        return Err(ProtocolError::CodecError);
    }
    let tag = data[0];
    if tag == 0 && data.len() == 25 {
        Ok(RewardInstruction::Initialize {
            decay_numerator: read_u64_le(data, 1),
            decay_denom: read_u64_le(data, 9),
            emission_cap: read_u64_le(data, 17),
        })
    } else if tag == 1 && data.len() == 66 {
        Ok(RewardInstruction::RegisterObject {
            commitment: read_array32(data, 1),
            proof_type: data[33],
            size: read_u64_le(data, 34),
            retention_epochs: read_u64_le(data, 42),
            object_id: read_u128_le(data, 50),
        })
    } else if tag == 2 && data.len() == 41 {
        Ok(RewardInstruction::CreateEpoch {
            object_id: read_u128_le(data, 1),
            nonce: read_u64_le(data, 17),
            epoch_id: read_u128_le(data, 25),
        })
    } else if tag == 3 && data.len() == 49 {
        Ok(RewardInstruction::SubmitProof {
            epoch_id: read_u128_le(data, 1),
            proof_hash: read_array32(data, 17),
        })
    } else if tag == 4 && data.len() == 49 {
        Ok(RewardInstruction::ChallengeProof {
            epoch_id: read_u128_le(data, 1),
            evidence_hash: read_array32(data, 17),
        })
    } else if tag == 5 && data.len() == 17 {
        Ok(RewardInstruction::FinalizeEpoch { epoch_id: read_u128_le(data, 1) })
    } else if tag == 6 && data.len() == 9 {
        Ok(RewardInstruction::Stake { amount: read_u64_le(data, 1) })
    } else if tag == 7 && data.len() == 9 {
        Ok(RewardInstruction::Unstake { amount: read_u64_le(data, 1) })
    } else if tag == 8 && data.len() == 41 {
        Ok(RewardInstruction::Slash {
            miner: read_array32(data, 1),
            amount: read_u64_le(data, 33),
        })
    } else if tag == 9 && data.len() == 1 {
        Ok(RewardInstruction::ClaimRewards)
    } else {
        Err(ProtocolError::CodecError)
    }
}

} // verus!
