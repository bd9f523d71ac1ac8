//! Record codec: round trips, agreement with the ecosystem serializer, and
//! rejection of malformed input.

use storage_mining::codec::{
    decode_epoch, decode_global, decode_miner, decode_object, encode_epoch, encode_global,
    encode_miner, encode_object, parse_instruction,
};
use storage_mining::errors::ProtocolError;
use storage_mining::state::{
    EpochRecord, EpochStatus, GlobalState, MinerAccount, ObjectRecord, ProofType,
    RewardInstruction,
};

fn sample_global() -> GlobalState {
    GlobalState {
        admin: [1u8; 32],
        reward_mint: [2u8; 32],
        reward_vault: [3u8; 32],
        total_minted: 123_456,
        emission_cap: 7_000_000,
        decay_numerator: 15,
        decay_denom: 100,
        last_decay_at: -17,
    }
}

fn sample_object() -> ObjectRecord {
    ObjectRecord {
        owner: [4u8; 32],
        commitment: [7u8; 32],
        proof_type: ProofType::CompactHash,
        size: 1234,
        created_ts: 99,
        retention_epochs: 10,
        bump: 251,
    }
}

fn sample_epoch(solver: Option<[u8; 32]>, status: EpochStatus) -> EpochRecord {
    EpochRecord {
        object_id: 42,
        epoch_id: 1001,
        nonce: 9,
        deadline_ts: 120,
        solver,
        proof_hash: [9u8; 32],
        status,
        reward: 1_000_000,
        bump: 255,
    }
}

fn sample_miner() -> MinerAccount {
    MinerAccount {
        miner: [5u8; 32],
        stake: 500,
        pending_rewards: 1_000_000,
        reputation: 42,
        unstake_ts: 3600,
        bump: 250,
    }
}

#[test]
fn global_round_trip_is_bit_identical() {
    let g = sample_global();
    let bytes = encode_global(&g);
    assert_eq!(decode_global(&bytes), Some(g));
}

#[test]
fn object_round_trip_is_bit_identical() {
    for proof_type in [ProofType::CompactHash, ProofType::Snark, ProofType::Other(9)] {
        let o = ObjectRecord { proof_type, ..sample_object() };
        let bytes = encode_object(&o);
        assert_eq!(decode_object(&bytes), Some(o));
    }
}

#[test]
fn epoch_round_trip_is_bit_identical() {
    for solver in [None, Some([8u8; 32])] {
        for status in [
            EpochStatus::Open,
            EpochStatus::Submitted,
            EpochStatus::Challenged,
            EpochStatus::Finalized,
        ] {
            let e = sample_epoch(solver, status);
            let bytes = encode_epoch(&e);
            assert_eq!(decode_epoch(&bytes), Some(e));
        }
    }
}

#[test]
fn miner_round_trip_is_bit_identical() {
    let m = sample_miner();
    let bytes = encode_miner(&m);
    assert_eq!(decode_miner(&bytes), Some(m));
}

#[test]
fn global_layout_agrees_with_borsh() {
    let g = sample_global();
    let expected = borsh::to_vec(&(
        g.admin,
        g.reward_mint,
        g.reward_vault,
        g.total_minted,
        g.emission_cap,
        g.decay_numerator,
        g.decay_denom,
        g.last_decay_at,
    ))
    .unwrap();
    assert_eq!(encode_global(&g), expected);
}

#[test]
fn object_layout_agrees_with_borsh() {
    let o = sample_object();
    let expected = borsh::to_vec(&(
        o.owner,
        o.commitment,
        0u8,
        o.size,
        o.created_ts,
        o.retention_epochs,
        o.bump,
    ))
    .unwrap();
    assert_eq!(encode_object(&o), expected);

    let o2 = ObjectRecord { proof_type: ProofType::Other(77), ..o };
    let expected2 = borsh::to_vec(&(
        o2.owner,
        o2.commitment,
        (2u8, 77u8),
        o2.size,
        o2.created_ts,
        o2.retention_epochs,
        o2.bump,
    ))
    .unwrap();
    assert_eq!(encode_object(&o2), expected2);
}

#[test]
fn epoch_layout_agrees_with_borsh() {
    let e = sample_epoch(Some([8u8; 32]), EpochStatus::Submitted);
    let expected = borsh::to_vec(&(
        e.object_id,
        e.epoch_id,
        e.nonce,
        e.deadline_ts,
        e.solver,
        e.proof_hash,
        1u8,
        e.reward,
        e.bump,
    ))
    .unwrap();
    assert_eq!(encode_epoch(&e), expected);
}

#[test]
fn miner_layout_agrees_with_borsh() {
    let m = sample_miner();
    let expected = borsh::to_vec(&(
        m.miner,
        m.stake,
        m.pending_rewards,
        m.reputation,
        m.unstake_ts,
        m.bump,
    ))
    .unwrap();
    assert_eq!(encode_miner(&m), expected);
}

#[test]
fn negative_timestamp_encodes_as_twos_complement() {
    let g = GlobalState { last_decay_at: -1, ..sample_global() };
    let bytes = encode_global(&g);
    assert_eq!(&bytes[128..136], &[0xFF; 8]);
    assert_eq!(decode_global(&bytes), Some(g));
}

#[test]
fn malformed_records_are_rejected() {
    let g = sample_global();
    let mut bytes = encode_global(&g);
    bytes.push(0);
    assert_eq!(decode_global(&bytes), None);
    assert_eq!(decode_global(&bytes[..135]), None);
    assert_eq!(decode_global(&[]), None);

    let e = sample_epoch(None, EpochStatus::Open);
    let mut ebytes = encode_epoch(&e);
    ebytes[81] = 4; // not a lifecycle state
    assert_eq!(decode_epoch(&ebytes), None);
    ebytes[81] = 0;
    ebytes[48] = 2; // not an option tag
    assert_eq!(decode_epoch(&ebytes), None);

    let o = sample_object();
    let mut obytes = encode_object(&o);
    obytes[64] = 3; // not a proof kind
    assert_eq!(decode_object(&obytes), None);

    let m = sample_miner();
    let mbytes = encode_miner(&m);
    assert_eq!(decode_miner(&mbytes[..60]), None);
}

#[test]
fn parse_instruction_decodes_every_variant() {
    let cases: Vec<(Vec<u8>, RewardInstruction)> = vec![
        (
            borsh::to_vec(&(0u8, 15u64, 100u64, 7_000_000u64)).unwrap(),
            RewardInstruction::Initialize {
                decay_numerator: 15,
                decay_denom: 100,
                emission_cap: 7_000_000,
            },
        ),
        (
            borsh::to_vec(&(1u8, [7u8; 32], 0u8, 1234u64, 10u64, 42u128)).unwrap(),
            RewardInstruction::RegisterObject {
                commitment: [7u8; 32],
                proof_type: 0,
                size: 1234,
                retention_epochs: 10,
                object_id: 42,
            },
        ),
        (
            borsh::to_vec(&(2u8, 42u128, 9u64, 1001u128)).unwrap(),
            RewardInstruction::CreateEpoch { object_id: 42, nonce: 9, epoch_id: 1001 },
        ),
        (
            borsh::to_vec(&(3u8, 1001u128, [9u8; 32])).unwrap(),
            RewardInstruction::SubmitProof { epoch_id: 1001, proof_hash: [9u8; 32] },
        ),
        (
            borsh::to_vec(&(4u8, 1001u128, [6u8; 32])).unwrap(),
            RewardInstruction::ChallengeProof { epoch_id: 1001, evidence_hash: [6u8; 32] },
        ),
        (
            borsh::to_vec(&(5u8, 1001u128)).unwrap(),
            RewardInstruction::FinalizeEpoch { epoch_id: 1001 },
        ),
        (
            borsh::to_vec(&(6u8, 500u64)).unwrap(),
            RewardInstruction::Stake { amount: 500 },
        ),
        (
            borsh::to_vec(&(7u8, 200u64)).unwrap(),
            RewardInstruction::Unstake { amount: 200 },
        ),
        (
            borsh::to_vec(&(8u8, [5u8; 32], 50u64)).unwrap(),
            RewardInstruction::Slash { miner: [5u8; 32], amount: 50 },
        ),
        (vec![9u8], RewardInstruction::ClaimRewards),
    ];
    for (bytes, expected) in cases {
        assert_eq!(parse_instruction(&bytes), Ok(expected));
    }
}

#[test]
fn parse_instruction_rejects_malformed_payloads() {
    assert_eq!(parse_instruction(&[]), Err(ProtocolError::CodecError));
    assert_eq!(parse_instruction(&[10u8]), Err(ProtocolError::CodecError));
    // right tag, wrong payload length
    assert_eq!(parse_instruction(&[6u8, 1, 2, 3]), Err(ProtocolError::CodecError));
    let mut stake = borsh::to_vec(&(6u8, 500u64)).unwrap();
    stake.push(0);
    assert_eq!(parse_instruction(&stake), Err(ProtocolError::CodecError));
}
