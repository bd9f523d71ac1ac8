//! The epoch state machine, the miner ledger and the emission controller,
//! exercised end to end on concrete values.

use storage_mining::actions::{Event, TransferAuthority};
use storage_mining::codec::encode_object;
use storage_mining::errors::ProtocolError;
use storage_mining::instructions::challenge_proof::challenge_proof;
use storage_mining::instructions::claim_reward::{claim_reward, claim_reward_apply};
use storage_mining::instructions::create_epoch::create_epoch;
use storage_mining::instructions::finalize_epoch::{finalize_epoch, finalize_epoch_apply};
use storage_mining::instructions::initialise::initialize;
use storage_mining::instructions::register_object::register_object;
use storage_mining::instructions::slash_miner::slash_miner;
use storage_mining::instructions::stake_tokens::{stake_tokens, stake_tokens_apply};
use storage_mining::instructions::submit_proof::submit_proof;
use storage_mining::instructions::unstake_tokens::{unstake_tokens, unstake_tokens_apply};
use storage_mining::pda::{epoch_pda, global_pda, miner_pda, object_pda};
use storage_mining::state::{
    EpochRecord, EpochStatus, GlobalState, MinerAccount, ObjectRecord, ProofType,
};

const PROGRAM_ID: [u8; 32] = [11u8; 32];
const ADMIN: [u8; 32] = [1u8; 32];
const OWNER: [u8; 32] = [4u8; 32];
const MINER: [u8; 32] = [5u8; 32];
const MINT: [u8; 32] = [2u8; 32];
const VAULT: [u8; 32] = [3u8; 32];
const MINER_TOKENS: [u8; 32] = [6u8; 32];

fn fresh_global() -> GlobalState {
    let (global_key, _) = global_pda(&PROGRAM_ID).unwrap();
    let (g, _mint_init, _event) = initialize(
        &PROGRAM_ID, &ADMIN, true, &global_key, &MINT, &VAULT, 15, 100, 7_000_000, 1_000,
    )
    .unwrap();
    g
}

fn registered_object_bytes() -> Vec<u8> {
    let (object_key, _) = object_pda(&PROGRAM_ID, &OWNER, 42).unwrap();
    let (o, _) = register_object(
        &PROGRAM_ID, &OWNER, true, &object_key, &[7u8; 32], 0, 1234, 10, 42, 1_000,
    )
    .unwrap();
    encode_object(&o)
}

fn fresh_epoch(now: i64) -> EpochRecord {
    let (epoch_key, _) = epoch_pda(&PROGRAM_ID, 42, 1001).unwrap();
    let (e, _) = create_epoch(
        &PROGRAM_ID, true, &registered_object_bytes(), &epoch_key, 42, 9, 1001, now,
    )
    .unwrap();
    e
}

fn fresh_miner() -> MinerAccount {
    MinerAccount {
        miner: MINER,
        stake: 0,
        pending_rewards: 0,
        reputation: 42,
        unstake_ts: 0,
        bump: 254,
    }
}

fn miner_account_key() -> [u8; 32] {
    miner_pda(&PROGRAM_ID, &MINER).unwrap().0
}

fn submit_ok(
    epoch: &mut EpochRecord,
    miner_acc: &mut MinerAccount,
    global: &mut GlobalState,
    now: i64,
) -> Result<Event, ProtocolError> {
    submit_proof(
        &PROGRAM_ID,
        &MINER,
        true,
        &miner_account_key(),
        epoch,
        miner_acc,
        global,
        1001,
        &[9u8; 32],
        now,
    )
}

#[test]
fn create_epoch_on_fresh_object_opens_with_fixed_reward() {
    let e = fresh_epoch(1_000);
    assert_eq!(e.status, EpochStatus::Open);
    assert_eq!(e.solver, None);
    assert_eq!(e.reward, 1_000_000);
    assert_eq!(e.object_id, 42);
    assert_eq!(e.epoch_id, 1001);
    assert_eq!(e.nonce, 9);
    assert_eq!(e.deadline_ts, 1_120);
    assert_eq!(e.proof_hash, [0u8; 32]);
}

#[test]
fn late_submission_challenges_the_epoch() {
    let mut e = fresh_epoch(1_000);
    let mut m = fresh_miner();
    let mut g = fresh_global();
    let r = submit_ok(&mut e, &mut m, &mut g, 1_121);
    assert_eq!(r, Err(ProtocolError::DeadlineExceeded));
    assert_eq!(e.status, EpochStatus::Challenged);
    assert_ne!(e.status, EpochStatus::Submitted);
    assert_eq!(m.pending_rewards, 0);
    assert_eq!(g.total_minted, 0);
}

#[test]
fn submission_on_the_deadline_is_on_time() {
    let mut e = fresh_epoch(1_000);
    let mut m = fresh_miner();
    let mut g = fresh_global();
    let r = submit_ok(&mut e, &mut m, &mut g, 1_120);
    assert_eq!(r, Ok(Event::EpochSubmitted { epoch_id: 1001 }));
    assert_eq!(e.status, EpochStatus::Submitted);
    assert_eq!(e.solver, Some(MINER));
    assert_eq!(e.proof_hash, [9u8; 32]);
}

#[test]
fn submit_then_finalize_pays_exactly_the_reward_once() {
    let mut e = fresh_epoch(1_000);
    let mut m = fresh_miner();
    let mut g = fresh_global();
    submit_ok(&mut e, &mut m, &mut g, 1_010).unwrap();
    assert_eq!(m.pending_rewards, 1_000_000);
    assert_eq!(g.total_minted, 1_000_000);
    assert_eq!(g.emission_cap, 6_000_000);

    let (global_key, global_bump) = global_pda(&PROGRAM_ID).unwrap();
    let action =
        finalize_epoch(&PROGRAM_ID, true, &e, &global_key, &VAULT, &MINER_TOKENS, 1001).unwrap();
    assert_eq!(action.from, VAULT);
    assert_eq!(action.to, MINER_TOKENS);
    assert_eq!(action.amount, 1_000_000);
    assert_eq!(
        action.authority,
        TransferAuthority::GlobalDerived { address: global_key, bump: global_bump }
    );
    let ev = finalize_epoch_apply(&mut e);
    assert_eq!(ev, Event::EpochFinalized { epoch_id: 1001, amount: 1_000_000 });
    assert_eq!(e.status, EpochStatus::Finalized);

    let second =
        finalize_epoch(&PROGRAM_ID, true, &e, &global_key, &VAULT, &MINER_TOKENS, 1001);
    assert_eq!(second, Err(ProtocolError::StateError));
}

#[test]
fn finalize_refuses_open_and_challenged_epochs() {
    let (global_key, _) = global_pda(&PROGRAM_ID).unwrap();
    let open = fresh_epoch(1_000);
    assert_eq!(
        finalize_epoch(&PROGRAM_ID, true, &open, &global_key, &VAULT, &MINER_TOKENS, 1001),
        Err(ProtocolError::StateError)
    );
    let challenged = EpochRecord { status: EpochStatus::Challenged, ..open };
    assert_eq!(
        finalize_epoch(&PROGRAM_ID, true, &challenged, &global_key, &VAULT, &MINER_TOKENS, 1001),
        Err(ProtocolError::UnderDispute)
    );
}

#[test]
fn challenge_disputes_a_submitted_proof_and_dents_reputation() {
    let mut e = fresh_epoch(1_000);
    let mut m = fresh_miner();
    let mut g = fresh_global();
    submit_ok(&mut e, &mut m, &mut g, 1_010).unwrap();
    let r = challenge_proof(true, &mut e, &mut m, 1001, &[6u8; 32]);
    assert_eq!(
        r,
        Ok(Event::EpochChallenged { epoch_id: 1001, evidence_hash: [6u8; 32] })
    );
    assert_eq!(e.status, EpochStatus::Challenged);
    assert_eq!(m.reputation, 41);
}

#[test]
fn challenge_needs_a_submitted_epoch() {
    let mut e = fresh_epoch(1_000);
    let mut m = fresh_miner();
    let r = challenge_proof(true, &mut e, &mut m, 1001, &[6u8; 32]);
    assert_eq!(r, Err(ProtocolError::StateError));
    assert_eq!(e.status, EpochStatus::Open);
    assert_eq!(m.reputation, 42);
}

#[test]
fn challenge_at_zero_reputation_saturates() {
    let mut e = EpochRecord { status: EpochStatus::Submitted, ..fresh_epoch(1_000) };
    let mut m = MinerAccount { reputation: 0, ..fresh_miner() };
    challenge_proof(true, &mut e, &mut m, 1001, &[6u8; 32]).unwrap();
    assert_eq!(m.reputation, 0);
}

#[test]
fn submission_credits_rewards_even_when_the_budget_is_spent() {
    // The recorded asymmetry: the reward is still credited while the debit
    // is skipped whenever the remaining budget cannot cover it.
    let mut e = fresh_epoch(1_000);
    let mut m = fresh_miner();
    let mut g = GlobalState { emission_cap: 999_999, ..fresh_global() };
    submit_ok(&mut e, &mut m, &mut g, 1_010).unwrap();
    assert_eq!(m.pending_rewards, 1_000_000);
    assert_eq!(g.emission_cap, 999_999);
    assert_eq!(g.total_minted, 0);
}

#[test]
fn pending_rewards_saturate_at_the_top() {
    let mut e = fresh_epoch(1_000);
    let mut m = MinerAccount { pending_rewards: u64::MAX - 1, ..fresh_miner() };
    let mut g = fresh_global();
    submit_ok(&mut e, &mut m, &mut g, 1_010).unwrap();
    assert_eq!(m.pending_rewards, u64::MAX);
}

#[test]
fn submit_needs_matching_epoch_and_open_state() {
    let mut e = fresh_epoch(1_000);
    let mut m = fresh_miner();
    let mut g = fresh_global();
    let wrong_id = submit_proof(
        &PROGRAM_ID,
        &MINER,
        true,
        &miner_account_key(),
        &mut e,
        &mut m,
        &mut g,
        1002,
        &[9u8; 32],
        1_010,
    );
    assert_eq!(wrong_id, Err(ProtocolError::StateError));
    assert_eq!(e.status, EpochStatus::Open);

    submit_ok(&mut e, &mut m, &mut g, 1_010).unwrap();
    let again = submit_ok(&mut e, &mut m, &mut g, 1_011);
    assert_eq!(again, Err(ProtocolError::StateError));
    assert_eq!(m.pending_rewards, 1_000_000);
}

#[test]
fn submit_checks_the_miner_address_before_any_write() {
    let mut e = fresh_epoch(1_000);
    let mut m = fresh_miner();
    let mut g = fresh_global();
    let r = submit_proof(
        &PROGRAM_ID,
        &MINER,
        true,
        &[13u8; 32],
        &mut e,
        &mut m,
        &mut g,
        1001,
        &[9u8; 32],
        1_010,
    );
    assert_eq!(r, Err(ProtocolError::AddressMismatch));
    assert_eq!(e.status, EpochStatus::Open);
    assert_eq!(e.solver, None);
    assert_eq!(m.pending_rewards, 0);
}

#[test]
fn stake_then_immediate_unstake_hits_the_cooldown() {
    let (global_key, _) = global_pda(&PROGRAM_ID).unwrap();
    let mut m = fresh_miner();
    let now: i64 = 10_000;

    let action = stake_tokens(&MINER, true, &MINER_TOKENS, &VAULT, 500).unwrap();
    assert_eq!(action.from, MINER_TOKENS);
    assert_eq!(action.to, VAULT);
    assert_eq!(action.amount, 500);
    assert_eq!(action.authority, TransferAuthority::Wallet(MINER));
    let ev = stake_tokens_apply(&mut m, 500, now);
    assert_eq!(ev, Event::Staked { miner: MINER, amount: 500 });
    assert_eq!(m.stake, 500);
    assert_eq!(m.unstake_ts, now + 3600);

    let early = unstake_tokens(
        &PROGRAM_ID, true, &m, &global_key, &VAULT, &MINER_TOKENS, 500, now,
    );
    assert_eq!(early, Err(ProtocolError::CooldownActive));
    assert_eq!(m.stake, 500);

    let later = now + 3601;
    let action = unstake_tokens(
        &PROGRAM_ID, true, &m, &global_key, &VAULT, &MINER_TOKENS, 500, later,
    )
    .unwrap();
    assert_eq!(action.amount, 500);
    assert_eq!(action.from, VAULT);
    let ev = unstake_tokens_apply(&mut m, 500);
    assert_eq!(ev, Event::Unstaked { miner: MINER, amount: 500 });
    assert_eq!(m.stake, 0);
}

#[test]
fn unstake_wants_funds_it_can_cover() {
    let (global_key, _) = global_pda(&PROGRAM_ID).unwrap();
    let m = MinerAccount { stake: 100, unstake_ts: 0, ..fresh_miner() };
    let r = unstake_tokens(
        &PROGRAM_ID, true, &m, &global_key, &VAULT, &MINER_TOKENS, 101, 50,
    );
    assert_eq!(r, Err(ProtocolError::InsufficientFunds));
}

#[test]
fn cooldown_wins_over_insufficient_funds() {
    let (global_key, _) = global_pda(&PROGRAM_ID).unwrap();
    let m = MinerAccount { stake: 100, unstake_ts: 100, ..fresh_miner() };
    let r = unstake_tokens(
        &PROGRAM_ID, true, &m, &global_key, &VAULT, &MINER_TOKENS, 101, 50,
    );
    assert_eq!(r, Err(ProtocolError::CooldownActive));
}

#[test]
fn every_stake_resets_the_cooldown() {
    let mut m = fresh_miner();
    stake_tokens_apply(&mut m, 100, 10_000);
    assert_eq!(m.unstake_ts, 13_600);
    stake_tokens_apply(&mut m, 100, 10_001);
    assert_eq!(m.unstake_ts, 13_601);
    assert_eq!(m.stake, 200);
}

#[test]
fn claim_pays_the_whole_accrual_then_zeroes_it() {
    let (global_key, global_bump) = global_pda(&PROGRAM_ID).unwrap();
    let mut m = MinerAccount { pending_rewards: 1_000_000, ..fresh_miner() };
    let action = claim_reward(
        &PROGRAM_ID, true, &m, &global_key, &VAULT, &MINER_TOKENS,
    )
    .unwrap();
    assert_eq!(action.amount, 1_000_000);
    assert_eq!(action.from, VAULT);
    assert_eq!(action.to, MINER_TOKENS);
    assert_eq!(
        action.authority,
        TransferAuthority::GlobalDerived { address: global_key, bump: global_bump }
    );
    let ev = claim_reward_apply(&mut m);
    assert_eq!(ev, Event::RewardClaimed { miner: MINER, amount: 1_000_000 });
    assert_eq!(m.pending_rewards, 0);

    let empty = claim_reward(&PROGRAM_ID, true, &m, &global_key, &VAULT, &MINER_TOKENS);
    assert_eq!(empty, Err(ProtocolError::InsufficientFunds));
}

#[test]
fn slash_takes_stake_and_reputation_saturating() {
    let g = fresh_global();
    let mut m = MinerAccount { stake: 300, reputation: 25, ..fresh_miner() };
    let r = slash_miner(&ADMIN, true, &g, &mut m, 200);
    assert_eq!(r, Ok(Event::MinerSlashed { amount: 200 }));
    assert_eq!(m.stake, 100);
    assert_eq!(m.reputation, 15);

    let r = slash_miner(&ADMIN, true, &g, &mut m, 500);
    assert_eq!(r, Ok(Event::MinerSlashed { amount: 500 }));
    assert_eq!(m.stake, 0);
    assert_eq!(m.reputation, 5);

    slash_miner(&ADMIN, true, &g, &mut m, 1).unwrap();
    assert_eq!(m.reputation, 0);
}

#[test]
fn only_the_recorded_admin_slashes() {
    let g = fresh_global();
    let mut m = MinerAccount { stake: 300, ..fresh_miner() };
    let r = slash_miner(&OWNER, true, &g, &mut m, 200);
    assert_eq!(r, Err(ProtocolError::WrongAdmin));
    assert_eq!(m.stake, 300);
    let r = slash_miner(&ADMIN, false, &g, &mut m, 200);
    assert_eq!(r, Err(ProtocolError::MissingSigner));
    assert_eq!(m.stake, 300);
}

#[test]
fn every_handler_wants_its_signer() {
    let (global_key, _) = global_pda(&PROGRAM_ID).unwrap();
    let (epoch_key, _) = epoch_pda(&PROGRAM_ID, 42, 1001).unwrap();
    let object_bytes = registered_object_bytes();
    let mut e = fresh_epoch(1_000);
    let mut m = fresh_miner();
    let mut g = fresh_global();

    assert_eq!(
        initialize(&PROGRAM_ID, &ADMIN, false, &global_key, &MINT, &VAULT, 15, 100, 1, 0),
        Err(ProtocolError::MissingSigner)
    );
    assert_eq!(
        register_object(
            &PROGRAM_ID, &OWNER, false, &global_key, &[7u8; 32], 0, 1, 1, 42, 0
        ),
        Err(ProtocolError::MissingSigner)
    );
    assert_eq!(
        create_epoch(&PROGRAM_ID, false, &object_bytes, &epoch_key, 42, 9, 1001, 0),
        Err(ProtocolError::MissingSigner)
    );
    assert_eq!(
        submit_proof(
            &PROGRAM_ID,
            &MINER,
            false,
            &miner_account_key(),
            &mut e,
            &mut m,
            &mut g,
            1001,
            &[9u8; 32],
            1_010,
        ),
        Err(ProtocolError::MissingSigner)
    );
    assert_eq!(
        challenge_proof(false, &mut e, &mut m, 1001, &[6u8; 32]),
        Err(ProtocolError::MissingSigner)
    );
    assert_eq!(
        finalize_epoch(&PROGRAM_ID, false, &e, &global_key, &VAULT, &MINER_TOKENS, 1001),
        Err(ProtocolError::MissingSigner)
    );
    assert_eq!(
        stake_tokens(&MINER, false, &MINER_TOKENS, &VAULT, 1),
        Err(ProtocolError::MissingSigner)
    );
    assert_eq!(
        unstake_tokens(&PROGRAM_ID, false, &m, &global_key, &VAULT, &MINER_TOKENS, 1, 0),
        Err(ProtocolError::MissingSigner)
    );
    assert_eq!(
        claim_reward(&PROGRAM_ID, false, &m, &global_key, &VAULT, &MINER_TOKENS),
        Err(ProtocolError::MissingSigner)
    );
}

#[test]
fn supplied_addresses_must_match_their_derivations() {
    let wrong = [13u8; 32];
    assert_eq!(
        initialize(&PROGRAM_ID, &ADMIN, true, &wrong, &MINT, &VAULT, 15, 100, 1, 0),
        Err(ProtocolError::AddressMismatch)
    );
    assert_eq!(
        register_object(&PROGRAM_ID, &OWNER, true, &wrong, &[7u8; 32], 0, 1, 1, 42, 0),
        Err(ProtocolError::AddressMismatch)
    );
    assert_eq!(
        create_epoch(&PROGRAM_ID, true, &registered_object_bytes(), &wrong, 42, 9, 1001, 0),
        Err(ProtocolError::AddressMismatch)
    );
    let e = EpochRecord { status: EpochStatus::Submitted, ..fresh_epoch(1_000) };
    assert_eq!(
        finalize_epoch(&PROGRAM_ID, true, &e, &wrong, &VAULT, &MINER_TOKENS, 1001),
        Err(ProtocolError::AddressMismatch)
    );
    let m = MinerAccount { stake: 10, pending_rewards: 10, unstake_ts: 0, ..fresh_miner() };
    assert_eq!(
        unstake_tokens(&PROGRAM_ID, true, &m, &wrong, &VAULT, &MINER_TOKENS, 1, 5),
        Err(ProtocolError::AddressMismatch)
    );
    assert_eq!(
        claim_reward(&PROGRAM_ID, true, &m, &wrong, &VAULT, &MINER_TOKENS),
        Err(ProtocolError::AddressMismatch)
    );
}

#[test]
fn create_epoch_wants_a_decodable_object() {
    let (epoch_key, _) = epoch_pda(&PROGRAM_ID, 42, 1001).unwrap();
    let garbage = vec![1u8, 2, 3];
    assert_eq!(
        create_epoch(&PROGRAM_ID, true, &garbage, &epoch_key, 42, 9, 1001, 0),
        Err(ProtocolError::CodecError)
    );
}

#[test]
fn registered_objects_carry_their_proof_kind() {
    let (object_key, object_bump) = object_pda(&PROGRAM_ID, &OWNER, 42).unwrap();
    let (o, ev) = register_object(
        &PROGRAM_ID, &OWNER, true, &object_key, &[7u8; 32], 1, 1234, 10, 42, 1_000,
    )
    .unwrap();
    assert_eq!(ev, Event::ObjectRegistered { object_id: 42 });
    assert_eq!(o.proof_type, ProofType::Snark);
    assert_eq!(o.bump, object_bump);
    let (o2, _) = register_object(
        &PROGRAM_ID, &OWNER, true, &object_key, &[7u8; 32], 9, 1234, 10, 42, 1_000,
    )
    .unwrap();
    assert_eq!(o2.proof_type, ProofType::Other(9));
}

#[test]
fn test_integration_flow_all() {
    // The full protocol flow on one object, epoch and miner.
    let now: i64 = 1_000;
    let (global_key, _) = global_pda(&PROGRAM_ID).unwrap();

    let (global, mint_init, init_event) = initialize(
        &PROGRAM_ID, &ADMIN, true, &global_key, &MINT, &VAULT, 15, 100, 7_000_000, now,
    )
    .unwrap();
    assert_eq!(global.admin, ADMIN);
    assert_eq!(global.reward_mint, MINT);
    assert_eq!(mint_init.authority, global_key);
    assert_eq!(init_event, Event::Initialized);
    let mut global = global;

    let (object_key, _) = object_pda(&PROGRAM_ID, &OWNER, 42).unwrap();
    let (object, _) = register_object(
        &PROGRAM_ID, &OWNER, true, &object_key, &[7u8; 32], 0, 1234, 10, 42, now,
    )
    .unwrap();
    assert_eq!(object.owner, OWNER);
    assert_eq!(object.commitment[0], 7u8);

    let (epoch_key, _) = epoch_pda(&PROGRAM_ID, 42, 1001).unwrap();
    let (mut epoch, _) = create_epoch(
        &PROGRAM_ID, true, &encode_object(&object), &epoch_key, 42, 9, 1001, now,
    )
    .unwrap();
    assert_eq!(epoch.object_id, 42);
    assert_eq!(epoch.epoch_id, 1001);
    assert_eq!(epoch.status, EpochStatus::Open);

    let mut miner_acc = fresh_miner();
    stake_tokens(&MINER, true, &MINER_TOKENS, &VAULT, 500).unwrap();
    stake_tokens_apply(&mut miner_acc, 500, now);
    assert_eq!(miner_acc.stake, 500);

    let r = submit_proof(
        &PROGRAM_ID,
        &MINER,
        true,
        &miner_account_key(),
        &mut epoch,
        &mut miner_acc,
        &mut global,
        1001,
        &[9u8; 32],
        now + 10,
    );
    assert!(r.is_ok());
    assert_eq!(epoch.status, EpochStatus::Submitted);
    assert_eq!(epoch.solver.unwrap(), MINER);

    let action =
        finalize_epoch(&PROGRAM_ID, true, &epoch, &global_key, &VAULT, &MINER_TOKENS, 1001)
            .unwrap();
    assert_eq!(action.amount, 1_000_000);
    finalize_epoch_apply(&mut epoch);
    assert_eq!(epoch.status, EpochStatus::Finalized);

    claim_reward(&PROGRAM_ID, true, &miner_acc, &global_key, &VAULT, &MINER_TOKENS).unwrap();
    claim_reward_apply(&mut miner_acc);
    assert_eq!(miner_acc.pending_rewards, 0);

    let later = now + 3_601;
    unstake_tokens(
        &PROGRAM_ID, true, &miner_acc, &global_key, &VAULT, &MINER_TOKENS, 200, later,
    )
    .unwrap();
    unstake_tokens_apply(&mut miner_acc, 200);
    assert_eq!(miner_acc.stake, 300);
}
