//! Proof submission: the heart of the epoch state machine.

use vstd::prelude::*;
use crate::actions::Event;
use crate::errors::ProtocolError;
use crate::pda::{key_is_derived, keys_equal, miner_pda, pda_of, spec_miner_seeds};
use crate::state::{
    sat_add_u64, status_edge_ok, EpochRecord, EpochStatus, GlobalState, MinerAccount,
};

verus! {

/// Accept a possession proof for an open epoch.
///
/// The signer becomes the solver: the epoch moves to `Submitted` with the
/// proof hash, the miner ledger entry at the derived address is credited the
/// epoch's reward (saturating), and the emission budget is debited by the
/// reward — but only while the budget still covers it; otherwise the debit
/// is skipped while the reward is still credited.  (That asymmetry can
/// credit rewards the budget no longer backs; it is the recorded behaviour,
/// kept deliberately.)  A proof arriving after the deadline moves the epoch
/// to `Challenged` — the one mutation a failing input performs — and fails.
/// Succeeds on exactly the inputs where the miner signed, the epoch matches
/// and is `Open`, the deadline has not passed, and the supplied miner
/// address is the derived one.
pub fn submit_proof(
    program_id: &[u8; 32],
    miner: &[u8; 32],
    miner_is_signer: bool,
    miner_account_key: &[u8; 32],
    epoch: &mut EpochRecord,
    miner_acc: &mut MinerAccount,
    global: &mut GlobalState,
    epoch_id: u128,
    proof_hash: &[u8; 32],
    now: i64,
) -> (r: Result<Event, ProtocolError>)
    ensures
        status_edge_ok(old(epoch).status, final(epoch).status),
        final(global).total_minted >= old(global).total_minted,
        final(global).emission_cap <= old(global).emission_cap,
        !miner_is_signer ==> r == Err::<Event, ProtocolError>(ProtocolError::MissingSigner)
            && *final(epoch) == *old(epoch) && *final(miner_acc) == *old(miner_acc) && *final(global) == *old(global),
        miner_is_signer && old(epoch).epoch_id != epoch_id ==> r == Err::<Event, ProtocolError>(
            ProtocolError::StateError,
        ) && *final(epoch) == *old(epoch) && *final(miner_acc) == *old(miner_acc) && *final(global) == *old(global),
        miner_is_signer && old(epoch).epoch_id == epoch_id && old(epoch).status
            != EpochStatus::Open ==> r == Err::<Event, ProtocolError>(ProtocolError::StateError)
            && *final(epoch) == *old(epoch) && *final(miner_acc) == *old(miner_acc) && *final(global) == *old(global),
        miner_is_signer && old(epoch).epoch_id == epoch_id && old(epoch).status
            == EpochStatus::Open && now > old(epoch).deadline_ts ==> r == Err::<
            Event,
            ProtocolError,
        >(ProtocolError::DeadlineExceeded) && *final(epoch) == (EpochRecord {
            status: EpochStatus::Challenged,
            ..*old(epoch)
        }) && *final(miner_acc) == *old(miner_acc) && *final(global) == *old(global),
        miner_is_signer && old(epoch).epoch_id == epoch_id && old(epoch).status
            == EpochStatus::Open && now <= old(epoch).deadline_ts && !key_is_derived(
            miner_account_key@,
            pda_of(spec_miner_seeds(miner@), program_id@),
        ) ==> r == Err::<Event, ProtocolError>(ProtocolError::AddressMismatch) && *final(epoch)
            == *old(epoch) && *final(miner_acc) == *old(miner_acc) && *final(global) == *old(global),
        miner_is_signer && old(epoch).epoch_id == epoch_id && old(epoch).status
            == EpochStatus::Open && now <= old(epoch).deadline_ts && key_is_derived(
            miner_account_key@,
            pda_of(spec_miner_seeds(miner@), program_id@),
        ) ==> r == Ok::<Event, ProtocolError>(Event::EpochSubmitted { epoch_id }) && *final(epoch)
            == (EpochRecord {
            solver: Some(*miner),
            proof_hash: *proof_hash,
            status: EpochStatus::Submitted,
            ..*old(epoch)
        }) && *final(miner_acc) == (MinerAccount {
            pending_rewards: sat_add_u64(old(miner_acc).pending_rewards, old(epoch).reward),
            ..*old(miner_acc)
        }) && *final(global) == (if old(global).emission_cap >= old(epoch).reward {
            GlobalState {
                total_minted: sat_add_u64(old(global).total_minted, old(epoch).reward),
                emission_cap: (old(global).emission_cap - old(epoch).reward) as u64,
                ..*old(global)
            }
        } else {
            *old(global)
        }),
{
    if !miner_is_signer {
        return Err(ProtocolError::MissingSigner);
    }
    if epoch.epoch_id != epoch_id {
        return Err(ProtocolError::StateError);
    }
    if epoch.status != EpochStatus::Open {
        return Err(ProtocolError::StateError);
    }
    if now > epoch.deadline_ts {
        // A late submission is self-penalizing: the epoch is challenged,
        // not silently left open.
        epoch.status = EpochStatus::Challenged;
        return Err(ProtocolError::DeadlineExceeded);
    }
    match miner_pda(program_id, miner) {
        None => Err(ProtocolError::AddressMismatch),
        Some((expected_miner, _bump)) => {
            if !keys_equal(&expected_miner, miner_account_key) {
                return Err(ProtocolError::AddressMismatch);
            }
            epoch.solver = Some(*miner);
            epoch.proof_hash = *proof_hash;
            epoch.status = EpochStatus::Submitted;
            miner_acc.pending_rewards = miner_acc.pending_rewards.saturating_add(epoch.reward);
            if global.emission_cap >= epoch.reward {
                global.total_minted = global.total_minted.saturating_add(epoch.reward);
                global.emission_cap = global.emission_cap.saturating_sub(epoch.reward);
            }
            Ok(Event::EpochSubmitted { epoch_id })
        },
    }
}

} // verus!
