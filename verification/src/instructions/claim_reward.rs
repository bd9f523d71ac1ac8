//! Reward claim: pay out a miner's accrued rewards and zero them.
//!
//! Claiming is two steps around the host's transfer: `claim_reward`
//! validates and returns the payout; the host executes it;
//! `claim_reward_apply` then zeroes the accrual.  The two form one atomic
//! unit: if the transfer fails the host never applies, so the accrued
//! rewards remain unchanged.

use vstd::prelude::*;
use crate::actions::{Event, TransferAction, TransferAuthority};
use crate::errors::ProtocolError;
use crate::pda::{global_pda, key_is_derived, keys_equal, pda_of, spec_global_seeds};
use crate::state::MinerAccount;

verus! {

/// Validate a claim and return the payout the host must execute: the whole
/// accrued amount, from the reward vault to the miner's payout account,
/// authorized by the global record's derived identity.  Nothing is mutated.
/// A claim with nothing accrued fails with insufficient funds.  Succeeds on
/// exactly the inputs where the miner signed, something is accrued, and the
/// supplied global address is the derived one.
pub fn claim_reward(
    program_id: &[u8; 32],
    miner_is_signer: bool,
    miner_acc: &MinerAccount,
    global_account_key: &[u8; 32],
    reward_vault_key: &[u8; 32],
    miner_token_account_key: &[u8; 32],
) -> (r: Result<TransferAction, ProtocolError>)
    ensures
        !miner_is_signer ==> r == Err::<TransferAction, ProtocolError>(
            ProtocolError::MissingSigner,
        ),
        miner_is_signer && miner_acc.pending_rewards == 0 ==> r == Err::<
            TransferAction,
            ProtocolError,
        >(ProtocolError::InsufficientFunds),
        miner_is_signer && miner_acc.pending_rewards > 0 && !key_is_derived(
            global_account_key@,
            pda_of(spec_global_seeds(), program_id@),
        ) ==> r == Err::<TransferAction, ProtocolError>(ProtocolError::AddressMismatch),
        miner_is_signer && miner_acc.pending_rewards > 0 && key_is_derived(
            global_account_key@,
            pda_of(spec_global_seeds(), program_id@),
        ) ==> (r matches Ok(a) && a.from == *reward_vault_key && a.to
            == *miner_token_account_key && a.amount == miner_acc.pending_rewards && (
        a.authority matches TransferAuthority::GlobalDerived { address, bump } && address
            == *global_account_key && pda_of(spec_global_seeds(), program_id@) == Some(
            (global_account_key@, bump),
        ))),
{
    if !miner_is_signer {
        return Err(ProtocolError::MissingSigner);
    }
    if miner_acc.pending_rewards == 0 {
        return Err(ProtocolError::InsufficientFunds);
    }
    match global_pda(program_id) {
        None => Err(ProtocolError::AddressMismatch),
        Some((expected_global, bump)) => {
            if !keys_equal(&expected_global, global_account_key) {
                return Err(ProtocolError::AddressMismatch);
            }
            Ok(TransferAction {
                from: *reward_vault_key,
                to: *miner_token_account_key,
                authority: TransferAuthority::GlobalDerived {
                    address: *global_account_key,
                    bump,
                },
                amount: miner_acc.pending_rewards,
            })
        },
    }
}

/// Zero an accrual whose payout the host has executed.
pub fn claim_reward_apply(miner_acc: &mut MinerAccount) -> (ev: Event)
    ensures
        *final(miner_acc) == (MinerAccount { pending_rewards: 0, ..*old(miner_acc) }),
        ev == (Event::RewardClaimed {
            miner: old(miner_acc).miner,
            amount: old(miner_acc).pending_rewards,
        }),
{
    let amount = miner_acc.pending_rewards;
    miner_acc.pending_rewards = 0;
    Event::RewardClaimed { miner: miner_acc.miner, amount }
}

} // verus!
