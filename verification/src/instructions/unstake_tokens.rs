//! Unstaking: release collateral after the cooldown.
//!
//! Unstaking is two steps around the host's transfer: `unstake_tokens`
//! validates and returns the collateral movement, authorized by the global
//! record's derived identity; the host executes it; `unstake_tokens_apply`
//! then debits the ledger.  If the transfer fails the host never applies.

use vstd::prelude::*;
use crate::actions::{Event, TransferAction, TransferAuthority};
use crate::errors::ProtocolError;
use crate::pda::{global_pda, key_is_derived, keys_equal, pda_of, spec_global_seeds};
use crate::state::MinerAccount;

verus! {

/// Validate an unstake and return the collateral movement the host must
/// execute: `amount` from stake custody back to the miner, authorized by
/// the global record's derived identity.  Nothing is mutated.  An unstake
/// before the cooldown expires fails with the cooldown error — whatever the
/// amount — and one asking for more than the stake with insufficient funds.
/// Succeeds on exactly the inputs where the miner signed, the cooldown has
/// expired, the stake covers the amount, and the supplied global address is
/// the derived one.
pub fn unstake_tokens(
    program_id: &[u8; 32],
    miner_is_signer: bool,
    miner_acc: &MinerAccount,
    global_account_key: &[u8; 32],
    stake_vault_key: &[u8; 32],
    miner_token_account_key: &[u8; 32],
    amount: u64,
    now: i64,
) -> (r: Result<TransferAction, ProtocolError>)
    ensures
        miner_is_signer && now < miner_acc.unstake_ts ==> r == Err::<
            TransferAction,
            ProtocolError,
        >(ProtocolError::CooldownActive),
        miner_is_signer && now >= miner_acc.unstake_ts && amount > miner_acc.stake ==> r == Err::<
            TransferAction,
            ProtocolError,
        >(ProtocolError::InsufficientFunds),
        !miner_is_signer ==> r == Err::<TransferAction, ProtocolError>(
            ProtocolError::MissingSigner,
        ),
        miner_is_signer && now >= miner_acc.unstake_ts && amount <= miner_acc.stake
            && !key_is_derived(global_account_key@, pda_of(spec_global_seeds(), program_id@)) ==> r
            == Err::<TransferAction, ProtocolError>(ProtocolError::AddressMismatch),
        miner_is_signer && now >= miner_acc.unstake_ts && amount <= miner_acc.stake
            && key_is_derived(global_account_key@, pda_of(spec_global_seeds(), program_id@)) ==> (
        r matches Ok(a) && a.from == *stake_vault_key && a.to == *miner_token_account_key
            && a.amount == amount && (a.authority matches TransferAuthority::GlobalDerived {
            address,
            bump,
        } && address == *global_account_key && pda_of(spec_global_seeds(), program_id@) == Some(
            (global_account_key@, bump),
        ))),
{
    if !miner_is_signer {
        return Err(ProtocolError::MissingSigner);
    }
    if now < miner_acc.unstake_ts {
        return Err(ProtocolError::CooldownActive);
    }
    if miner_acc.stake < amount {
        return Err(ProtocolError::InsufficientFunds);
    }
    match global_pda(program_id) {
        None => Err(ProtocolError::AddressMismatch),
        Some((expected_global, bump)) => {
            if !keys_equal(&expected_global, global_account_key) {
                return Err(ProtocolError::AddressMismatch);
            }
            Ok(TransferAction {
                from: *stake_vault_key,
                to: *miner_token_account_key,
                authority: TransferAuthority::GlobalDerived {
                    address: *global_account_key,
                    bump,
                },
                amount,
            })
        },
    }
}

/// Debit an unstake whose transfer the host has executed: the stake drops
/// by exactly `amount` — the validation above guarantees it is covered.
pub fn unstake_tokens_apply(miner_acc: &mut MinerAccount, amount: u64) -> (ev: Event)
    requires
        old(miner_acc).stake >= amount,
    ensures
        *final(miner_acc) == (MinerAccount {
            stake: (old(miner_acc).stake - amount) as u64,
            ..*old(miner_acc)
        }),
        ev == (Event::Unstaked { miner: old(miner_acc).miner, amount }),
{
    miner_acc.stake = miner_acc.stake.saturating_sub(amount);
    Event::Unstaked { miner: miner_acc.miner, amount }
}

} // verus!
