//! Staking: lock collateral and reset the unstake cooldown.
//!
//! Staking is two steps around the host's transfer: `stake_tokens`
//! validates and returns the collateral movement, signed by the miner;
//! the host executes it; `stake_tokens_apply` then credits the ledger.  If
//! the transfer fails the host never applies, so the ledger is unchanged.

use vstd::prelude::*;
use crate::actions::{Event, TransferAction, TransferAuthority};
use crate::constants::UNSTAKE_COOLDOWN;
use crate::errors::ProtocolError;
use crate::state::{sat_add_u64, MinerAccount};

verus! {

/// Validate a stake and return the collateral movement the host must
/// execute: `amount` from the miner's funding account into stake custody,
/// authorized by the miner's own signature.  Succeeds on exactly the inputs
/// where the miner signed.
pub fn stake_tokens(
    miner: &[u8; 32],
    miner_is_signer: bool,
    miner_token_account_key: &[u8; 32],
    stake_vault_key: &[u8; 32],
    amount: u64,
) -> (r: Result<TransferAction, ProtocolError>)
    ensures
        !miner_is_signer ==> r == Err::<TransferAction, ProtocolError>(
            ProtocolError::MissingSigner,
        ),
        miner_is_signer ==> r == Ok::<TransferAction, ProtocolError>(TransferAction {
            from: *miner_token_account_key,
            to: *stake_vault_key,
            authority: TransferAuthority::Wallet(*miner),
            amount: amount,
        }),
{
    if !miner_is_signer {
        return Err(ProtocolError::MissingSigner);
    }
    Ok(TransferAction {
        from: *miner_token_account_key,
        to: *stake_vault_key,
        authority: TransferAuthority::Wallet(*miner),
        amount,
    })
}

/// Credit a stake whose transfer the host has executed: the stake rises by
/// `amount` (saturating) and the cooldown is reset to one full window after
/// `now` — reset, not extended, on every additional stake.
pub fn stake_tokens_apply(miner_acc: &mut MinerAccount, amount: u64, now: i64) -> (ev: Event)
    requires
        now + UNSTAKE_COOLDOWN <= i64::MAX,
    ensures
        *final(miner_acc) == (MinerAccount {
            stake: sat_add_u64(old(miner_acc).stake, amount),
            unstake_ts: (now + UNSTAKE_COOLDOWN) as i64,
            ..*old(miner_acc)
        }),
        ev == (Event::Staked { miner: old(miner_acc).miner, amount }),
{
    miner_acc.stake = miner_acc.stake.saturating_add(amount);
    miner_acc.unstake_ts = now + UNSTAKE_COOLDOWN;
    Event::Staked { miner: miner_acc.miner, amount }
}

} // verus!
