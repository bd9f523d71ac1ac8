//! Epoch finalization: pay the solver and close the epoch.
//!
//! Finalization is two steps around the host's transfer: `finalize_epoch`
//! validates and returns the exact asset movement; the host executes it;
//! `finalize_epoch_apply` then records the terminal state.  If the transfer
//! fails the host never applies, so the epoch stays `Submitted` and no
//! partial state is visible.

use vstd::prelude::*;
use crate::actions::{Event, TransferAction, TransferAuthority};
use crate::errors::ProtocolError;
use crate::pda::{global_pda, key_is_derived, keys_equal, pda_of, spec_global_seeds};
use crate::state::{status_edge_ok, EpochRecord, EpochStatus};

verus! {

/// Validate a finalization and return the payout the host must execute:
/// exactly the epoch's reward, from the reward vault to the solver's payout
/// account, authorized by the global record's derived identity.  Nothing is
/// mutated.  A challenged epoch is refused with the distinct under-dispute
/// error; any other non-`Submitted` state with a state error; an epoch that
/// is `Open` or `Challenged` never finalizes.  Succeeds on exactly the
/// inputs where a signer is present, the epoch matches and is `Submitted`,
/// and the supplied global address is the derived one.
pub fn finalize_epoch(
    program_id: &[u8; 32],
    caller_is_signer: bool,
    epoch: &EpochRecord,
    global_account_key: &[u8; 32],
    reward_vault_key: &[u8; 32],
    miner_token_account_key: &[u8; 32],
    epoch_id: u128,
) -> (r: Result<TransferAction, ProtocolError>)
    ensures
        epoch.status == EpochStatus::Challenged || epoch.status == EpochStatus::Open ==> r is Err,
        !caller_is_signer ==> r == Err::<TransferAction, ProtocolError>(
            ProtocolError::MissingSigner,
        ),
        caller_is_signer && epoch.epoch_id != epoch_id ==> r == Err::<
            TransferAction,
            ProtocolError,
        >(ProtocolError::StateError),
        caller_is_signer && epoch.epoch_id == epoch_id && epoch.status == EpochStatus::Challenged
            ==> r == Err::<TransferAction, ProtocolError>(ProtocolError::UnderDispute),
        caller_is_signer && epoch.epoch_id == epoch_id && epoch.status != EpochStatus::Challenged
            && epoch.status != EpochStatus::Submitted ==> r == Err::<
            TransferAction,
            ProtocolError,
        >(ProtocolError::StateError),
        caller_is_signer && epoch.epoch_id == epoch_id && epoch.status == EpochStatus::Submitted
            && !key_is_derived(global_account_key@, pda_of(spec_global_seeds(), program_id@)) ==> r
            == Err::<TransferAction, ProtocolError>(ProtocolError::AddressMismatch),
        caller_is_signer && epoch.epoch_id == epoch_id && epoch.status == EpochStatus::Submitted
            && key_is_derived(global_account_key@, pda_of(spec_global_seeds(), program_id@)) ==> (
        r matches Ok(a) && a.from == *reward_vault_key && a.to == *miner_token_account_key
            && a.amount == epoch.reward && (a.authority matches TransferAuthority::GlobalDerived {
            address,
            bump,
        } && address == *global_account_key && pda_of(spec_global_seeds(), program_id@) == Some(
            (global_account_key@, bump),
        ))),
{
    if !caller_is_signer {
        return Err(ProtocolError::MissingSigner);
    }
    if epoch.epoch_id != epoch_id {
        return Err(ProtocolError::StateError);
    }
    if epoch.status == EpochStatus::Challenged {
        return Err(ProtocolError::UnderDispute);
    }
    if epoch.status != EpochStatus::Submitted {
        return Err(ProtocolError::StateError);
    }
    match global_pda(program_id) {
        None => Err(ProtocolError::AddressMismatch),
        Some((expected_global, bump)) => {
            if !keys_equal(&expected_global, global_account_key) {
                return Err(ProtocolError::AddressMismatch);
            }
            Ok(TransferAction {
                from: *reward_vault_key,
                to: *miner_token_account_key,
                authority: TransferAuthority::GlobalDerived {
                    address: *global_account_key,
                    bump,
                },
                amount: epoch.reward,
            })
        },
    }
}

/// Record a finalization whose payout the host has executed: the epoch
/// becomes `Finalized` and nothing else changes.  Only a `Submitted` epoch
/// may be applied — the state the validation above guarantees.
pub fn finalize_epoch_apply(epoch: &mut EpochRecord) -> (ev: Event)
    requires
        old(epoch).status == EpochStatus::Submitted,
    ensures
        status_edge_ok(old(epoch).status, final(epoch).status),
        *final(epoch) == (EpochRecord { status: EpochStatus::Finalized, ..*old(epoch) }),
        ev == (Event::EpochFinalized {
            epoch_id: old(epoch).epoch_id,
            amount: old(epoch).reward,
        }),
{
    epoch.status = EpochStatus::Finalized;
    Event::EpochFinalized { epoch_id: epoch.epoch_id, amount: epoch.reward }
}

} // verus!
