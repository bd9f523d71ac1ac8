//! Epoch creation: open a proof round against a registered object.

use vstd::prelude::*;
use crate::actions::Event;
use crate::codec::{decode_object, spec_decode_object};
use crate::constants::{EPOCH_DEADLINE_WINDOW, EPOCH_REWARD};
use crate::errors::ProtocolError;
use crate::pda::{epoch_pda, key_is_derived, keys_equal, pda_of, spec_epoch_seeds};
use crate::state::{EpochRecord, EpochRecordV, EpochStatus};
use crate::wire::{spec_zero32, zero32};

verus! {

/// Open a new epoch for `(object_id, epoch_id)`.  Any signer may open one;
/// the referenced object record must deserialize, and the supplied epoch
/// address must be the derived one (its bump is stored).  The new record is
/// `Open`, has no solver, an all-zero proof hash, the protocol reward, and a
/// deadline one window after `now`.  Succeeds on exactly the inputs where
/// those three checks pass; the host then stores the record.
pub fn create_epoch(
    program_id: &[u8; 32],
    caller_is_signer: bool,
    object_data: &[u8],
    epoch_account_key: &[u8; 32],
    object_id: u128,
    nonce: u64,
    epoch_id: u128,
    now: i64,
) -> (r: Result<(EpochRecord, Event), ProtocolError>)
    requires
        now + EPOCH_DEADLINE_WINDOW <= i64::MAX,
    ensures
        !caller_is_signer ==> r == Err::<(EpochRecord, Event), ProtocolError>(
            ProtocolError::MissingSigner,
        ),
        caller_is_signer && spec_decode_object(object_data@) is None ==> r == Err::<
            (EpochRecord, Event),
            ProtocolError,
        >(ProtocolError::CodecError),
        caller_is_signer && spec_decode_object(object_data@) is Some && !key_is_derived(
            epoch_account_key@,
            pda_of(spec_epoch_seeds(object_id, epoch_id), program_id@),
        ) ==> r == Err::<(EpochRecord, Event), ProtocolError>(ProtocolError::AddressMismatch),
        caller_is_signer && spec_decode_object(object_data@) is Some && key_is_derived(
            epoch_account_key@,
            pda_of(spec_epoch_seeds(object_id, epoch_id), program_id@),
        ) ==> (r matches Ok((e, ev)) && e@ == (EpochRecordV {
            object_id: object_id,
            epoch_id: epoch_id,
            nonce: nonce,
            deadline_ts: (now + EPOCH_DEADLINE_WINDOW) as i64,
            solver: None,
            proof_hash: spec_zero32(),
            status: EpochStatus::Open,
            reward: EPOCH_REWARD,
            bump: e.bump,
        }) && pda_of(spec_epoch_seeds(object_id, epoch_id), program_id@) == Some(
            (epoch_account_key@, e.bump),
        ) && ev == (Event::EpochCreated { epoch_id, nonce })),
{
    if !caller_is_signer {
        return Err(ProtocolError::MissingSigner);
    }
    if decode_object(object_data).is_none() {
        return Err(ProtocolError::CodecError);
    }
    let deadline = now + EPOCH_DEADLINE_WINDOW;
    match epoch_pda(program_id, object_id, epoch_id) {
        None => Err(ProtocolError::AddressMismatch),
        Some((expected_epoch, bump)) => {
            if !keys_equal(&expected_epoch, epoch_account_key) {
                return Err(ProtocolError::AddressMismatch);
            }
            let epoch_record = EpochRecord {
                object_id,
                epoch_id,
                nonce,
                deadline_ts: deadline,
                solver: None,
                proof_hash: zero32(),
                status: EpochStatus::Open,
                reward: EPOCH_REWARD,
                bump,
            };
            Ok((epoch_record, Event::EpochCreated { epoch_id, nonce }))
        },
    }
}

} // verus!
