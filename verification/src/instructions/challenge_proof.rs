//! Proof challenge: dispute a submitted proof.

use vstd::prelude::*;
use crate::actions::Event;
use crate::constants::CHALLENGE_REPUTATION_PENALTY;
use crate::errors::ProtocolError;
use crate::state::{sat_sub_u32, status_edge_ok, EpochRecord, EpochStatus, MinerAccount};

verus! {

/// Challenge a submitted proof.  Any signer may challenge: the epoch moves
/// to `Challenged` (terminal; a challenged epoch never pays) and the
/// challenged miner's reputation drops by one, saturating.  No evidence is
/// verified here; the digest is recorded in the event for off-core
/// adjudication.  Succeeds on exactly the inputs where a signer is present,
/// the epoch matches and is `Submitted`.
pub fn challenge_proof(
    challenger_is_signer: bool,
    epoch: &mut EpochRecord,
    miner_acc: &mut MinerAccount,
    epoch_id: u128,
    evidence_hash: &[u8; 32],
) -> (r: Result<Event, ProtocolError>)
    ensures
        status_edge_ok(old(epoch).status, final(epoch).status),
        !challenger_is_signer ==> r == Err::<Event, ProtocolError>(ProtocolError::MissingSigner)
            && *final(epoch) == *old(epoch) && *final(miner_acc) == *old(miner_acc),
        challenger_is_signer && old(epoch).epoch_id != epoch_id ==> r == Err::<
            Event,
            ProtocolError,
        >(ProtocolError::StateError) && *final(epoch) == *old(epoch) && *final(miner_acc)
            == *old(miner_acc),
        challenger_is_signer && old(epoch).epoch_id == epoch_id && old(epoch).status
            != EpochStatus::Submitted ==> r == Err::<Event, ProtocolError>(
            ProtocolError::StateError,
        ) && *final(epoch) == *old(epoch) && *final(miner_acc) == *old(miner_acc),
        challenger_is_signer && old(epoch).epoch_id == epoch_id && old(epoch).status
            == EpochStatus::Submitted ==> r == Ok::<Event, ProtocolError>(
            Event::EpochChallenged { epoch_id, evidence_hash: *evidence_hash },
        ) && *final(epoch) == (EpochRecord {
            status: EpochStatus::Challenged,
            ..*old(epoch)
        }) && *final(miner_acc) == (MinerAccount {
            reputation: sat_sub_u32(old(miner_acc).reputation, CHALLENGE_REPUTATION_PENALTY),
            ..*old(miner_acc)
        }),
{
    if !challenger_is_signer {
        return Err(ProtocolError::MissingSigner);
    }
    if epoch.epoch_id != epoch_id {
        return Err(ProtocolError::StateError);
    }
    if epoch.status != EpochStatus::Submitted {
        return Err(ProtocolError::StateError);
    }
    epoch.status = EpochStatus::Challenged;
    miner_acc.reputation = miner_acc.reputation.saturating_sub(CHALLENGE_REPUTATION_PENALTY);
    Ok(Event::EpochChallenged { epoch_id, evidence_hash: *evidence_hash })
}

} // verus!
