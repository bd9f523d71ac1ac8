//! Slashing: punitive reduction of a miner's stake and reputation.

use vstd::prelude::*;
use crate::actions::Event;
use crate::constants::SLASH_REPUTATION_PENALTY;
use crate::errors::ProtocolError;
use crate::pda::keys_equal;
use crate::state::{sat_sub_u32, sat_sub_u64, GlobalState, MinerAccount};

verus! {

/// Slash a miner: the stake drops by `amount` and the reputation by the
/// slash penalty, both saturating.  Only the admin recorded in the global
/// state may slash; any other signer is refused with the distinct
/// wrong-admin error.  The slashed amount is routed nowhere in this core —
/// an open question recorded, not resolved, here.  Succeeds on exactly the
/// inputs where the recorded admin signed.
pub fn slash_miner(
    admin: &[u8; 32],
    admin_is_signer: bool,
    global: &GlobalState,
    miner_acc: &mut MinerAccount,
    amount: u64,
) -> (r: Result<Event, ProtocolError>)
    ensures
        !admin_is_signer ==> r == Err::<Event, ProtocolError>(ProtocolError::MissingSigner)
            && *final(miner_acc) == *old(miner_acc),
        admin_is_signer && global.admin@ != admin@ ==> r == Err::<Event, ProtocolError>(
            ProtocolError::WrongAdmin,
        ) && *final(miner_acc) == *old(miner_acc),
        admin_is_signer && global.admin@ == admin@ ==> r == Ok::<Event, ProtocolError>(
            Event::MinerSlashed { amount },
        ) && *final(miner_acc) == (MinerAccount {
            stake: sat_sub_u64(old(miner_acc).stake, amount),
            reputation: sat_sub_u32(old(miner_acc).reputation, SLASH_REPUTATION_PENALTY),
            ..*old(miner_acc)
        }),
{
    if !admin_is_signer {
        return Err(ProtocolError::MissingSigner);
    }
    if !keys_equal(&global.admin, admin) {
        return Err(ProtocolError::WrongAdmin);
    }
    miner_acc.stake = miner_acc.stake.saturating_sub(amount);
    miner_acc.reputation = miner_acc.reputation.saturating_sub(SLASH_REPUTATION_PENALTY);
    Ok(Event::MinerSlashed { amount })
}

} // verus!
