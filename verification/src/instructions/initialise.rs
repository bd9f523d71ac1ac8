//! Initialization: create the global record and request the reward asset.

use vstd::prelude::*;
use crate::actions::{Event, MintInit};
use crate::constants::REWARD_MINT_DECIMALS;
use crate::errors::ProtocolError;
use crate::pda::{global_pda, key_is_derived, keys_equal, pda_of, spec_global_seeds};
use crate::state::{GlobalState, GlobalStateV};

verus! {

/// Write the one-time global record: the signer becomes the admin, the
/// supplied mint and vault become the reward asset and its custody, the
/// emission budget and decay fraction are fixed, and nothing is minted yet.
/// The supplied global address must be the derived one.  Succeeds on exactly
/// the inputs where the admin signed and the address matches; the host then
/// stores the record, performs the returned mint creation, and emits the
/// reported event.
pub fn initialize(
    program_id: &[u8; 32],
    admin: &[u8; 32],
    admin_is_signer: bool,
    global_account_key: &[u8; 32],
    reward_mint_key: &[u8; 32],
    reward_vault_key: &[u8; 32],
    decay_numerator: u64,
    decay_denom: u64,
    emission_cap: u64,
    now: i64,
) -> (r: Result<(GlobalState, MintInit, Event), ProtocolError>)
    ensures
        !admin_is_signer ==> r == Err::<(GlobalState, MintInit, Event), ProtocolError>(
            ProtocolError::MissingSigner,
        ),
        admin_is_signer && !key_is_derived(
            global_account_key@,
            pda_of(spec_global_seeds(), program_id@),
        ) ==> r == Err::<(GlobalState, MintInit, Event), ProtocolError>(ProtocolError::AddressMismatch),
        admin_is_signer && key_is_derived(
            global_account_key@,
            pda_of(spec_global_seeds(), program_id@),
        ) ==> (r matches Ok((g, m, ev)) && g@ == (GlobalStateV {
            admin: admin@,
            reward_mint: reward_mint_key@,
            reward_vault: reward_vault_key@,
            total_minted: 0,
            emission_cap: emission_cap,
            decay_numerator: decay_numerator,
            decay_denom: decay_denom,
            last_decay_at: now,
        }) && m == (MintInit {
            mint: *reward_mint_key,
            authority: *global_account_key,
            decimals: REWARD_MINT_DECIMALS,
        }) && ev == Event::Initialized),
{
    if !admin_is_signer {
        return Err(ProtocolError::MissingSigner);
    }
    match global_pda(program_id) {
        None => Err(ProtocolError::AddressMismatch),
        Some((expected_global, _bump)) => {
            if !keys_equal(&expected_global, global_account_key) {
                return Err(ProtocolError::AddressMismatch);
            }
            let global_state = GlobalState {
                admin: *admin,
                reward_mint: *reward_mint_key,
                reward_vault: *reward_vault_key,
                total_minted: 0,
                emission_cap,
                decay_numerator,
                decay_denom,
                last_decay_at: now,
            };
            let mint_init = MintInit {
                mint: *reward_mint_key,
                authority: *global_account_key,
                decimals: REWARD_MINT_DECIMALS,
            };
            Ok((global_state, mint_init, Event::Initialized))
        },
    }
}

} // verus!
