//! Object registration: record an immutable descriptor of a stored object.

use vstd::prelude::*;
use crate::actions::Event;
use crate::errors::ProtocolError;
use crate::pda::{key_is_derived, keys_equal, object_pda, pda_of, spec_object_seeds};
use crate::state::{ObjectRecord, ProofType};

verus! {

/// The proof kind a raw instruction byte selects.
pub open spec fn spec_proof_type_from_byte(b: u8) -> ProofType {
    if b == 0 {
        ProofType::CompactHash
    } else if b == 1 {
        ProofType::Snark
    } else {
        ProofType::Other(b)
    }
}

/// Record a new object descriptor for the signing owner.  The supplied
/// object address must be the derived one for `(owner, object_id)`; its
/// bump is stored in the record.  Succeeds on exactly the inputs where the
/// owner signed and the address matches; the host then stores the record.
pub fn register_object(
    program_id: &[u8; 32],
    owner: &[u8; 32],
    owner_is_signer: bool,
    object_account_key: &[u8; 32],
    commitment: &[u8; 32],
    proof_type: u8,
    size: u64,
    retention_epochs: u64,
    object_id: u128,
    now: i64,
) -> (r: Result<(ObjectRecord, Event), ProtocolError>)
    ensures
        !owner_is_signer ==> r == Err::<(ObjectRecord, Event), ProtocolError>(
            ProtocolError::MissingSigner,
        ),
        owner_is_signer && !key_is_derived(
            object_account_key@,
            pda_of(spec_object_seeds(owner@, object_id), program_id@),
        ) ==> r == Err::<(ObjectRecord, Event), ProtocolError>(ProtocolError::AddressMismatch),
        owner_is_signer && key_is_derived(
            object_account_key@,
            pda_of(spec_object_seeds(owner@, object_id), program_id@),
        ) ==> (r matches Ok((o, ev)) && o == (ObjectRecord {
            owner: *owner,
            commitment: *commitment,
            proof_type: spec_proof_type_from_byte(proof_type),
            size: size,
            created_ts: now,
            retention_epochs: retention_epochs,
            bump: o.bump,
        }) && pda_of(spec_object_seeds(owner@, object_id), program_id@) == Some(
            (object_account_key@, o.bump),
        ) && ev == (Event::ObjectRegistered { object_id })),
{
    if !owner_is_signer {
        return Err(ProtocolError::MissingSigner);
    }
    match object_pda(program_id, owner, object_id) {
        None => Err(ProtocolError::AddressMismatch),
        Some((expected_object, bump)) => {
            if !keys_equal(&expected_object, object_account_key) {
                return Err(ProtocolError::AddressMismatch);
            }
            let proof_type_enum = if proof_type == 0 {
                ProofType::CompactHash
            } else if proof_type == 1 {
                ProofType::Snark
            } else {
                ProofType::Other(proof_type)
            };
            let object_record = ObjectRecord {
                owner: *owner,
                commitment: *commitment,
                proof_type: proof_type_enum,
                size,
                created_ts: now,
                retention_epochs,
                bump,
            };
            Ok((object_record, Event::ObjectRegistered { object_id }))
        },
    }
}

} // verus!
