//! The instruction handlers: one verified function per protocol instruction.
//!
//! Each handler receives plain values — the signer key and whether it
//! signed, the caller-supplied account addresses, the decoded records it
//! touches, the current time — validates every precondition before any
//! mutation, and either updates the records and reports its event (and the
//! asset movement the host must execute), or returns the one error its
//! contract promises for that input.  Apart from the deliberate
//! late-submission transition, a rejected instruction changes nothing.

pub mod challenge_proof;
pub mod claim_reward;
pub mod create_epoch;
pub mod finalize_epoch;
pub mod initialise;
pub mod slash_miner;
pub mod stake_tokens;
pub mod submit_proof;
pub mod unstake_tokens;
pub mod register_object;
