//! The error taxonomy of the protocol.
//!
//! Every instruction aborts with exactly one of these; the contracts of the
//! instruction handlers say, input by input, which one.  No handler retries
//! and, apart from the deliberate late-submission transition, no rejected
//! instruction changes any record.

use vstd::prelude::*;

verus! {

/// Terminal, instruction-aborting failure of one protocol instruction.
#[derive(Clone, Copy, Debug, PartialEq, Eq, Structural)]
pub enum ProtocolError {
    /// The account that must authorize the instruction did not sign it.
    MissingSigner,
    /// The signer is not the admin recorded in the global state.
    WrongAdmin,
    /// A caller-supplied account address disagrees with the derived address.
    AddressMismatch,
    /// The record is in the wrong lifecycle state for the requested transition.
    StateError,
    /// The epoch is under dispute: a finalization reached a challenged epoch.
    UnderDispute,
    /// A proof arrived after the epoch's deadline; the epoch has been moved
    /// to `Challenged` as a side effect before this error was returned.
    DeadlineExceeded,
    /// An unstake asks for more than the stake, or a claim finds nothing.
    InsufficientFunds,
    /// An unstake arrived before the cooldown expired.
    CooldownActive,
    /// The emission budget cannot cover a requested debit.  The submission
    /// path skips the debit instead of failing, so no handler here returns
    /// this variant; it completes the taxonomy for hosts that enforce the cap.
    CapExceeded,
    /// A persisted record or an instruction payload failed to decode.
    CodecError,
}

} // verus!
