//! Ledger-resident incentive protocol for proof-of-storage mining.
//!
//! Participants register data objects, miners submit possession proofs for
//! time-boxed epochs, disputed proofs can be challenged, and miners are paid
//! from a globally capped emission budget while staking collateral that can
//! be slashed.
//!
//! The library is the instruction-processing core: the record codec, the
//! address-derivation checks, the epoch lifecycle state machine, the miner
//! ledger and the emission accounting.  Every function that mutates a record
//! carries a contract saying exactly which inputs succeed, which error each
//! rejected input produces, and how the records change.  Account storage,
//! token transfers and the clock live outside; the host shell hands plain
//! values in and performs the returned transfer actions.

pub mod actions;
pub mod constants;
pub mod errors;
pub mod instructions;
pub mod codec;
pub mod pda;
pub mod state;
pub mod wire;
