//! Effects an instruction asks its host to perform.
//!
//! The core never moves assets itself: a handler validates, mutates the
//! records, and hands back a description of the one asset movement (or mint
//! creation) the host must execute.  A transfer authorized by the protocol's
//! own derived identity carries the seed bump explicitly, as a capability
//! value, rather than as ambient state.

use vstd::prelude::*;

verus! {

/// Who authorizes an asset movement.
#[derive(Clone, Copy, Debug, PartialEq, Eq)]
pub enum TransferAuthority {
    /// An ordinary signer: the key must have signed the instruction.
    Wallet([u8; 32]),
    /// The global record's derived identity; `address` is the derived global
    /// address and `bump` the disambiguation byte found at derivation.
    GlobalDerived { address: [u8; 32], bump: u8 },
}

/// One asset movement the host must execute on behalf of an instruction.
#[derive(Clone, Copy, Debug, PartialEq, Eq)]
pub struct TransferAction {
    pub from: [u8; 32],
    pub to: [u8; 32],
    pub authority: TransferAuthority,
    pub amount: u64,
}

/// Creation of the reward asset, requested once by initialization.
#[derive(Clone, Copy, Debug, PartialEq, Eq)]
pub struct MintInit {
    pub mint: [u8; 32],
    /// The derived global address; it becomes the mint authority.
    pub authority: [u8; 32],
    pub decimals: u8,
}

/// Tagged event a successful instruction emits for off-core indexing.
#[derive(Clone, Copy, Debug, PartialEq, Eq)]
pub enum Event {
    Initialized,
    ObjectRegistered { object_id: u128 },
    EpochCreated { epoch_id: u128, nonce: u64 },
    EpochSubmitted { epoch_id: u128 },
    /// The evidence digest is recorded here for off-core adjudication.
    EpochChallenged { epoch_id: u128, evidence_hash: [u8; 32] },
    EpochFinalized { epoch_id: u128, amount: u64 },
    Staked { miner: [u8; 32], amount: u64 },
    Unstaked { miner: [u8; 32], amount: u64 },
    RewardClaimed { miner: [u8; 32], amount: u64 },
    MinerSlashed { amount: u64 },
}

} // verus!
