//! Protocol constants.

use vstd::prelude::*;

verus! {

/// Reward in base units fixed into every epoch at creation.
pub const EPOCH_REWARD: u64 = 1_000_000;

/// Seconds between an epoch's creation and its submission deadline.
pub const EPOCH_DEADLINE_WINDOW: i64 = 120;

/// Seconds a miner must wait after staking before an unstake is allowed.
pub const UNSTAKE_COOLDOWN: i64 = 3600;

/// Reputation lost when an admin slashes a miner.
pub const SLASH_REPUTATION_PENALTY: u32 = 10;

/// Reputation lost when a miner's submitted proof is challenged.
pub const CHALLENGE_REPUTATION_PENALTY: u32 = 1;

/// Decimal places of the reward asset created at initialization.
pub const REWARD_MINT_DECIMALS: u8 = 6;

} // verus!
