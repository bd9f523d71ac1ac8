//! The persisted records of the protocol and their mathematical views.
//!
//! Each record is stored as a binary-encoded account; the structs here hold
//! the decoded form.  A 32-byte value (a principal, an asset id, a content
//! digest) is a `[u8; 32]`.  Every record type has a ghost view (`@`) whose
//! 32-byte fields are `Seq<u8>`; the codec and the round-trip laws are stated
//! over those views.

use vstd::prelude::*;

verus! {

/// Singleton record holding the admin principal, the reward asset, and the
/// capped, decaying emission budget.
#[derive(Clone, Copy, Debug, PartialEq, Eq)]
pub struct GlobalState {
    pub admin: [u8; 32],
    pub reward_mint: [u8; 32],
    pub reward_vault: [u8; 32],
    pub total_minted: u64,
    /// Remaining emission budget; a payout debits it only while it covers the reward.
    pub emission_cap: u64,
    /// Decay expressed as the fraction `decay_numerator / decay_denom`.
    pub decay_numerator: u64,
    pub decay_denom: u64,
    pub last_decay_at: i64,
}

/// Ghost view of `GlobalState`.
pub struct GlobalStateV {
    pub admin: Seq<u8>,
    pub reward_mint: Seq<u8>,
    pub reward_vault: Seq<u8>,
    pub total_minted: u64,
    pub emission_cap: u64,
    pub decay_numerator: u64,
    pub decay_denom: u64,
    pub last_decay_at: i64,
}

impl GlobalStateV {
    /// Well-formedness: every 32-byte field has length 32.
    pub open spec fn wf(self) -> bool {
        &&& self.admin.len() == 32
        &&& self.reward_mint.len() == 32
        &&& self.reward_vault.len() == 32
    }
}

impl View for GlobalState {
    type V = GlobalStateV;

    open spec fn view(&self) -> GlobalStateV {
        GlobalStateV {
            admin: self.admin@,
            reward_mint: self.reward_mint@,
            reward_vault: self.reward_vault@,
            total_minted: self.total_minted,
            emission_cap: self.emission_cap,
            decay_numerator: self.decay_numerator,
            decay_denom: self.decay_denom,
            last_decay_at: self.last_decay_at,
        }
    }
}

/// Kind of possession proof a registered object expects.
#[derive(Clone, Copy, Debug, PartialEq, Eq, Structural)]
pub enum ProofType {
    CompactHash,
    Snark,
    Other(u8),
}

/// Lifecycle state of an epoch.  The only reachable edges are
/// `Open -> Submitted -> {Finalized | Challenged}` and `Open -> Challenged`
/// (late submission); `Finalized` and `Challenged` are terminal.
#[derive(Clone, Copy, Debug, PartialEq, Eq, Structural)]
pub enum EpochStatus {
    Open,
    Submitted,
    Challenged,
    Finalized,
}

/// The epoch lifecycle relation: a record either keeps its state or moves
/// along one of the admitted edges.  Every handler that touches an epoch
/// promises this of the old and new state, so no other edge is reachable.
pub open spec fn status_edge_ok(before: EpochStatus, after: EpochStatus) -> bool {
    ||| after == before
    ||| (before == EpochStatus::Open && (after == EpochStatus::Submitted || after
        == EpochStatus::Challenged))
    ||| (before == EpochStatus::Submitted && (after == EpochStatus::Finalized || after
        == EpochStatus::Challenged))
}

/// The lifecycle admits no edge beyond
/// `Open -> Submitted -> {Finalized | Challenged}` and `Open -> Challenged`:
/// from `Open` a record can only stay, be submitted, or be challenged late;
/// from `Submitted` only stay, finalize, or be challenged; `Finalized` and
/// `Challenged` admit no move at all.
pub proof fn lemma_status_edges_closed(before: EpochStatus, after: EpochStatus)
    requires
        status_edge_ok(before, after),
    ensures
        before == EpochStatus::Open ==> (after == EpochStatus::Open || after
            == EpochStatus::Submitted || after == EpochStatus::Challenged),
        before == EpochStatus::Submitted ==> (after == EpochStatus::Submitted || after
            == EpochStatus::Finalized || after == EpochStatus::Challenged),
        before == EpochStatus::Finalized ==> after == EpochStatus::Finalized,
        before == EpochStatus::Challenged ==> after == EpochStatus::Challenged,
{
}

/// A miner's collateral and accrued rewards are never negative: both are
/// unsigned, and every ledger operation promises a saturating update, so no
/// sequence of operations leaves the range.
pub proof fn lemma_miner_balances_nonnegative(m: MinerAccount)
    ensures
        m.stake >= 0,
        m.pending_rewards >= 0,
{
}

/// Saturating 64-bit addition, as the ledger applies it.
pub open spec fn sat_add_u64(a: u64, b: u64) -> u64 {
    if a + b > u64::MAX {
        u64::MAX
    } else {
        (a + b) as u64
    }
}

/// Saturating 64-bit subtraction, as the ledger applies it.
pub open spec fn sat_sub_u64(a: u64, b: u64) -> u64 {
    if a >= b {
        (a - b) as u64
    } else {
        0
    }
}

/// Saturating 32-bit subtraction, as the reputation counter applies it.
pub open spec fn sat_sub_u32(a: u32, b: u32) -> u32 {
    if a >= b {
        (a - b) as u32
    } else {
        0
    }
}

/// Immutable-once-written descriptor of a stored data object.
#[derive(Clone, Copy, Debug, PartialEq, Eq)]
pub struct ObjectRecord {
    pub owner: [u8; 32],
    /// Commitment (content digest) of the stored data.
    pub commitment: [u8; 32],
    pub proof_type: ProofType,
    pub size: u64,
    pub created_ts: i64,
    pub retention_epochs: u64,
    pub bump: u8,
}

/// Ghost view of `ObjectRecord`.
pub struct ObjectRecordV {
    pub owner: Seq<u8>,
    pub commitment: Seq<u8>,
    pub proof_type: ProofType,
    pub size: u64,
    pub created_ts: i64,
    pub retention_epochs: u64,
    pub bump: u8,
}

impl ObjectRecordV {
    /// Well-formedness: every 32-byte field has length 32.
    pub open spec fn wf(self) -> bool {
        &&& self.owner.len() == 32
        &&& self.commitment.len() == 32
    }
}

impl View for ObjectRecord {
    type V = ObjectRecordV;

    open spec fn view(&self) -> ObjectRecordV {
        ObjectRecordV {
            owner: self.owner@,
            commitment: self.commitment@,
            proof_type: self.proof_type,
            size: self.size,
            created_ts: self.created_ts,
            retention_epochs: self.retention_epochs,
            bump: self.bump,
        }
    }
}

/// One proof round for one object, keyed by `(object_id, epoch_id)`.
#[derive(Clone, Copy, Debug, PartialEq, Eq)]
pub struct EpochRecord {
    pub object_id: u128,
    pub epoch_id: u128,
    pub nonce: u64,
    pub deadline_ts: i64,
    /// The miner whose proof was accepted; `None` until a submission.
    pub solver: Option<[u8; 32]>,
    /// Hash of the submitted proof blob; all zero until a submission.
    pub proof_hash: [u8; 32],
    pub status: EpochStatus,
    /// Reward in base units, fixed at creation.
    pub reward: u64,
    pub bump: u8,
}

/// Ghost view of `EpochRecord`.
pub struct EpochRecordV {
    pub object_id: u128,
    pub epoch_id: u128,
    pub nonce: u64,
    pub deadline_ts: i64,
    pub solver: Option<Seq<u8>>,
    pub proof_hash: Seq<u8>,
    pub status: EpochStatus,
    pub reward: u64,
    pub bump: u8,
}

impl EpochRecordV {
    /// Well-formedness: every 32-byte field has length 32.
    pub open spec fn wf(self) -> bool {
        &&& self.proof_hash.len() == 32
        &&& self.solver matches Some(s) ==> self.solver.unwrap().len() == 32
    }
}

impl View for EpochRecord {
    type V = EpochRecordV;

    open spec fn view(&self) -> EpochRecordV {
        EpochRecordV {
            object_id: self.object_id,
            epoch_id: self.epoch_id,
            nonce: self.nonce,
            deadline_ts: self.deadline_ts,
            solver: match self.solver {
                Some(k) => Some(k@),
                None => None,
            },
            proof_hash: self.proof_hash@,
            status: self.status,
            reward: self.reward,
            bump: self.bump,
        }
    }
}

/// Ledger entry for one miner: collateral, accrued rewards, reputation and
/// the unstake cooldown.
#[derive(Clone, Copy, Debug, PartialEq, Eq)]
pub struct MinerAccount {
    pub miner: [u8; 32],
    pub stake: u64,
    pub pending_rewards: u64,
    pub reputation: u32,
    /// Earliest time at which an unstake is allowed; advanced on every stake.
    pub unstake_ts: i64,
    pub bump: u8,
}

/// Ghost view of `MinerAccount`.
pub struct MinerAccountV {
    pub miner: Seq<u8>,
    pub stake: u64,
    pub pending_rewards: u64,
    pub reputation: u32,
    pub unstake_ts: i64,
    pub bump: u8,
}

impl MinerAccountV {
    /// Well-formedness: the principal has length 32.
    pub open spec fn wf(self) -> bool {
        self.miner.len() == 32
    }
}

impl View for MinerAccount {
    type V = MinerAccountV;

    open spec fn view(&self) -> MinerAccountV {
        MinerAccountV {
            miner: self.miner@,
            stake: self.stake,
            pending_rewards: self.pending_rewards,
            reputation: self.reputation,
            unstake_ts: self.unstake_ts,
            bump: self.bump,
        }
    }
}

/// The instruction surface: one tag plus payload per operation.
#[derive(Clone, Copy, Debug, PartialEq, Eq)]
pub enum RewardInstruction {
    Initialize { decay_numerator: u64, decay_denom: u64, emission_cap: u64 },
    RegisterObject {
        commitment: [u8; 32],
        proof_type: u8,
        size: u64,
        retention_epochs: u64,
        object_id: u128,
    },
    CreateEpoch { object_id: u128, nonce: u64, epoch_id: u128 },
    SubmitProof { epoch_id: u128, proof_hash: [u8; 32] },
    ChallengeProof { epoch_id: u128, evidence_hash: [u8; 32] },
    FinalizeEpoch { epoch_id: u128 },
    Stake { amount: u64 },
    Unstake { amount: u64 },
    Slash { miner: [u8; 32], amount: u64 },
    ClaimRewards,
}

/// Ghost view of `RewardInstruction`.
pub enum RewardInstructionV {
    Initialize { decay_numerator: u64, decay_denom: u64, emission_cap: u64 },
    RegisterObject {
        commitment: Seq<u8>,
        proof_type: u8,
        size: u64,
        retention_epochs: u64,
        object_id: u128,
    },
    CreateEpoch { object_id: u128, nonce: u64, epoch_id: u128 },
    SubmitProof { epoch_id: u128, proof_hash: Seq<u8> },
    ChallengeProof { epoch_id: u128, evidence_hash: Seq<u8> },
    FinalizeEpoch { epoch_id: u128 },
    Stake { amount: u64 },
    Unstake { amount: u64 },
    Slash { miner: Seq<u8>, amount: u64 },
    ClaimRewards,
}

impl View for RewardInstruction {
    type V = RewardInstructionV;

    open spec fn view(&self) -> RewardInstructionV {
        match *self {
            RewardInstruction::Initialize { decay_numerator, decay_denom, emission_cap } =>
                RewardInstructionV::Initialize { decay_numerator, decay_denom, emission_cap },
            RewardInstruction::RegisterObject {
                commitment, proof_type, size, retention_epochs, object_id
            } => RewardInstructionV::RegisterObject {
                commitment: commitment@, proof_type, size, retention_epochs, object_id
            },
            RewardInstruction::CreateEpoch { object_id, nonce, epoch_id } =>
                RewardInstructionV::CreateEpoch { object_id, nonce, epoch_id },
            RewardInstruction::SubmitProof { epoch_id, proof_hash } =>
                RewardInstructionV::SubmitProof { epoch_id, proof_hash: proof_hash@ },
            RewardInstruction::ChallengeProof { epoch_id, evidence_hash } =>
                RewardInstructionV::ChallengeProof { epoch_id, evidence_hash: evidence_hash@ },
            RewardInstruction::FinalizeEpoch { epoch_id } =>
                RewardInstructionV::FinalizeEpoch { epoch_id },
            RewardInstruction::Stake { amount } => RewardInstructionV::Stake { amount },
            RewardInstruction::Unstake { amount } => RewardInstructionV::Unstake { amount },
            RewardInstruction::Slash { miner, amount } =>
                RewardInstructionV::Slash { miner: miner@, amount },
            RewardInstruction::ClaimRewards => RewardInstructionV::ClaimRewards,
        }
    }
}

} // verus!
