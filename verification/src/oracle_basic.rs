//! The records of the oracle in their basic form, for a ledger program that
//! resolves markets without sealed computations.

use vstd::prelude::*;

verus! {

pub use crate::ledger::OracleType;

/// Where a proposed resolution stands.
#[derive(Clone, Copy, Debug, PartialEq, Eq, Structural)]
pub enum ResolutionStatus {
    Proposed,
    Disputed,
    Pending,
    Finalized,
    Invalid,
}

impl ResolutionStatus {
    /// The number that stands for the status.
    pub open spec fn spec_code(self) -> u8 {
        match self {
            ResolutionStatus::Proposed => 0,
            ResolutionStatus::Disputed => 1,
            ResolutionStatus::Pending => 2,
            ResolutionStatus::Finalized => 3,
            ResolutionStatus::Invalid => 4,
        }
    }

    /// The number that stands for the status.
    pub fn code(&self) -> (code: u8)
        ensures
            code == self.spec_code(),
    {
        match self {
            ResolutionStatus::Proposed => 0,
            ResolutionStatus::Disputed => 1,
            ResolutionStatus::Pending => 2,
            ResolutionStatus::Finalized => 3,
            ResolutionStatus::Invalid => 4,
        }
    }
}

/// Where the data behind a resolution is fetched.
#[derive(Clone, Copy, Debug, PartialEq, Eq)]
pub struct DataSource {
    pub url: [u8; 200],
    pub api_key_hash: [u8; 32],
    pub query_path: [u8; 100],
}

/// A proposed resolution of a market.
#[derive(Clone, Copy, Debug, PartialEq, Eq)]
pub struct OracleProposal {
    pub market: [u8; 32],
    pub proposer: [u8; 32],
    pub oracle_type: OracleType,
    pub proposed_outcome: bool,
    pub confidence_score: u8,
    pub proposal_timestamp: i64,
    pub challenge_period_end: i64,
    pub bond_amount: u64,
    pub status: ResolutionStatus,
    pub dispute_count: u8,
    pub final_outcome: Option<bool>,
    pub resolution_metadata: [u8; 500],
    pub bump: u8,
}

/// The bond that a proposal of the given oracle type must post, in lamports.
pub open spec fn required_bond(oracle_type: OracleType) -> u64 {
    match oracle_type {
        OracleType::UmaOptimistic => 100_000_000,
        OracleType::ChainlinkPrice => 50_000_000,
        OracleType::CustomValidated => 75_000_000,
        OracleType::Community => 25_000_000,
    }
}

impl OracleProposal {
    /// Size of a stored proposal in bytes.
    pub const LEN: usize = 8 + 32 + 32 + 1 + 1 + 1 + 8 + 8 + 8 + 1 + 1 + 1 + 500 + 1;

    /// The bond that a proposal of the given oracle type must post, in lamports.
    pub fn calculate_required_bond(&self, oracle_type: &OracleType) -> (bond: u64)
        ensures
            bond == required_bond(*oracle_type),
    {
        match oracle_type {
            OracleType::UmaOptimistic => 100_000_000,
            OracleType::ChainlinkPrice => 50_000_000,
            OracleType::CustomValidated => 75_000_000,
            OracleType::Community => 25_000_000,
        }
    }
}

/// A validator that takes part in resolutions.
#[derive(Clone, Debug, PartialEq, Eq)]
pub struct OracleValidator {
    pub validator: [u8; 32],
    pub stake_amount: u64,
    pub reputation_score: u16,
    pub total_resolutions: u32,
    pub correct_resolutions: u32,
    pub last_activity: i64,
    pub is_active: bool,
    pub specialization: Vec<u8>,
    pub bond_locked: u64,
    pub slash_count: u8,
    pub bump: u8,
}

/// What the stake and the history of a validator say of its eligibility.
#[derive(Clone, Copy, Debug, PartialEq, Eq, Structural)]
pub enum Standing {
    /// Inactive, or short of the stake asked for.
    Ineligible,
    /// Active with the stake asked for, and without any resolution yet.
    Newcomer,
    /// Active with the stake asked for: eligible if accurate enough.
    Established,
}

impl OracleValidator {
    /// Size of a stored validator in bytes.
    pub const LEN: usize = 8 + 32 + 8 + 2 + 4 + 4 + 8 + 1 + 50 + 8 + 1 + 1;

    /// What the stake and the history of the validator say of its eligibility.
    pub open spec fn spec_standing(self, min_stake: u64) -> Standing {
        if !self.is_active || self.stake_amount < min_stake {
            Standing::Ineligible
        } else if self.total_resolutions == 0 {
            Standing::Newcomer
        } else {
            Standing::Established
        }
    }

    /// Tells what the stake and the history of the validator say of its
    /// eligibility. A newcomer is eligible; an established validator is
    /// eligible if the share of its right resolutions is high enough.
    pub fn standing(&self, min_stake: u64) -> (standing: Standing)
        ensures
            standing == self.spec_standing(min_stake),
    {
        if !self.is_active || self.stake_amount < min_stake {
            Standing::Ineligible
        } else if self.total_resolutions == 0 {
            Standing::Newcomer
        } else {
            Standing::Established
        }
    }
}

/// A dispute against a proposed resolution.
#[derive(Clone, Debug, PartialEq, Eq)]
pub struct OracleDispute {
    pub proposal: [u8; 32],
    pub disputer: [u8; 32],
    pub dispute_reason: String,
    pub counter_evidence_hash: [u8; 32],
    pub dispute_timestamp: i64,
    pub dispute_bond: u64,
    pub is_resolved: bool,
    pub was_valid: Option<bool>,
    pub bump: u8,
}

impl OracleDispute {
    /// Size of a stored dispute in bytes.
    pub const LEN: usize = 8 + 32 + 32 + 500 + 32 + 8 + 8 + 1 + 1 + 1;
}

} // verus!
