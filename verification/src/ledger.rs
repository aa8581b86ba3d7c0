//! The records that the coordinator keeps on the ledger, the events it emits
//! and the errors it answers with.

use vstd::prelude::*;

verus! {

/// Where a market stands in its life.
#[derive(Clone, Copy, Debug, PartialEq, Eq, Structural)]
pub enum MarketStatus {
    /// Accepting votes.
    Active,
    /// Voting closed, awaiting resolution.
    Locked,
    /// Outcome determined.
    Resolved,
    /// Payouts distributed.
    Settled,
    Cancelled,
}

/// The subject of a market.
#[derive(Clone, Copy, Debug, PartialEq, Eq, Structural)]
pub enum MarketCategory {
    Sports,
    Politics,
    Economics,
    Technology,
    Entertainment,
    Weather,
    Custom,
}

impl MarketCategory {
    /// The number that stands for the category in events.
    pub open spec fn spec_code(self) -> u8 {
        match self {
            MarketCategory::Sports => 0,
            MarketCategory::Politics => 1,
            MarketCategory::Economics => 2,
            MarketCategory::Technology => 3,
            MarketCategory::Entertainment => 4,
            MarketCategory::Weather => 5,
            MarketCategory::Custom => 99,
        }
    }

    /// The number that stands for the category in events.
    pub fn code(&self) -> (code: u8)
        ensures
            code == self.spec_code(),
    {
        match self {
            MarketCategory::Sports => 0,
            MarketCategory::Politics => 1,
            MarketCategory::Economics => 2,
            MarketCategory::Technology => 3,
            MarketCategory::Entertainment => 4,
            MarketCategory::Weather => 5,
            MarketCategory::Custom => 99,
        }
    }
}

/// How the outcome of a market is established.
#[derive(Clone, Copy, Debug, PartialEq, Eq, Structural)]
pub enum OracleType {
    /// Optimistic proposal with a challenge period, for subjective outcomes.
    UmaOptimistic,
    /// Aggregated price feeds, for objective price data.
    ChainlinkPrice,
    /// Consensus of staked validators.
    CustomValidated,
    /// Resolution by the community.
    Community,
}

impl OracleType {
    /// The number that stands for the oracle type in events.
    pub open spec fn spec_code(self) -> u8 {
        match self {
            OracleType::UmaOptimistic => 0,
            OracleType::ChainlinkPrice => 1,
            OracleType::CustomValidated => 2,
            OracleType::Community => 3,
        }
    }

    /// The number that stands for the oracle type in events.
    pub fn code(&self) -> (code: u8)
        ensures
            code == self.spec_code(),
    {
        match self {
            OracleType::UmaOptimistic => 0,
            OracleType::ChainlinkPrice => 1,
            OracleType::CustomValidated => 2,
            OracleType::Community => 3,
        }
    }
}

/// A market with its encrypted totals.
#[derive(Clone, Debug, PartialEq, Eq)]
pub struct PredictionMarket {
    pub bump: u8,
    /// The encrypted totals, one block per total.
    pub encrypted_vote_state: [[u8; 32]; 11],
    /// The nonce under which the totals were last sealed.
    pub nonce: u128,
    pub market_id: u64,
    pub creator: [u8; 32],
    pub category: MarketCategory,
    pub status: MarketStatus,
    pub created_at: i64,
    pub voting_ends_at: i64,
    pub resolution_timestamp: i64,
    pub oracle_type: OracleType,
    pub oracle_pubkey: [u8; 32],
    pub resolved_outcome: Option<bool>,
    pub total_stake: u64,
    pub yes_stake: u64,
    pub no_stake: u64,
    pub participant_count: u32,
    pub title: String,
    pub description: String,
    pub image_url: String,
}

impl PredictionMarket {
    /// A resolved market has an outcome.
    pub open spec fn is_consistent(self) -> bool {
        self.status == MarketStatus::Resolved ==> self.resolved_outcome is Some
    }
}

/// One voter's sealed position in one market.
#[derive(Clone, Copy, Debug, PartialEq, Eq)]
pub struct UserPosition {
    pub user: [u8; 32],
    pub market: [u8; 32],
    pub stake_amount: u64,
    pub timestamp: i64,
    pub is_claimed: bool,
    pub is_validated: bool,
    /// The sealed vote: market, choice, stake, estimate, conviction, time, nonce.
    pub encrypted_vote_data: [[u8; 32]; 7],
    pub vote_pubkey: [u8; 32],
    pub vote_nonce: u128,
    pub encrypted_payout: [u8; 32],
    pub payout_nonce: u128,
    pub payout_amount: u64,
    pub bump: u8,
}

/// A voter's record across markets.
#[derive(Clone, Copy, Debug, PartialEq, Eq)]
pub struct UserProfile {
    pub user: [u8; 32],
    pub total_markets_participated: u32,
    pub correct_predictions: u32,
    pub total_winnings: u64,
    pub reputation_score: u16,
    pub streak_current: u16,
    pub streak_best: u16,
    pub last_activity: i64,
    pub achievements: [u8; 32],
    pub preferred_categories: u16,
    pub bump: u8,
}

/// Reputation of a new profile.
pub const STARTING_REPUTATION: u16 = 1000;

#[derive(Clone, Debug, PartialEq, Eq)]
pub struct MarketCreatedEvent {
    pub market_id: u64,
    pub creator: [u8; 32],
    pub title: String,
    pub category: u8,
    pub oracle_type: u8,
    pub voting_ends_at: i64,
    pub timestamp: i64,
}

#[derive(Clone, Copy, Debug, PartialEq, Eq)]
pub struct VoteSubmittedEvent {
    pub market_id: u64,
    pub user: [u8; 32],
    pub stake_amount: u64,
    pub timestamp: i64,
}

#[derive(Clone, Copy, Debug, PartialEq, Eq)]
pub struct MarketResolvedEvent {
    pub market_id: u64,
    pub outcome: bool,
    pub resolution_timestamp: i64,
}

#[derive(Clone, Copy, Debug, PartialEq, Eq)]
pub struct PayoutClaimedEvent {
    pub market_id: u64,
    pub user: [u8; 32],
    pub timestamp: i64,
}

#[derive(Clone, Copy, Debug, PartialEq, Eq)]
pub struct MarketOddsUpdatedEvent {
    pub market_id: u64,
    pub timestamp: i64,
}

/// Why the coordinator refused a request.
#[derive(Clone, Copy, Debug, PartialEq, Eq, Structural)]
pub enum ErrorCode {
    TitleTooLong,
    DescriptionTooLong,
    ImageUrlTooLong,
    InvalidEndTime,
    MarketNotActive,
    VotingPeriodEnded,
    InvalidStakeAmount,
    InvalidOracle,
    CannotResolveMarket,
    MarketNotResolved,
    PayoutAlreadyClaimed,
    AbortedComputation,
    InvalidVoteData,
    InvalidEncryptedState,
    ClusterNotSet,
    /// A counter or a sum of stakes would leave its range.
    ArithmeticOverflow,
}

impl ErrorCode {
    /// The message that goes with the error.
    pub open spec fn spec_message(self) -> Seq<char> {
        match self {
            ErrorCode::TitleTooLong => "Title is too long (max 200 chars)"@,
            ErrorCode::DescriptionTooLong => "Description is too long (max 1000 chars)"@,
            ErrorCode::ImageUrlTooLong => "Image URL is too long (max 200 chars)"@,
            ErrorCode::InvalidEndTime => "Invalid end time"@,
            ErrorCode::MarketNotActive => "Market is not active"@,
            ErrorCode::VotingPeriodEnded => "Voting period has ended"@,
            ErrorCode::InvalidStakeAmount => "Invalid stake amount"@,
            ErrorCode::InvalidOracle => "Invalid oracle"@,
            ErrorCode::CannotResolveMarket => "Cannot resolve market in current state"@,
            ErrorCode::MarketNotResolved => "Market not resolved"@,
            ErrorCode::PayoutAlreadyClaimed => "Payout already claimed"@,
            ErrorCode::AbortedComputation => "The computation was aborted"@,
            ErrorCode::InvalidVoteData => "Invalid vote data"@,
            ErrorCode::InvalidEncryptedState => "Invalid encrypted state"@,
            ErrorCode::ClusterNotSet => "Cluster not set"@,
            ErrorCode::ArithmeticOverflow => "Arithmetic overflow"@,
        }
    }

    /// The message that goes with the error.
    pub fn message(&self) -> (message: &'static str)
        ensures
            message@ == self.spec_message(),
    {
        match self {
            ErrorCode::TitleTooLong => "Title is too long (max 200 chars)",
            ErrorCode::DescriptionTooLong => "Description is too long (max 1000 chars)",
            ErrorCode::ImageUrlTooLong => "Image URL is too long (max 200 chars)",
            ErrorCode::InvalidEndTime => "Invalid end time",
            ErrorCode::MarketNotActive => "Market is not active",
            ErrorCode::VotingPeriodEnded => "Voting period has ended",
            ErrorCode::InvalidStakeAmount => "Invalid stake amount",
            ErrorCode::InvalidOracle => "Invalid oracle",
            ErrorCode::CannotResolveMarket => "Cannot resolve market in current state",
            ErrorCode::MarketNotResolved => "Market not resolved",
            ErrorCode::PayoutAlreadyClaimed => "Payout already claimed",
            ErrorCode::AbortedComputation => "The computation was aborted",
            ErrorCode::InvalidVoteData => "Invalid vote data",
            ErrorCode::InvalidEncryptedState => "Invalid encrypted state",
            ErrorCode::ClusterNotSet => "Cluster not set",
            ErrorCode::ArithmeticOverflow => "Arithmetic overflow",
        }
    }
}

} // verus!
