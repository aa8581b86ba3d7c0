//! The coordinator of a market with open votes: choice, stake and estimate
//! are public, the stakes of both sides are kept in the clear, and a claim
//! computes the payout on the spot and updates the voter's record.
//!
//! The caller reads the clock and the addresses and emits the events. A
//! refused request leaves every record as it was.

use vstd::prelude::*;
use vstd::utf8::encode_utf8;
use crate::computation::same_address;

verus! {

pub use crate::ledger::{MarketCategory, MarketStatus, UserProfile, STARTING_REPUTATION};

/// What a voter chose.
#[derive(Clone, Copy, Debug, PartialEq, Eq, Structural)]
pub enum VoteChoice {
    Yes,
    No,
    /// No vote.
    Skip,
}

/// A market with open votes. Texts are kept in fixed fields, zero-filled
/// behind their last byte.
#[derive(Clone, Copy, Debug, PartialEq, Eq)]
pub struct PredictionMarket {
    pub market_id: u64,
    pub creator: [u8; 32],
    pub title: [u8; 200],
    pub description: [u8; 1000],
    pub image_url: [u8; 200],
    pub category: MarketCategory,
    pub status: MarketStatus,
    pub created_at: i64,
    pub voting_ends_at: i64,
    pub resolution_timestamp: i64,
    pub total_stake: u64,
    pub yes_stake: u64,
    pub no_stake: u64,
    pub participant_count: u32,
    pub oracle_pubkey: [u8; 32],
    pub resolved_outcome: Option<bool>,
    /// What the oracle attached to the resolution.
    pub resolution_data: [u8; 500],
    pub bump: u8,
}

/// One voter's open position in one market.
#[derive(Clone, Copy, Debug, PartialEq, Eq)]
pub struct UserPosition {
    pub user: [u8; 32],
    pub market: [u8; 32],
    pub vote_choice: VoteChoice,
    pub stake_amount: u64,
    pub predicted_probability: u8,
    pub timestamp: i64,
    pub is_claimed: bool,
    pub payout_amount: u64,
    pub computation_id: [u8; 32],
    pub bump: u8,
}

/// Recent figures of a market.
#[derive(Clone, Copy, Debug, PartialEq, Eq)]
pub struct MarketStats {
    pub market: [u8; 32],
    /// Volume of each of the last 24 hours.
    pub hourly_volume: [u64; 24],
    /// Participants of each of the last 7 days.
    pub daily_participants: [u16; 7],
    /// The last 100 probabilities.
    pub probability_history: [u8; 100],
    pub last_updated: i64,
    pub bump: u8,
}

#[derive(Clone, Debug, PartialEq, Eq)]
pub struct MarketCreatedEvent {
    pub market_id: u64,
    pub creator: [u8; 32],
    pub title: String,
    pub category: u8,
    pub voting_ends_at: i64,
    pub timestamp: i64,
}

#[derive(Clone, Copy, Debug, PartialEq, Eq)]
pub struct VoteSubmittedEvent {
    pub market_id: u64,
    pub user: [u8; 32],
    pub stake_amount: u64,
    pub timestamp: i64,
}

#[derive(Clone, Copy, Debug, PartialEq, Eq)]
pub struct MarketResolvedEvent {
    pub market_id: u64,
    pub outcome: bool,
    pub resolution_timestamp: i64,
}

#[derive(Clone, Copy, Debug, PartialEq, Eq)]
pub struct PayoutCalculatedEvent {
    pub market_id: u64,
    pub user: [u8; 32],
    pub payout_amount: u64,
    pub was_correct: bool,
}

/// Why the coordinator refused a request.
#[derive(Clone, Copy, Debug, PartialEq, Eq, Structural)]
pub enum ErrorCode {
    TitleTooLong,
    DescriptionTooLong,
    ImageUrlTooLong,
    InvalidEndTime,
    MarketNotActive,
    VotingPeriodEnded,
    InvalidStakeAmount,
    InvalidProbability,
    InvalidOracle,
    CannotResolveMarket,
    MarketNotResolved,
    PayoutAlreadyClaimed,
    /// A counter, a sum of stakes or a score would leave its range.
    ArithmeticOverflow,
}

impl ErrorCode {
    /// The message that goes with the error.
    pub open spec fn spec_message(self) -> Seq<char> {
        match self {
            ErrorCode::TitleTooLong => "Title is too long (max 200 chars)"@,
            ErrorCode::DescriptionTooLong => "Description is too long (max 1000 chars)"@,
            ErrorCode::ImageUrlTooLong => "Image URL is too long (max 200 chars)"@,
            ErrorCode::InvalidEndTime => "Invalid end time"@,
            ErrorCode::MarketNotActive => "Market is not active"@,
            ErrorCode::VotingPeriodEnded => "Voting period has ended"@,
            ErrorCode::InvalidStakeAmount => "Invalid stake amount"@,
            ErrorCode::InvalidProbability => "Invalid probability value"@,
            ErrorCode::InvalidOracle => "Invalid oracle"@,
            ErrorCode::CannotResolveMarket => "Cannot resolve market in current state"@,
            ErrorCode::MarketNotResolved => "Market not resolved"@,
            ErrorCode::PayoutAlreadyClaimed => "Payout already claimed"@,
            ErrorCode::ArithmeticOverflow => "Arithmetic overflow"@,
        }
    }

    /// The message that goes with the error.
    pub fn message(&self) -> (message: &'static str)
        ensures
            message@ == self.spec_message(),
    {
        match self {
            ErrorCode::TitleTooLong => "Title is too long (max 200 chars)",
            ErrorCode::DescriptionTooLong => "Description is too long (max 1000 chars)",
            ErrorCode::ImageUrlTooLong => "Image URL is too long (max 200 chars)",
            ErrorCode::InvalidEndTime => "Invalid end time",
            ErrorCode::MarketNotActive => "Market is not active",
            ErrorCode::VotingPeriodEnded => "Voting period has ended",
            ErrorCode::InvalidStakeAmount => "Invalid stake amount",
            ErrorCode::InvalidProbability => "Invalid probability value",
            ErrorCode::InvalidOracle => "Invalid oracle",
            ErrorCode::CannotResolveMarket => "Cannot resolve market in current state",
            ErrorCode::MarketNotResolved => "Market not resolved",
            ErrorCode::PayoutAlreadyClaimed => "Payout already claimed",
            ErrorCode::ArithmeticOverflow => "Arithmetic overflow",
        }
    }
}

/// `bytes` written over the front of `field`: where `bytes` has a byte it
/// stands, behind it `field` is kept. Bytes of `bytes` beyond the field are
/// dropped.
pub open spec fn overlay(field: Seq<u8>, bytes: Seq<u8>) -> Seq<u8> {
    Seq::new(
        field.len(),
        |i: int|
            if i < bytes.len() {
                bytes[i]
            } else {
                field[i]
            },
    )
}

/// `n` zero bytes.
pub open spec fn zeros(n: nat) -> Seq<u8> {
    Seq::new(n, |i: int| 0u8)
}

/// Writes `bytes` over the front of a field of 200 bytes.
fn overlay_200(field: &mut [u8; 200], bytes: &[u8])
    ensures
        final(field)@ == overlay(old(field)@, bytes@),
{
    let n: usize = if bytes.len() < 200 {
        bytes.len()
    } else {
        200
    };
    let mut i: usize = 0;
    while i < n
        invariant
            i <= n <= 200,
            n <= bytes@.len(),
            n == bytes@.len() || n == 200,
            field@.len() == 200,
            forall|k: int| 0 <= k < i ==> field@[k] == bytes@[k],
            forall|k: int| i <= k < 200 ==> field@[k] == old(field)@[k],
        decreases n - i,
    {
        field[i] = bytes[i];
        i += 1;
    }
    assert(field@ =~= overlay(old(field)@, bytes@));
}

/// Writes `bytes` over the front of a field of 1000 bytes.
fn overlay_1000(field: &mut [u8; 1000], bytes: &[u8])
    ensures
        final(field)@ == overlay(old(field)@, bytes@),
{
    let n: usize = if bytes.len() < 1000 {
        bytes.len()
    } else {
        1000
    };
    let mut i: usize = 0;
    while i < n
        invariant
            i <= n <= 1000,
            n <= bytes@.len(),
            n == bytes@.len() || n == 1000,
            field@.len() == 1000,
            forall|k: int| 0 <= k < i ==> field@[k] == bytes@[k],
            forall|k: int| i <= k < 1000 ==> field@[k] == old(field)@[k],
        decreases n - i,
    {
        field[i] = bytes[i];
        i += 1;
    }
    assert(field@ =~= overlay(old(field)@, bytes@));
}

/// Writes `bytes` over the front of a field of 500 bytes.
fn overlay_500(field: &mut [u8; 500], bytes: &[u8])
    ensures
        final(field)@ == overlay(old(field)@, bytes@),
{
    let n: usize = if bytes.len() < 500 {
        bytes.len()
    } else {
        500
    };
    let mut i: usize = 0;
    while i < n
        invariant
            i <= n <= 500,
            n <= bytes@.len(),
            n == bytes@.len() || n == 500,
            field@.len() == 500,
            forall|k: int| 0 <= k < i ==> field@[k] == bytes@[k],
            forall|k: int| i <= k < 500 ==> field@[k] == old(field)@[k],
        decreases n - i,
    {
        field[i] = bytes[i];
        i += 1;
    }
    assert(field@ =~= overlay(old(field)@, bytes@));
}

/// Why a market with these texts and this end of voting cannot be created at
/// time `now`, if it cannot: the first of the four conditions that fails.
pub open spec fn create_market_error(
    title: Seq<char>,
    description: Seq<char>,
    image_url: Seq<char>,
    voting_ends_at: i64,
    now: i64,
) -> Option<ErrorCode> {
    if encode_utf8(title).len() > 200 {
        Some(ErrorCode::TitleTooLong)
    } else if encode_utf8(description).len() > 1000 {
        Some(ErrorCode::DescriptionTooLong)
    } else if encode_utf8(image_url).len() > 200 {
        Some(ErrorCode::ImageUrlTooLong)
    } else if voting_ends_at <= now {
        Some(ErrorCode::InvalidEndTime)
    } else {
        None
    }
}

/// Creates a market that accepts votes until `voting_ends_at`.
///
/// Refused with the first that applies: a title of more than 200 bytes, a
/// description of more than 1000 bytes, an image address of more than 200
/// bytes, an end of voting that is not after `now`. The new market is active,
/// has no outcome, no stake and no participant; each text stands at the front
/// of its field, with zeros behind it.
pub fn create_market(
    creator: [u8; 32],
    oracle: [u8; 32],
    bump: u8,
    now: i64,
    market_id: u64,
    title: String,
    description: String,
    image_url: String,
    category: MarketCategory,
    voting_ends_at: i64,
) -> (result: Result<(PredictionMarket, MarketCreatedEvent), ErrorCode>)
    ensures
        result is Err <==> create_market_error(title@, description@, image_url@, voting_ends_at, now)
            is Some,
        result matches Err(e) ==> Some(e) == create_market_error(
            title@,
            description@,
            image_url@,
            voting_ends_at,
            now,
        ),
        result matches Ok((market, event)) ==> {
            &&& market.market_id == market_id
            &&& market.creator == creator
            &&& market.title@ == overlay(zeros(200), encode_utf8(title@))
            &&& market.description@ == overlay(zeros(1000), encode_utf8(description@))
            &&& market.image_url@ == overlay(zeros(200), encode_utf8(image_url@))
            &&& market.category == category
            &&& market.status == MarketStatus::Active
            &&& market.created_at == now
            &&& market.voting_ends_at == voting_ends_at
            &&& market.resolution_timestamp == 0
            &&& market.total_stake == 0
            &&& market.yes_stake == 0
            &&& market.no_stake == 0
            &&& market.participant_count == 0
            &&& market.oracle_pubkey == oracle
            &&& market.resolved_outcome is None
            &&& market.resolution_data@ == zeros(500)
            &&& market.bump == bump
            &&& event.market_id == market_id
            &&& event.creator == creator
            &&& event.title@ == title@
            &&& event.category == category.spec_code()
            &&& event.voting_ends_at == voting_ends_at
            &&& event.timestamp == now
        },
{
    let title_slice: &[u8] = title.as_str().as_bytes();
    let desc_slice: &[u8] = description.as_str().as_bytes();
    let url_slice: &[u8] = image_url.as_str().as_bytes();
    if title_slice.len() > 200 {
        return Err(ErrorCode::TitleTooLong);
    }
    if desc_slice.len() > 1000 {
        return Err(ErrorCode::DescriptionTooLong);
    }
    if url_slice.len() > 200 {
        return Err(ErrorCode::ImageUrlTooLong);
    }
    if voting_ends_at <= now {
        return Err(ErrorCode::InvalidEndTime);
    }
    let mut title_field: [u8; 200] = [0u8; 200];
    let mut description_field: [u8; 1000] = [0u8; 1000];
    let mut image_url_field: [u8; 200] = [0u8; 200];
    let resolution_data: [u8; 500] = [0u8; 500];
    proof {
        assert(title_field@ =~= zeros(200));
        assert(description_field@ =~= zeros(1000));
        assert(image_url_field@ =~= zeros(200));
        assert(resolution_data@ =~= zeros(500));
    }
    overlay_200(&mut title_field, title_slice);
    overlay_1000(&mut description_field, desc_slice);
    overlay_200(&mut image_url_field, url_slice);
    let event = MarketCreatedEvent {
        market_id,
        creator,
        title: title.clone(),
        category: category.code(),
        voting_ends_at,
        timestamp: now,
    };
    let market = PredictionMarket {
        market_id,
        creator,
        title: title_field,
        description: description_field,
        image_url: image_url_field,
        category,
        status: MarketStatus::Active,
        created_at: now,
        voting_ends_at,
        resolution_timestamp: 0,
        total_stake: 0,
        yes_stake: 0,
        no_stake: 0,
        participant_count: 0,
        oracle_pubkey: oracle,
        resolved_outcome: None,
        resolution_data,
        bump,
    };
    Ok((market, event))
}

/// Opens the record of a voter: nothing participated, nothing won, the
/// starting reputation, last active at `now`.
pub fn initialize_user_profile(user: [u8; 32], bump: u8, now: i64) -> (profile: UserProfile)
    ensures
        profile.user == user,
        profile.total_markets_participated == 0,
        profile.correct_predictions == 0,
        profile.total_winnings == 0,
        profile.reputation_score == STARTING_REPUTATION,
        profile.streak_current == 0,
        profile.streak_best == 0,
        profile.last_activity == now,
        profile.achievements@ == zeros(32),
        profile.preferred_categories == 0,
        profile.bump == bump,
{
    let achievements: [u8; 32] = [0u8; 32];
    assert(achievements@ =~= zeros(32));
    UserProfile {
        user,
        total_markets_participated: 0,
        correct_predictions: 0,
        total_winnings: 0,
        reputation_score: STARTING_REPUTATION,
        streak_current: 0,
        streak_best: 0,
        last_activity: now,
        achievements,
        preferred_categories: 0,
        bump,
    }
}

/// A counter or a stake total that the vote adds to is at its limit: the
/// participants or the total stake of the market, the stake of the side that
/// the vote takes, or the markets of the profile.
pub open spec fn vote_overflows(
    market: PredictionMarket,
    profile: UserProfile,
    stake_amount: u64,
    vote_choice: VoteChoice,
) -> bool {
    ||| market.participant_count == u32::MAX
    ||| market.total_stake + stake_amount > u64::MAX
    ||| vote_choice == VoteChoice::Yes && market.yes_stake + stake_amount > u64::MAX
    ||| vote_choice == VoteChoice::No && market.no_stake + stake_amount > u64::MAX
    ||| profile.total_markets_participated == u32::MAX
}

/// Why an open vote cannot be admitted at time `now`, if it cannot: the
/// market is not active, voting has ended, the stake is zero, the estimate is
/// above 100, or a counter or a stake total is at its limit.
pub open spec fn vote_error(
    market: PredictionMarket,
    profile: UserProfile,
    now: i64,
    stake_amount: u64,
    vote_choice: VoteChoice,
    predicted_probability: u8,
) -> Option<ErrorCode> {
    if market.status != MarketStatus::Active {
        Some(ErrorCode::MarketNotActive)
    } else if now >= market.voting_ends_at {
        Some(ErrorCode::VotingPeriodEnded)
    } else if stake_amount == 0 {
        Some(ErrorCode::InvalidStakeAmount)
    } else if predicted_probability > 100 {
        Some(ErrorCode::InvalidProbability)
    } else if vote_overflows(market, profile, stake_amount, vote_choice) {
        Some(ErrorCode::ArithmeticOverflow)
    } else {
        None
    }
}

/// The market after an open vote: one more participant, the stake added to
/// the total and to the side that the vote takes.
pub open spec fn market_after_vote(
    market: PredictionMarket,
    stake_amount: u64,
    vote_choice: VoteChoice,
) -> PredictionMarket {
    PredictionMarket {
        participant_count: (market.participant_count + 1) as u32,
        total_stake: (market.total_stake + stake_amount) as u64,
        yes_stake: if vote_choice == VoteChoice::Yes {
            (market.yes_stake + stake_amount) as u64
        } else {
            market.yes_stake
        },
        no_stake: if vote_choice == VoteChoice::No {
            (market.no_stake + stake_amount) as u64
        } else {
            market.no_stake
        },
        ..market
    }
}

/// Admits an open vote to a market.
///
/// On success the voter has a new position that is not claimed, the market
/// counts one more participant and the stake, on the total and on the side of
/// the vote, and the profile counts one more market. On refusal nothing
/// changes.
pub fn submit_public_vote(
    market: &mut PredictionMarket,
    profile: &mut UserProfile,
    user: [u8; 32],
    market_key: [u8; 32],
    position_bump: u8,
    now: i64,
    stake_amount: u64,
    vote_choice: VoteChoice,
    predicted_probability: u8,
) -> (result: Result<(UserPosition, VoteSubmittedEvent), ErrorCode>)
    ensures
        result is Err <==> vote_error(
            *old(market),
            *old(profile),
            now,
            stake_amount,
            vote_choice,
            predicted_probability,
        ) is Some,
        result matches Err(e) ==> {
            &&& Some(e) == vote_error(
                *old(market),
                *old(profile),
                now,
                stake_amount,
                vote_choice,
                predicted_probability,
            )
            &&& *final(market) == *old(market)
            &&& *final(profile) == *old(profile)
        },
        result matches Ok((position, event)) ==> {
            &&& position.user == user
            &&& position.market == market_key
            &&& position.vote_choice == vote_choice
            &&& position.stake_amount == stake_amount
            &&& position.predicted_probability == predicted_probability
            &&& position.timestamp == now
            &&& !position.is_claimed
            &&& position.payout_amount == 0
            &&& position.computation_id@ == zeros(32)
            &&& position.bump == position_bump
            &&& event == (VoteSubmittedEvent {
                market_id: old(market).market_id,
                user,
                stake_amount,
                timestamp: now,
            })
            &&& *final(market) == market_after_vote(*old(market), stake_amount, vote_choice)
            &&& *final(profile) == (UserProfile {
                total_markets_participated: (old(profile).total_markets_participated + 1) as u32,
                last_activity: now,
                ..*old(profile)
            })
        },
{
    if market.status != MarketStatus::Active {
        return Err(ErrorCode::MarketNotActive);
    }
    if now >= market.voting_ends_at {
        return Err(ErrorCode::VotingPeriodEnded);
    }
    if stake_amount == 0 {
        return Err(ErrorCode::InvalidStakeAmount);
    }
    if predicted_probability > 100 {
        return Err(ErrorCode::InvalidProbability);
    }
    let participant_count: u32 = match market.participant_count.checked_add(1) {
        Some(n) => n,
        None => { return Err(ErrorCode::ArithmeticOverflow); },
    };
    let total_stake: u64 = match market.total_stake.checked_add(stake_amount) {
        Some(n) => n,
        None => { return Err(ErrorCode::ArithmeticOverflow); },
    };
    let mut yes_stake: u64 = market.yes_stake;
    let mut no_stake: u64 = market.no_stake;
    match vote_choice {
        VoteChoice::Yes => {
            yes_stake = match market.yes_stake.checked_add(stake_amount) {
                Some(n) => n,
                None => { return Err(ErrorCode::ArithmeticOverflow); },
            };
        },
        VoteChoice::No => {
            no_stake = match market.no_stake.checked_add(stake_amount) {
                Some(n) => n,
                None => { return Err(ErrorCode::ArithmeticOverflow); },
            };
        },
        VoteChoice::Skip => {},
    }
    let participated: u32 = match profile.total_markets_participated.checked_add(1) {
        Some(n) => n,
        None => { return Err(ErrorCode::ArithmeticOverflow); },
    };
    let computation_id: [u8; 32] = [0u8; 32];
    assert(computation_id@ =~= zeros(32));
    let position = UserPosition {
        user,
        market: market_key,
        vote_choice,
        stake_amount,
        predicted_probability,
        timestamp: now,
        is_claimed: false,
        payout_amount: 0,
        computation_id,
        bump: position_bump,
    };
    market.participant_count = participant_count;
    market.total_stake = total_stake;
    market.yes_stake = yes_stake;
    market.no_stake = no_stake;
    profile.total_markets_participated = participated;
    profile.last_activity = now;
    let event = VoteSubmittedEvent { market_id: market.market_id, user, stake_amount, timestamp: now };
    Ok((position, event))
}

/// Why the market cannot be resolved by this oracle, if it cannot.
pub open spec fn resolution_error(market: PredictionMarket, oracle: [u8; 32]) -> Option<ErrorCode> {
    if oracle != market.oracle_pubkey {
        Some(ErrorCode::InvalidOracle)
    } else if market.status != MarketStatus::Active && market.status != MarketStatus::Locked {
        Some(ErrorCode::CannotResolveMarket)
    } else {
        None
    }
}

/// Resolves a market with the outcome that its oracle reports, and keeps what
/// the oracle attached.
///
/// Refused with `InvalidOracle` for any other oracle, and with
/// `CannotResolveMarket` unless the market is active or locked. The attached
/// data is written over the front of the market's field for it; what does not
/// fit into the 500 bytes is dropped.
pub fn resolve_market(
    market: &mut PredictionMarket,
    oracle: [u8; 32],
    outcome: bool,
    resolution_data: &[u8],
    now: i64,
) -> (result: Result<MarketResolvedEvent, ErrorCode>)
    ensures
        result is Err <==> resolution_error(*old(market), oracle) is Some,
        result matches Err(e) ==> {
            &&& Some(e) == resolution_error(*old(market), oracle)
            &&& *final(market) == *old(market)
        },
        result matches Ok(event) ==> {
            &&& final(market).status == MarketStatus::Resolved
            &&& final(market).resolved_outcome == Some(outcome)
            &&& final(market).resolution_timestamp == now
            &&& final(market).resolution_data@ == overlay(
                old(market).resolution_data@,
                resolution_data@,
            )
            &&& *final(market) == (PredictionMarket {
                status: final(market).status,
                resolved_outcome: final(market).resolved_outcome,
                resolution_timestamp: final(market).resolution_timestamp,
                resolution_data: final(market).resolution_data,
                ..*old(market)
            })
            &&& event == (MarketResolvedEvent {
                market_id: old(market).market_id,
                outcome,
                resolution_timestamp: now,
            })
        },
{
    if !same_address(&oracle, &market.oracle_pubkey) {
        return Err(ErrorCode::InvalidOracle);
    }
    if !(market.status == MarketStatus::Active || market.status == MarketStatus::Locked) {
        return Err(ErrorCode::CannotResolveMarket);
    }
    let mut data: [u8; 500] = market.resolution_data;
    overlay_500(&mut data, resolution_data);
    market.status = MarketStatus::Resolved;
    market.resolved_outcome = Some(outcome);
    market.resolution_timestamp = now;
    market.resolution_data = data;
    Ok(MarketResolvedEvent { market_id: market.market_id, outcome, resolution_timestamp: now })
}

/// The voter chose the outcome that came. A voter who skipped never did.
pub open spec fn predicted_correctly(choice: VoteChoice, outcome: bool) -> bool {
    match choice {
        VoteChoice::Yes => outcome,
        VoteChoice::No => !outcome,
        VoteChoice::Skip => false,
    }
}

/// What the market owes the position: nothing without an outcome or for a
/// wrong or skipped vote; for a right vote the stake and, where the winning
/// side has any stake, a share of the losing side's stake in proportion.
pub open spec fn owed(market: PredictionMarket, position: UserPosition) -> nat {
    match market.resolved_outcome {
        Some(outcome) => if predicted_correctly(position.vote_choice, outcome) {
            let winning = if outcome {
                market.yes_stake
            } else {
                market.no_stake
            };
            let losing = if outcome {
                market.no_stake
            } else {
                market.yes_stake
            };
            if winning > 0 {
                position.stake_amount as nat + (position.stake_amount as nat * losing as nat)
                    / winning as nat
            } else {
                position.stake_amount as nat
            }
        } else {
            0
        },
        None => 0,
    }
}

/// The share of right predictions in whole percent, 50 for a voter who has
/// not taken part in any market.
pub open spec fn accuracy(correct_predictions: nat, total_markets_participated: nat) -> nat {
    if total_markets_participated > 0 {
        correct_predictions * 100 / total_markets_participated
    } else {
        50
    }
}

/// The reputation of a voter: ten points per percent of accuracy, the
/// accuracy taken in sixteen bits, and five points per vote of the current
/// streak.
pub open spec fn reputation(
    correct_predictions: nat,
    total_markets_participated: nat,
    streak_current: nat,
) -> nat {
    (accuracy(correct_predictions, total_markets_participated) % 0x1_0000) * 10 + streak_current
        * 5
}

/// The voter's record after a claim on a vote that took a side.
pub open spec fn profile_after_claim(
    profile: UserProfile,
    payout: nat,
    was_correct: bool,
) -> UserProfile {
    let correct: nat = if was_correct {
        profile.correct_predictions as nat + 1
    } else {
        profile.correct_predictions as nat
    };
    let streak: nat = if was_correct {
        profile.streak_current as nat + 1
    } else {
        0
    };
    UserProfile {
        total_winnings: (profile.total_winnings + payout) as u64,
        correct_predictions: correct as u32,
        streak_current: streak as u16,
        streak_best: if streak > profile.streak_best {
            streak as u16
        } else {
            profile.streak_best
        },
        reputation_score: reputation(correct, profile.total_markets_participated as nat, streak)
            as u16,
        ..profile
    }
}

/// A figure of the claim leaves the range of the integer that stores it: the
/// payout, the winnings, and for a vote that took a side the count of right
/// predictions, a hundred times that count where the voter has taken part in
/// a market, the streak or the reputation.
pub open spec fn claim_overflows(
    market: PredictionMarket,
    position: UserPosition,
    profile: UserProfile,
) -> bool {
    let payout = owed(market, position);
    let was_correct = market.resolved_outcome is Some && predicted_correctly(
        position.vote_choice,
        market.resolved_outcome->0,
    );
    let correct: nat = if was_correct {
        profile.correct_predictions as nat + 1
    } else {
        profile.correct_predictions as nat
    };
    let streak: nat = if was_correct {
        profile.streak_current as nat + 1
    } else {
        0
    };
    ||| payout > u64::MAX
    ||| profile.total_winnings + payout > u64::MAX
    ||| (position.vote_choice != VoteChoice::Skip && {
        ||| correct > u32::MAX
        ||| streak > u16::MAX
        ||| profile.total_markets_participated > 0 && correct * 100 > u32::MAX
        ||| reputation(correct, profile.total_markets_participated as nat, streak) > u16::MAX
    })
}

/// Why the position cannot be paid from this market, if it cannot. The market
/// must be resolved, the position must not have been claimed, and every
/// figure must stay in its range.
pub open spec fn claim_error(
    market: PredictionMarket,
    position: UserPosition,
    profile: UserProfile,
) -> Option<ErrorCode> {
    if market.status != MarketStatus::Resolved {
        Some(ErrorCode::MarketNotResolved)
    } else if position.is_claimed {
        Some(ErrorCode::PayoutAlreadyClaimed)
    } else if claim_overflows(market, position, profile) {
        Some(ErrorCode::ArithmeticOverflow)
    } else {
        None
    }
}

/// Pays out a position and updates the voter's record.
///
/// Refused as [`claim_error`] says; on refusal nothing changes. The payout
/// is what [`owed`] says, the position is marked as claimed, and the payout
/// is added to the voter's winnings. For a vote that took a side the record
/// of right predictions, the streak and the reputation are brought up to date
/// and an event is returned; for a skipped vote they are left alone and no
/// event is returned.
pub fn claim_payout(
    market: &PredictionMarket,
    position: &mut UserPosition,
    profile: &mut UserProfile,
) -> (result: Result<Option<PayoutCalculatedEvent>, ErrorCode>)
    ensures
        result is Err <==> claim_error(*market, *old(position), *old(profile)) is Some,
        result matches Err(e) ==> {
            &&& Some(e) == claim_error(*market, *old(position), *old(profile))
            &&& *final(position) == *old(position)
            &&& *final(profile) == *old(profile)
        },
        result matches Ok(event) ==> {
            let was_correct = market.resolved_outcome is Some && predicted_correctly(
                old(position).vote_choice,
                market.resolved_outcome->0,
            );
            &&& *final(position) == (UserPosition {
                payout_amount: owed(*market, *old(position)) as u64,
                is_claimed: true,
                ..*old(position)
            })
            &&& old(position).vote_choice == VoteChoice::Skip ==> {
                &&& event is None
                &&& *final(profile) == (UserProfile {
                    total_winnings: (old(profile).total_winnings + owed(*market, *old(position)))
                        as u64,
                    ..*old(profile)
                })
            }
            &&& old(position).vote_choice != VoteChoice::Skip ==> {
                &&& event == Some(
                    PayoutCalculatedEvent {
                        market_id: market.market_id,
                        user: old(position).user,
                        payout_amount: owed(*market, *old(position)) as u64,
                        was_correct,
                    },
                )
                &&& *final(profile) == profile_after_claim(
                    *old(profile),
                    owed(*market, *old(position)),
                    was_correct,
                )
            }
        },
{
    if market.status != MarketStatus::Resolved {
        return Err(ErrorCode::MarketNotResolved);
    }
    if position.is_claimed {
        return Err(ErrorCode::PayoutAlreadyClaimed);
    }
    let was_correct: bool = match market.resolved_outcome {
        Some(outcome) => match position.vote_choice {
            VoteChoice::Yes => outcome,
            VoteChoice::No => !outcome,
            VoteChoice::Skip => false,
        },
        None => false,
    };
    let payout_wide: u128 = if was_correct {
        let outcome: bool = match market.resolved_outcome {
            Some(outcome) => outcome,
            None => false,
        };
        let winning_stake: u64 = if outcome {
            market.yes_stake
        } else {
            market.no_stake
        };
        let losing_stake: u64 = if outcome {
            market.no_stake
        } else {
            market.yes_stake
        };
        if winning_stake > 0 {
            assert(position.stake_amount as nat * losing_stake as nat <= 0xffff_ffff_ffff_ffff
                * 0xffff_ffff_ffff_ffff) by (nonlinear_arith)
                requires
                    position.stake_amount <= 0xffff_ffff_ffff_ffff,
                    losing_stake <= 0xffff_ffff_ffff_ffff,
            ;
            assert((position.stake_amount as nat * losing_stake as nat) / winning_stake as nat
                <= position.stake_amount as nat * losing_stake as nat) by (nonlinear_arith)
                requires
                    winning_stake > 0,
            ;
            let stake: u128 = position.stake_amount as u128;
            stake + (stake * (losing_stake as u128)) / (winning_stake as u128)
        } else {
            position.stake_amount as u128
        }
    } else {
        0
    };
    assert(payout_wide == owed(*market, *position));
    if payout_wide > u64::MAX as u128 {
        return Err(ErrorCode::ArithmeticOverflow);
    }
    let payout_amount: u64 = payout_wide as u64;
    let total_winnings: u64 = match profile.total_winnings.checked_add(payout_amount) {
        Some(n) => n,
        None => { return Err(ErrorCode::ArithmeticOverflow); },
    };
    match position.vote_choice {
        VoteChoice::Skip => {
            position.payout_amount = payout_amount;
            position.is_claimed = true;
            profile.total_winnings = total_winnings;
            return Ok(None);
        },
        _ => {},
    }
    let mut correct_predictions: u32 = profile.correct_predictions;
    let mut streak_current: u16 = 0;
    let mut streak_best: u16 = profile.streak_best;
    if was_correct {
        correct_predictions = match profile.correct_predictions.checked_add(1) {
            Some(n) => n,
            None => { return Err(ErrorCode::ArithmeticOverflow); },
        };
        streak_current = match profile.streak_current.checked_add(1) {
            Some(n) => n,
            None => { return Err(ErrorCode::ArithmeticOverflow); },
        };
        if streak_current > streak_best {
            streak_best = streak_current;
        }
    }
    let accuracy_now: u32 = if profile.total_markets_participated > 0 {
        match correct_predictions.checked_mul(100) {
            Some(n) => n / profile.total_markets_participated,
            None => { return Err(ErrorCode::ArithmeticOverflow); },
        }
    } else {
        50
    };
    let accuracy_low: u32 = accuracy_now % 0x1_0000;
    let reputation_wide: u32 = accuracy_low * 10 + (streak_current as u32) * 5;
    if reputation_wide > u16::MAX as u32 {
        return Err(ErrorCode::ArithmeticOverflow);
    }
    position.payout_amount = payout_amount;
    position.is_claimed = true;
    profile.total_winnings = total_winnings;
    profile.correct_predictions = correct_predictions;
    profile.streak_current = streak_current;
    profile.streak_best = streak_best;
    profile.reputation_score = reputation_wide as u16;
    Ok(
        Some(
            PayoutCalculatedEvent {
                market_id: market.market_id,
                user: position.user,
                payout_amount,
                was_correct,
            },
        ),
    )
}

/// A payout is claimed at most once: a position that went through a claim is
/// refused from then on with `PayoutAlreadyClaimed`, whatever the voter's
/// record holds.
pub proof fn lemma_claim_at_most_once(
    market: PredictionMarket,
    position: UserPosition,
    profile: UserProfile,
    later_profile: UserProfile,
)
    requires
        claim_error(market, position, profile) is None,
    ensures
        claim_error(
            market,
            UserPosition {
                payout_amount: owed(market, position) as u64,
                is_claimed: true,
                ..position
            },
            later_profile,
        ) == Some(ErrorCode::PayoutAlreadyClaimed),
{
}

/// A voter who was wrong, or who skipped, is owed nothing.
pub proof fn lemma_wrong_vote_is_owed_nothing(market: PredictionMarket, position: UserPosition)
    requires
        market.resolved_outcome matches Some(outcome) && !predicted_correctly(
            position.vote_choice,
            outcome,
        ),
    ensures
        owed(market, position) == 0,
{
}

} // verus!
