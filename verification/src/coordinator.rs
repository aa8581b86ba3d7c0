//! The coordinator of a market with sealed votes: for each request it decides
//! whether the request is admitted, what the records hold afterwards, which
//! computation is to be queued and which event is to be emitted. Each
//! callback applies the result of a computation to the records.
//!
//! The caller reads the clock and the addresses, performs the queueing and
//! emits the events. A refused request leaves every record as it was.

use vstd::prelude::*;
use vstd::utf8::encode_utf8;
use crate::computation::{
    Argument, CallbackAccount, Circuit, ComputationDefinition, ComputationOutputs,
    QueuedComputation, SharedEncryptedStruct, VOTE_STATE_LEN, VOTE_STATE_OFFSET, same_address,
};
use crate::ledger::{
    ErrorCode, MarketCategory, MarketCreatedEvent, MarketOddsUpdatedEvent, MarketResolvedEvent,
    MarketStatus, OracleType, PayoutClaimedEvent, PredictionMarket, UserPosition, UserProfile,
    VoteSubmittedEvent, STARTING_REPUTATION,
};

verus! {

/// Longest title and longest image address, in bytes.
pub const MAX_TITLE_LEN: usize = 200;

/// Longest description, in bytes.
pub const MAX_DESCRIPTION_LEN: usize = 1000;

/// Every byte of the block is zero.
pub open spec fn is_zero_block(block: [u8; 32]) -> bool {
    forall|i: int| 0 <= i < 32 ==> block[i] == 0
}

/// The length of a text in bytes.
pub open spec fn byte_len(text: Seq<char>) -> nat {
    encode_utf8(text).len()
}

/// The registration of the vote validation circuit.
pub fn init_submit_vote_comp_def() -> (definition: ComputationDefinition)
    ensures
        definition.circuit == Circuit::SubmitPrivateVote,
        definition.finalize_during_callback,
        definition.cu_amount == 0,
        definition.circuit_source.source@ == Circuit::SubmitPrivateVote.spec_source(),
        definition.circuit_source.hash@ == Seq::new(32, |i: int| 0u8),
        definition.finalize_authority is None,
{
    Circuit::SubmitPrivateVote.definition()
}

/// The registration of the aggregation circuit.
pub fn init_aggregate_comp_def() -> (definition: ComputationDefinition)
    ensures
        definition.circuit == Circuit::AggregateMarketVotes,
        definition.finalize_during_callback,
        definition.cu_amount == 0,
        definition.circuit_source.source@ == Circuit::AggregateMarketVotes.spec_source(),
        definition.circuit_source.hash@ == Seq::new(32, |i: int| 0u8),
        definition.finalize_authority is None,
{
    Circuit::AggregateMarketVotes.definition()
}

/// The registration of the payout circuit.
pub fn init_calculate_payout_comp_def() -> (definition: ComputationDefinition)
    ensures
        definition.circuit == Circuit::CalculatePayout,
        definition.finalize_during_callback,
        definition.cu_amount == 0,
        definition.circuit_source.source@ == Circuit::CalculatePayout.spec_source(),
        definition.circuit_source.hash@ == Seq::new(32, |i: int| 0u8),
        definition.finalize_authority is None,
{
    Circuit::CalculatePayout.definition()
}

/// The registration of the odds circuit.
pub fn init_calculate_odds_comp_def() -> (definition: ComputationDefinition)
    ensures
        definition.circuit == Circuit::CalculateMarketOdds,
        definition.finalize_during_callback,
        definition.cu_amount == 0,
        definition.circuit_source.source@ == Circuit::CalculateMarketOdds.spec_source(),
        definition.circuit_source.hash@ == Seq::new(32, |i: int| 0u8),
        definition.finalize_authority is None,
{
    Circuit::CalculateMarketOdds.definition()
}

/// Why a market with these texts and this end of voting cannot be created at
/// time `now`, if it cannot: the first of the four conditions that fails.
pub open spec fn create_market_error(
    title: Seq<char>,
    description: Seq<char>,
    image_url: Seq<char>,
    voting_ends_at: i64,
    now: i64,
) -> Option<ErrorCode> {
    if byte_len(title) > MAX_TITLE_LEN {
        Some(ErrorCode::TitleTooLong)
    } else if byte_len(description) > MAX_DESCRIPTION_LEN {
        Some(ErrorCode::DescriptionTooLong)
    } else if byte_len(image_url) > MAX_TITLE_LEN {
        Some(ErrorCode::ImageUrlTooLong)
    } else if voting_ends_at <= now {
        Some(ErrorCode::InvalidEndTime)
    } else {
        None
    }
}

/// Creates a market that accepts votes until `voting_ends_at`.
///
/// Refused with the first that applies: a title of more than 200 bytes, a
/// description of more than 1000 bytes, an image address of more than 200
/// bytes, an end of voting that is not after `now`. The new market is active,
/// has no outcome, no stake and no participant, and its sealed totals are
/// zero until the first aggregation.
pub fn create_market(
    creator: [u8; 32],
    oracle: [u8; 32],
    bump: u8,
    now: i64,
    market_id: u64,
    title: String,
    description: String,
    image_url: String,
    category: MarketCategory,
    voting_ends_at: i64,
    oracle_type: OracleType,
) -> (result: Result<(PredictionMarket, MarketCreatedEvent), ErrorCode>)
    ensures
        result is Err <==> create_market_error(title@, description@, image_url@, voting_ends_at, now)
            is Some,
        result matches Err(e) ==> Some(e) == create_market_error(
            title@,
            description@,
            image_url@,
            voting_ends_at,
            now,
        ),
        result matches Ok((market, event)) ==> {
            &&& market.bump == bump
            &&& forall|k: int| 0 <= k < 11 ==> is_zero_block(#[trigger] market.encrypted_vote_state[k])
            &&& market.nonce == 0
            &&& market.market_id == market_id
            &&& market.creator == creator
            &&& market.category == category
            &&& market.status == MarketStatus::Active
            &&& market.created_at == now
            &&& market.voting_ends_at == voting_ends_at
            &&& market.resolution_timestamp == 0
            &&& market.oracle_type == oracle_type
            &&& market.oracle_pubkey == oracle
            &&& market.resolved_outcome is None
            &&& market.total_stake == 0
            &&& market.yes_stake == 0
            &&& market.no_stake == 0
            &&& market.participant_count == 0
            &&& market.title@ == title@
            &&& market.description@ == description@
            &&& market.image_url@ == image_url@
            &&& market.is_consistent()
            &&& event.market_id == market_id
            &&& event.creator == creator
            &&& event.title@ == title@
            &&& event.category == category.spec_code()
            &&& event.oracle_type == oracle_type.spec_code()
            &&& event.voting_ends_at == voting_ends_at
            &&& event.timestamp == now
        },
{
    if title.as_str().as_bytes().len() > MAX_TITLE_LEN {
        return Err(ErrorCode::TitleTooLong);
    }
    if description.as_str().as_bytes().len() > MAX_DESCRIPTION_LEN {
        return Err(ErrorCode::DescriptionTooLong);
    }
    if image_url.as_str().as_bytes().len() > MAX_TITLE_LEN {
        return Err(ErrorCode::ImageUrlTooLong);
    }
    if voting_ends_at <= now {
        return Err(ErrorCode::InvalidEndTime);
    }
    let event = MarketCreatedEvent {
        market_id,
        creator,
        title: title.clone(),
        category: category.code(),
        oracle_type: oracle_type.code(),
        voting_ends_at,
        timestamp: now,
    };
    let encrypted_vote_state: [[u8; 32]; 11] = [[0u8; 32]; 11];
    let market = PredictionMarket {
        bump,
        encrypted_vote_state,
        nonce: 0,
        market_id,
        creator,
        category,
        status: MarketStatus::Active,
        created_at: now,
        voting_ends_at,
        resolution_timestamp: 0,
        oracle_type,
        oracle_pubkey: oracle,
        resolved_outcome: None,
        total_stake: 0,
        yes_stake: 0,
        no_stake: 0,
        participant_count: 0,
        title,
        description,
        image_url,
    };
    Ok((market, event))
}

/// Opens the record of a voter: nothing participated, nothing won, the
/// starting reputation, last active at `now`.
pub fn initialize_user_profile(user: [u8; 32], bump: u8, now: i64) -> (profile: UserProfile)
    ensures
        profile.user == user,
        profile.total_markets_participated == 0,
        profile.correct_predictions == 0,
        profile.total_winnings == 0,
        profile.reputation_score == STARTING_REPUTATION,
        profile.streak_current == 0,
        profile.streak_best == 0,
        profile.last_activity == now,
        is_zero_block(profile.achievements),
        profile.preferred_categories == 0,
        profile.bump == bump,
{
    UserProfile {
        user,
        total_markets_participated: 0,
        correct_predictions: 0,
        total_winnings: 0,
        reputation_score: STARTING_REPUTATION,
        streak_current: 0,
        streak_best: 0,
        last_activity: now,
        achievements: [0u8; 32],
        preferred_categories: 0,
        bump,
    }
}

/// The arguments that carry a sealed vote to a circuit: the voter's key, the
/// nonce, and the seven sealed fields of the vote in their order.
pub open spec fn sealed_vote_args(
    vote_pubkey: [u8; 32],
    vote_nonce: u128,
    data: [[u8; 32]; 7],
) -> Seq<Argument> {
    seq![
        Argument::ArcisPubkey(vote_pubkey),
        Argument::PlaintextU128(vote_nonce),
        Argument::EncryptedU64(data[0]),
        Argument::EncryptedU8(data[1]),
        Argument::EncryptedU64(data[2]),
        Argument::EncryptedU8(data[3]),
        Argument::EncryptedU16(data[4]),
        Argument::EncryptedU64(data[5]),
        Argument::EncryptedU128(data[6]),
    ]
}

/// The arguments that point a circuit at the sealed totals of a market.
pub open spec fn market_state_args(market_nonce: u128, market_key: [u8; 32]) -> Seq<Argument> {
    seq![
        Argument::PlaintextU128(market_nonce),
        Argument::Account(market_key, VOTE_STATE_OFFSET, VOTE_STATE_LEN),
    ]
}

/// The stake on the side that won. Without an outcome of Yes the No side
/// counts as the winner.
pub open spec fn winning_stake(market: PredictionMarket) -> u64 {
    if market.resolved_outcome == Some(true) {
        market.yes_stake
    } else {
        market.no_stake
    }
}

/// The stake on the side that lost.
pub open spec fn losing_stake(market: PredictionMarket) -> u64 {
    if market.resolved_outcome == Some(true) {
        market.no_stake
    } else {
        market.yes_stake
    }
}

/// The arguments of a payout computation: the voter's key and nonce; the
/// sealed market, stake, choice, estimate and conviction of the vote; then in
/// the clear the outcome, the stake on the winning and on the losing side,
/// and the two bonus pools, a hundredth and a two-hundredth of the total
/// stake.
pub open spec fn payout_args(market: PredictionMarket, position: UserPosition) -> Seq<Argument> {
    seq![
        Argument::ArcisPubkey(position.vote_pubkey),
        Argument::PlaintextU128(position.vote_nonce),
        Argument::EncryptedU64(position.encrypted_vote_data[0]),
        Argument::EncryptedU64(position.encrypted_vote_data[2]),
        Argument::EncryptedU8(position.encrypted_vote_data[1]),
        Argument::EncryptedU8(position.encrypted_vote_data[3]),
        Argument::EncryptedU16(position.encrypted_vote_data[4]),
        Argument::PlaintextU8(
            if market.resolved_outcome == Some(true) {
                1u8
            } else {
                0u8
            },
        ),
        Argument::PlaintextU64(winning_stake(market)),
        Argument::PlaintextU64(losing_stake(market)),
        Argument::PlaintextU64(market.total_stake / 100),
        Argument::PlaintextU64(market.total_stake / 200),
    ]
}

fn build_sealed_vote_args(
    vote_pubkey: [u8; 32],
    vote_nonce: u128,
    data: &[[u8; 32]; 7],
) -> (args: Vec<Argument>)
    ensures
        args@ == sealed_vote_args(vote_pubkey, vote_nonce, *data),
{
    let args: Vec<Argument> = vec![
        Argument::ArcisPubkey(vote_pubkey),
        Argument::PlaintextU128(vote_nonce),
        Argument::EncryptedU64(data[0]),
        Argument::EncryptedU8(data[1]),
        Argument::EncryptedU64(data[2]),
        Argument::EncryptedU8(data[3]),
        Argument::EncryptedU16(data[4]),
        Argument::EncryptedU64(data[5]),
        Argument::EncryptedU128(data[6]),
    ];
    assert(args@ =~= sealed_vote_args(vote_pubkey, vote_nonce, *data));
    args
}

/// What the admission of a vote yields: the voter's new position, the
/// validation to queue and the event to emit.
#[derive(Clone, Debug, PartialEq, Eq)]
pub struct VoteSubmission {
    pub position: UserPosition,
    pub computation: QueuedComputation,
    pub event: VoteSubmittedEvent,
}

/// Why a vote with this stake cannot be admitted at time `now`, if it cannot:
/// the market is not active, voting has ended, or the stake is zero.
pub open spec fn submission_error(
    market: PredictionMarket,
    now: i64,
    stake_amount: u64,
) -> Option<ErrorCode> {
    if market.status != MarketStatus::Active {
        Some(ErrorCode::MarketNotActive)
    } else if now >= market.voting_ends_at {
        Some(ErrorCode::VotingPeriodEnded)
    } else if stake_amount == 0 {
        Some(ErrorCode::InvalidStakeAmount)
    } else {
        None
    }
}

/// The accounts that the callback of a validation is given, all writable: the
/// position to mark, and the market and the profile that count the vote.
pub open spec fn validation_callback_accounts(
    position_key: [u8; 32],
    market_key: [u8; 32],
    profile_key: [u8; 32],
) -> Seq<CallbackAccount> {
    seq![
        CallbackAccount { pubkey: position_key, is_writable: true },
        CallbackAccount { pubkey: market_key, is_writable: true },
        CallbackAccount { pubkey: profile_key, is_writable: true },
    ]
}

/// Admits a sealed vote to a market.
///
/// On success the voter has a new position that is neither validated nor
/// claimed, and the validation of the vote is to be queued. Nothing is
/// counted yet: the market and the profile count the vote when its
/// validation has come back in its favour.
pub fn submit_encrypted_vote(
    market: &PredictionMarket,
    user: [u8; 32],
    market_key: [u8; 32],
    position_key: [u8; 32],
    profile_key: [u8; 32],
    position_bump: u8,
    now: i64,
    computation_offset: u64,
    vote_data_encrypted: [[u8; 32]; 7],
    vote_encryption_pubkey: [u8; 32],
    vote_nonce: u128,
    stake_amount: u64,
) -> (result: Result<VoteSubmission, ErrorCode>)
    ensures
        result is Err <==> submission_error(*market, now, stake_amount) is Some,
        result matches Err(e) ==> Some(e) == submission_error(*market, now, stake_amount),
        result matches Ok(submission) ==> {
            &&& submission.position.user == user
            &&& submission.position.market == market_key
            &&& submission.position.stake_amount == stake_amount
            &&& submission.position.timestamp == now
            &&& !submission.position.is_claimed
            &&& !submission.position.is_validated
            &&& submission.position.encrypted_vote_data == vote_data_encrypted
            &&& submission.position.vote_pubkey == vote_encryption_pubkey
            &&& submission.position.vote_nonce == vote_nonce
            &&& is_zero_block(submission.position.encrypted_payout)
            &&& submission.position.payout_nonce == 0
            &&& submission.position.payout_amount == 0
            &&& submission.position.bump == position_bump
            &&& submission.computation.circuit == Circuit::SubmitPrivateVote
            &&& submission.computation.computation_offset == computation_offset
            &&& submission.computation.args@ == sealed_vote_args(
                vote_encryption_pubkey,
                vote_nonce,
                vote_data_encrypted,
            )
            &&& submission.computation.callback_accounts@ == validation_callback_accounts(
                position_key,
                market_key,
                profile_key,
            )
            &&& submission.event == (VoteSubmittedEvent {
                market_id: market.market_id,
                user,
                stake_amount,
                timestamp: now,
            })
        },
{
    if market.status != MarketStatus::Active {
        return Err(ErrorCode::MarketNotActive);
    }
    if now >= market.voting_ends_at {
        return Err(ErrorCode::VotingPeriodEnded);
    }
    if stake_amount == 0 {
        return Err(ErrorCode::InvalidStakeAmount);
    }
    let position = UserPosition {
        user,
        market: market_key,
        stake_amount,
        timestamp: now,
        is_claimed: false,
        is_validated: false,
        encrypted_vote_data: vote_data_encrypted,
        vote_pubkey: vote_encryption_pubkey,
        vote_nonce,
        encrypted_payout: [0u8; 32],
        payout_nonce: 0,
        payout_amount: 0,
        bump: position_bump,
    };
    let args: Vec<Argument> = build_sealed_vote_args(
        vote_encryption_pubkey,
        vote_nonce,
        &vote_data_encrypted,
    );
    let callback_accounts: Vec<CallbackAccount> = vec![
        CallbackAccount { pubkey: position_key, is_writable: true },
        CallbackAccount { pubkey: market_key, is_writable: true },
        CallbackAccount { pubkey: profile_key, is_writable: true },
    ];
    assert(callback_accounts@ =~= validation_callback_accounts(
        position_key,
        market_key,
        profile_key,
    ));
    let computation = QueuedComputation {
        circuit: Circuit::SubmitPrivateVote,
        computation_offset,
        args,
        callback_accounts,
    };
    let event = VoteSubmittedEvent { market_id: market.market_id, user, stake_amount, timestamp: now };
    Ok(VoteSubmission { position, computation, event })
}

/// The validity flag that a validation handed back: the first byte of its
/// first block. Zero says that the vote is invalid.
pub open spec fn validity_flag(sealed: SharedEncryptedStruct<1>) -> u8 {
    sealed.ciphertexts[0][0]
}

/// Why the result of a validation cannot be applied, if it cannot: the
/// computation failed, the vote is invalid, or a counter of the market or of
/// the profile is at its limit. A position that is validated already is not
/// looked at again.
pub open spec fn validation_error(
    market: PredictionMarket,
    profile: UserProfile,
    position: UserPosition,
    output: ComputationOutputs<SharedEncryptedStruct<1>>,
) -> Option<ErrorCode> {
    match output {
        ComputationOutputs::Failure => Some(ErrorCode::AbortedComputation),
        ComputationOutputs::Success(sealed) => if validity_flag(sealed) == 0 {
            Some(ErrorCode::InvalidVoteData)
        } else if position.is_validated {
            None
        } else if market.participant_count == u32::MAX || market.total_stake
            + position.stake_amount > u64::MAX || profile.total_markets_participated == u32::MAX {
            Some(ErrorCode::ArithmeticOverflow)
        } else {
            None
        },
    }
}

/// Applies the result of a vote validation.
///
/// A computation that failed is answered with `AbortedComputation`, a
/// validity flag of zero with `InvalidVoteData`: the vote is then rejected
/// for good, and neither its stake nor its voter is counted. Any other flag
/// marks the position as validated; the market then counts one more
/// participant and the stake, and the profile one more market. A vote is
/// counted once: for a position that is validated already nothing changes.
/// On refusal nothing changes.
pub fn submit_private_vote_callback(
    market: &mut PredictionMarket,
    profile: &mut UserProfile,
    position: &mut UserPosition,
    output: &ComputationOutputs<SharedEncryptedStruct<1>>,
) -> (result: Result<(), ErrorCode>)
    ensures
        result is Err <==> validation_error(*old(market), *old(profile), *old(position), *output)
            is Some,
        result matches Err(e) ==> {
            &&& Some(e) == validation_error(*old(market), *old(profile), *old(position), *output)
            &&& *final(market) == *old(market)
            &&& *final(profile) == *old(profile)
            &&& *final(position) == *old(position)
        },
        result is Ok && old(position).is_validated ==> {
            &&& *final(market) == *old(market)
            &&& *final(profile) == *old(profile)
            &&& *final(position) == *old(position)
        },
        result is Ok && !old(position).is_validated ==> {
            &&& *final(position) == (UserPosition { is_validated: true, ..*old(position) })
            &&& *final(market) == (PredictionMarket {
                participant_count: (old(market).participant_count + 1) as u32,
                total_stake: (old(market).total_stake + old(position).stake_amount) as u64,
                ..*old(market)
            })
            &&& *final(profile) == (UserProfile {
                total_markets_participated: (old(profile).total_markets_participated + 1) as u32,
                last_activity: old(position).timestamp,
                ..*old(profile)
            })
        },
        old(market).is_consistent() ==> final(market).is_consistent(),
{
    match output {
        ComputationOutputs::Failure => Err(ErrorCode::AbortedComputation),
        ComputationOutputs::Success(sealed) => {
            if sealed.ciphertexts[0][0] == 0 {
                return Err(ErrorCode::InvalidVoteData);
            }
            if position.is_validated {
                return Ok(());
            }
            let participant_count: u32 = match market.participant_count.checked_add(1) {
                Some(n) => n,
                None => { return Err(ErrorCode::ArithmeticOverflow); },
            };
            let total_stake: u64 = match market.total_stake.checked_add(position.stake_amount) {
                Some(n) => n,
                None => { return Err(ErrorCode::ArithmeticOverflow); },
            };
            let participated: u32 = match profile.total_markets_participated.checked_add(1) {
                Some(n) => n,
                None => { return Err(ErrorCode::ArithmeticOverflow); },
            };
            position.is_validated = true;
            market.participant_count = participant_count;
            market.total_stake = total_stake;
            profile.total_markets_participated = participated;
            profile.last_activity = position.timestamp;
            Ok(())
        },
    }
}

/// Why the vote of a position cannot be folded into the totals of the market,
/// if it cannot: the market takes no more votes, or the vote has not passed
/// its validation.
pub open spec fn aggregation_error(
    market: PredictionMarket,
    position: UserPosition,
) -> Option<ErrorCode> {
    if market.status != MarketStatus::Active {
        Some(ErrorCode::MarketNotActive)
    } else if !position.is_validated {
        Some(ErrorCode::InvalidVoteData)
    } else {
        None
    }
}

/// Asks for the vote of a position to be folded into the sealed totals of its
/// market.
///
/// Refused with `MarketNotActive` unless the market is active, and with
/// `InvalidVoteData` for a position whose vote has not been validated. The
/// computation gets the sealed vote, then the nonce and the place of the
/// sealed totals, and the market as its writable callback account. At most
/// one such computation may be in flight per market: the caller sees to that.
pub fn aggregate_votes(
    market: &PredictionMarket,
    position: &UserPosition,
    market_key: [u8; 32],
    computation_offset: u64,
) -> (result: Result<QueuedComputation, ErrorCode>)
    ensures
        result is Err <==> aggregation_error(*market, *position) is Some,
        result matches Err(e) ==> Some(e) == aggregation_error(*market, *position),
        result matches Ok(computation) ==> {
            &&& computation.circuit == Circuit::AggregateMarketVotes
            &&& computation.computation_offset == computation_offset
            &&& computation.args@ == sealed_vote_args(
                position.vote_pubkey,
                position.vote_nonce,
                position.encrypted_vote_data,
            ) + market_state_args(market.nonce, market_key)
            &&& computation.callback_accounts@ == seq![
                CallbackAccount { pubkey: market_key, is_writable: true },
            ]
        },
{
    if market.status != MarketStatus::Active {
        return Err(ErrorCode::MarketNotActive);
    }
    if !position.is_validated {
        return Err(ErrorCode::InvalidVoteData);
    }
    let mut args: Vec<Argument> = build_sealed_vote_args(
        position.vote_pubkey,
        position.vote_nonce,
        &position.encrypted_vote_data,
    );
    args.push(Argument::PlaintextU128(market.nonce));
    args.push(Argument::Account(market_key, VOTE_STATE_OFFSET, VOTE_STATE_LEN));
    assert(args@ =~= sealed_vote_args(
        position.vote_pubkey,
        position.vote_nonce,
        position.encrypted_vote_data,
    ) + market_state_args(market.nonce, market_key));
    let callback_accounts: Vec<CallbackAccount> = vec![
        CallbackAccount { pubkey: market_key, is_writable: true },
    ];
    assert(callback_accounts@ =~= seq![CallbackAccount { pubkey: market_key, is_writable: true }]);
    Ok(
        QueuedComputation {
            circuit: Circuit::AggregateMarketVotes,
            computation_offset,
            args,
            callback_accounts,
        },
    )
}

/// Stores the sealed totals that an aggregation handed back.
///
/// A computation that failed is answered with `AbortedComputation`. The
/// totals of a market change only while it is active: for a market that has
/// been locked, resolved, settled or cancelled in the meantime the answer is
/// `MarketNotActive`. On refusal the market stays as it was.
pub fn aggregate_market_votes_callback(
    market: &mut PredictionMarket,
    output: &ComputationOutputs<SharedEncryptedStruct<11>>,
) -> (result: Result<(), ErrorCode>)
    ensures
        match *output {
            ComputationOutputs::Failure => {
                &&& result == Err::<(), ErrorCode>(ErrorCode::AbortedComputation)
                &&& *final(market) == *old(market)
            },
            ComputationOutputs::Success(sealed) => if old(market).status != MarketStatus::Active {
                &&& result == Err::<(), ErrorCode>(ErrorCode::MarketNotActive)
                &&& *final(market) == *old(market)
            } else {
                &&& result == Ok::<(), ErrorCode>(())
                &&& *final(market) == (PredictionMarket {
                    encrypted_vote_state: sealed.ciphertexts,
                    nonce: sealed.nonce,
                    ..*old(market)
                })
            },
        },
        old(market).is_consistent() ==> final(market).is_consistent(),
{
    match output {
        ComputationOutputs::Failure => Err(ErrorCode::AbortedComputation),
        ComputationOutputs::Success(sealed) => {
            if market.status != MarketStatus::Active {
                return Err(ErrorCode::MarketNotActive);
            }
            market.encrypted_vote_state = sealed.ciphertexts;
            market.nonce = sealed.nonce;
            Ok(())
        },
    }
}

/// The sealed totals of a market are final once it is no longer active:
/// neither a new aggregation nor the result of one that is under way can
/// change them.
pub proof fn lemma_totals_are_final(
    market: PredictionMarket,
    position: UserPosition,
)
    requires
        market.status != MarketStatus::Active,
    ensures
        aggregation_error(market, position) == Some(ErrorCode::MarketNotActive),
{
}

/// Why the market cannot be resolved by this oracle, if it cannot.
pub open spec fn resolution_error(market: PredictionMarket, oracle: [u8; 32]) -> Option<ErrorCode> {
    if oracle != market.oracle_pubkey {
        Some(ErrorCode::InvalidOracle)
    } else if market.status != MarketStatus::Active && market.status != MarketStatus::Locked {
        Some(ErrorCode::CannotResolveMarket)
    } else {
        None
    }
}

/// Resolves a market with the outcome that its oracle reports.
///
/// Refused with `InvalidOracle` for any other oracle, and with
/// `CannotResolveMarket` unless the market is active or locked. A resolved
/// market has the outcome and the time of resolution, and takes no more
/// votes.
pub fn resolve_market(
    market: &mut PredictionMarket,
    oracle: [u8; 32],
    outcome: bool,
    now: i64,
) -> (result: Result<MarketResolvedEvent, ErrorCode>)
    ensures
        result is Err <==> resolution_error(*old(market), oracle) is Some,
        result matches Err(e) ==> {
            &&& Some(e) == resolution_error(*old(market), oracle)
            &&& *final(market) == *old(market)
        },
        result matches Ok(event) ==> {
            &&& *final(market) == (PredictionMarket {
                status: MarketStatus::Resolved,
                resolved_outcome: Some(outcome),
                resolution_timestamp: now,
                ..*old(market)
            })
            &&& final(market).is_consistent()
            &&& event == (MarketResolvedEvent {
                market_id: old(market).market_id,
                outcome,
                resolution_timestamp: now,
            })
        },
{
    if !same_address(&oracle, &market.oracle_pubkey) {
        return Err(ErrorCode::InvalidOracle);
    }
    if !(market.status == MarketStatus::Active || market.status == MarketStatus::Locked) {
        return Err(ErrorCode::CannotResolveMarket);
    }
    market.status = MarketStatus::Resolved;
    market.resolved_outcome = Some(outcome);
    market.resolution_timestamp = now;
    Ok(MarketResolvedEvent { market_id: market.market_id, outcome, resolution_timestamp: now })
}

/// The condition of a payout: why the position cannot be paid from this
/// market, if it cannot. The market must be resolved, and the position must
/// not have been claimed.
pub open spec fn claim_error(
    market: PredictionMarket,
    position: UserPosition,
) -> Option<ErrorCode> {
    if market.status != MarketStatus::Resolved {
        Some(ErrorCode::MarketNotResolved)
    } else if position.is_claimed {
        Some(ErrorCode::PayoutAlreadyClaimed)
    } else {
        None
    }
}

/// The position after its payout was claimed.
pub open spec fn claimed(position: UserPosition) -> UserPosition {
    UserPosition { is_claimed: true, ..position }
}

/// Asks for the payout of a position to be computed.
///
/// Refused as [`claim_error`] says. The computation gets the sealed vote and,
/// in the clear, the outcome, the stakes of the winning and of the losing
/// side and the two bonus pools, and the position as its writable callback
/// account. A market that is not refused must have its outcome, as every
/// consistent market has.
pub fn calculate_user_payout(
    market: &PredictionMarket,
    position: &UserPosition,
    position_key: [u8; 32],
    computation_offset: u64,
) -> (result: Result<QueuedComputation, ErrorCode>)
    requires
        claim_error(*market, *position) is None ==> market.resolved_outcome is Some,
    ensures
        result is Err <==> claim_error(*market, *position) is Some,
        result matches Err(e) ==> Some(e) == claim_error(*market, *position),
        result matches Ok(computation) ==> {
            &&& computation.circuit == Circuit::CalculatePayout
            &&& computation.computation_offset == computation_offset
            &&& computation.args@ == payout_args(*market, *position)
            &&& computation.callback_accounts@ == seq![
                CallbackAccount { pubkey: position_key, is_writable: true },
            ]
        },
{
    if market.status != MarketStatus::Resolved {
        return Err(ErrorCode::MarketNotResolved);
    }
    if position.is_claimed {
        return Err(ErrorCode::PayoutAlreadyClaimed);
    }
    let yes_won: bool = match market.resolved_outcome {
        Some(true) => true,
        _ => false,
    };
    let outcome: u8 = if yes_won {
        1
    } else {
        0
    };
    let winning: u64 = if yes_won {
        market.yes_stake
    } else {
        market.no_stake
    };
    let losing: u64 = if yes_won {
        market.no_stake
    } else {
        market.yes_stake
    };
    let args: Vec<Argument> = vec![
        Argument::ArcisPubkey(position.vote_pubkey),
        Argument::PlaintextU128(position.vote_nonce),
        Argument::EncryptedU64(position.encrypted_vote_data[0]),
        Argument::EncryptedU64(position.encrypted_vote_data[2]),
        Argument::EncryptedU8(position.encrypted_vote_data[1]),
        Argument::EncryptedU8(position.encrypted_vote_data[3]),
        Argument::EncryptedU16(position.encrypted_vote_data[4]),
        Argument::PlaintextU8(outcome),
        Argument::PlaintextU64(winning),
        Argument::PlaintextU64(losing),
        Argument::PlaintextU64(market.total_stake / 100),
        Argument::PlaintextU64(market.total_stake / 200),
    ];
    assert(args@ =~= payout_args(*market, *position));
    let callback_accounts: Vec<CallbackAccount> = vec![
        CallbackAccount { pubkey: position_key, is_writable: true },
    ];
    assert(callback_accounts@ =~= seq![CallbackAccount { pubkey: position_key, is_writable: true }]);
    Ok(
        QueuedComputation {
            circuit: Circuit::CalculatePayout,
            computation_offset,
            args,
            callback_accounts,
        },
    )
}

/// Stores the sealed payout that a payout computation handed back.
///
/// A computation that failed is answered with `AbortedComputation`. The
/// claimed mark is looked at once more before the result is honoured: for a
/// position that has been claimed in the meantime the answer is
/// `PayoutAlreadyClaimed`. On refusal the position stays as it was.
pub fn calculate_payout_callback(
    position: &mut UserPosition,
    output: &ComputationOutputs<SharedEncryptedStruct<1>>,
) -> (result: Result<(), ErrorCode>)
    ensures
        match *output {
            ComputationOutputs::Failure => {
                &&& result == Err::<(), ErrorCode>(ErrorCode::AbortedComputation)
                &&& *final(position) == *old(position)
            },
            ComputationOutputs::Success(sealed) => if old(position).is_claimed {
                &&& result == Err::<(), ErrorCode>(ErrorCode::PayoutAlreadyClaimed)
                &&& *final(position) == *old(position)
            } else {
                &&& result == Ok::<(), ErrorCode>(())
                &&& *final(position) == (UserPosition {
                    encrypted_payout: sealed.ciphertexts[0],
                    payout_nonce: sealed.nonce,
                    ..*old(position)
                })
            },
        },
{
    match output {
        ComputationOutputs::Failure => Err(ErrorCode::AbortedComputation),
        ComputationOutputs::Success(sealed) => {
            if position.is_claimed {
                return Err(ErrorCode::PayoutAlreadyClaimed);
            }
            position.encrypted_payout = sealed.ciphertexts[0];
            position.payout_nonce = sealed.nonce;
            Ok(())
        },
    }
}

/// Marks the payout of a position as claimed.
///
/// Refused as [`claim_error`] says; a position can therefore be
/// claimed once and no more. On refusal the position stays as it was.
pub fn claim_payout(
    market: &PredictionMarket,
    position: &mut UserPosition,
    now: i64,
) -> (result: Result<PayoutClaimedEvent, ErrorCode>)
    ensures
        result is Err <==> claim_error(*market, *old(position)) is Some,
        result matches Err(e) ==> {
            &&& Some(e) == claim_error(*market, *old(position))
            &&& *final(position) == *old(position)
        },
        result matches Ok(event) ==> {
            &&& *final(position) == claimed(*old(position))
            &&& event == (PayoutClaimedEvent {
                market_id: market.market_id,
                user: old(position).user,
                timestamp: now,
            })
        },
{
    if market.status != MarketStatus::Resolved {
        return Err(ErrorCode::MarketNotResolved);
    }
    if position.is_claimed {
        return Err(ErrorCode::PayoutAlreadyClaimed);
    }
    position.is_claimed = true;
    Ok(PayoutClaimedEvent { market_id: market.market_id, user: position.user, timestamp: now })
}

/// Asks for the odds of a market to be computed from its sealed totals.
///
/// Refused with `MarketNotActive` unless the market is active. The
/// computation gets the nonce and the place of the sealed totals; its
/// callback is given no account.
pub fn calculate_market_odds(
    market: &PredictionMarket,
    market_key: [u8; 32],
    computation_offset: u64,
) -> (result: Result<QueuedComputation, ErrorCode>)
    ensures
        result is Err <==> market.status != MarketStatus::Active,
        result matches Err(e) ==> e == ErrorCode::MarketNotActive,
        result matches Ok(computation) ==> {
            &&& computation.circuit == Circuit::CalculateMarketOdds
            &&& computation.computation_offset == computation_offset
            &&& computation.args@ == market_state_args(market.nonce, market_key)
            &&& computation.callback_accounts@ == Seq::<CallbackAccount>::empty()
        },
{
    if market.status != MarketStatus::Active {
        return Err(ErrorCode::MarketNotActive);
    }
    let args: Vec<Argument> = vec![
        Argument::PlaintextU128(market.nonce),
        Argument::Account(market_key, VOTE_STATE_OFFSET, VOTE_STATE_LEN),
    ];
    assert(args@ =~= market_state_args(market.nonce, market_key));
    Ok(
        QueuedComputation {
            circuit: Circuit::CalculateMarketOdds,
            computation_offset,
            args,
            callback_accounts: Vec::new(),
        },
    )
}

/// Announces that the odds of a market were computed.
///
/// A computation that failed is answered with `AbortedComputation`. The
/// sealed odds themselves are not kept.
pub fn calculate_market_odds_callback(
    market: &PredictionMarket,
    output: &ComputationOutputs<SharedEncryptedStruct<4>>,
    now: i64,
) -> (result: Result<MarketOddsUpdatedEvent, ErrorCode>)
    ensures
        match *output {
            ComputationOutputs::Failure => result == Err::<MarketOddsUpdatedEvent, ErrorCode>(
                ErrorCode::AbortedComputation,
            ),
            ComputationOutputs::Success(_) => result == Ok::<MarketOddsUpdatedEvent, ErrorCode>(
                MarketOddsUpdatedEvent { market_id: market.market_id, timestamp: now },
            ),
        },
{
    match output {
        ComputationOutputs::Failure => Err(ErrorCode::AbortedComputation),
        ComputationOutputs::Success(_) => Ok(
            MarketOddsUpdatedEvent { market_id: market.market_id, timestamp: now },
        ),
    }
}

/// A payout is claimed at most once: when a claim has gone through, the
/// position is refused from then on with `PayoutAlreadyClaimed`, for a second
/// claim and for a second payout computation alike.
pub proof fn lemma_claim_at_most_once(market: PredictionMarket, position: UserPosition)
    requires
        claim_error(market, position) is None,
    ensures
        claim_error(market, claimed(position)) == Some(ErrorCode::PayoutAlreadyClaimed),
{
}

/// A vote that its validation found invalid is never counted: the market,
/// the profile and the position stay as they were, whatever they hold.
pub proof fn lemma_invalid_vote_is_refused(
    market: PredictionMarket,
    profile: UserProfile,
    position: UserPosition,
    sealed: SharedEncryptedStruct<1>,
)
    requires
        validity_flag(sealed) == 0,
    ensures
        validation_error(market, profile, position, ComputationOutputs::Success(sealed)) == Some(
            ErrorCode::InvalidVoteData,
        ),
{
}

/// Only a validated vote reaches the totals of a market.
pub proof fn lemma_only_validated_votes_are_folded(market: PredictionMarket, position: UserPosition)
    requires
        aggregation_error(market, position) is None,
    ensures
        position.is_validated,
        market.status == MarketStatus::Active,
{
}

/// A position that is marked as claimed is refused, whatever else it and the
/// market hold.
pub proof fn lemma_claimed_is_refused(market: PredictionMarket, position: UserPosition)
    requires
        position.is_claimed,
    ensures
        claim_error(market, position) is Some,
{
}

/// A resolved market is resolved for good: no oracle can resolve it again.
pub proof fn lemma_resolved_stays_resolved(market: PredictionMarket, oracle: [u8; 32])
    requires
        market.status == MarketStatus::Resolved,
    ensures
        resolution_error(market, oracle) is Some,
{
}

} // verus!
