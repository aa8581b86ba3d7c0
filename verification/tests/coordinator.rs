use prediction_markets::computation::{
    same_address, Argument, CallbackAccount, Circuit, ComputationOutputs, SharedEncryptedStruct,
};
use prediction_markets::coordinator::{
    aggregate_market_votes_callback, aggregate_votes, calculate_market_odds,
    calculate_market_odds_callback, calculate_payout_callback, calculate_user_payout,
    claim_payout, create_market, init_aggregate_comp_def, init_calculate_odds_comp_def,
    init_calculate_payout_comp_def, init_submit_vote_comp_def, initialize_user_profile,
    resolve_market, submit_encrypted_vote, submit_private_vote_callback,
};
use prediction_markets::ledger::{
    ErrorCode, MarketCategory, MarketOddsUpdatedEvent, MarketResolvedEvent, MarketStatus,
    OracleType, PayoutClaimedEvent, PredictionMarket, UserPosition, UserProfile,
    VoteSubmittedEvent,
};

const CREATOR: [u8; 32] = [1u8; 32];
const ORACLE: [u8; 32] = [2u8; 32];
const USER: [u8; 32] = [3u8; 32];
const MARKET_KEY: [u8; 32] = [4u8; 32];
const POSITION_KEY: [u8; 32] = [5u8; 32];
const VOTE_KEY: [u8; 32] = [6u8; 32];
const PROFILE_KEY: [u8; 32] = [8u8; 32];

fn market() -> PredictionMarket {
    create_market(
        CREATOR,
        ORACLE,
        254,
        1_000,
        77,
        String::from("Will it rain?"),
        String::from("Rain at the airport before noon"),
        String::from("https://example.org/rain.png"),
        MarketCategory::Weather,
        2_000,
        OracleType::Community,
    )
    .unwrap()
    .0
}

fn sealed() -> [[u8; 32]; 7] {
    [[10u8; 32], [11u8; 32], [12u8; 32], [13u8; 32], [14u8; 32], [15u8; 32], [16u8; 32]]
}

fn position() -> UserPosition {
    submit_encrypted_vote(
        &market(), USER, MARKET_KEY, POSITION_KEY, PROFILE_KEY, 8, 1_500, 31, sealed(), VOTE_KEY,
        99, 250,
    )
    .unwrap()
    .position
}

fn validated() -> UserPosition {
    UserPosition { is_validated: true, ..position() }
}

fn resolved() -> PredictionMarket {
    let mut m = market();
    m.total_stake = 100_000;
    m.yes_stake = 60_000;
    m.no_stake = 40_000;
    resolve_market(&mut m, ORACLE, true, 3_000).unwrap();
    m
}

#[test]
fn created_market_is_active_and_empty() {
    let (m, event) = create_market(
        CREATOR,
        ORACLE,
        254,
        1_000,
        77,
        String::from("Will it rain?"),
        String::from("Rain at the airport before noon"),
        String::from("https://example.org/rain.png"),
        MarketCategory::Custom,
        2_000,
        OracleType::CustomValidated,
    )
    .unwrap();
    assert_eq!(m.bump, 254);
    assert_eq!(m.encrypted_vote_state, [[0u8; 32]; 11]);
    assert_eq!(m.nonce, 0);
    assert_eq!(m.market_id, 77);
    assert_eq!(m.creator, CREATOR);
    assert_eq!(m.category, MarketCategory::Custom);
    assert_eq!(m.status, MarketStatus::Active);
    assert_eq!(m.created_at, 1_000);
    assert_eq!(m.voting_ends_at, 2_000);
    assert_eq!(m.resolution_timestamp, 0);
    assert_eq!(m.oracle_type, OracleType::CustomValidated);
    assert_eq!(m.oracle_pubkey, ORACLE);
    assert_eq!(m.resolved_outcome, None);
    assert_eq!((m.total_stake, m.yes_stake, m.no_stake, m.participant_count), (0, 0, 0, 0));
    assert_eq!(m.title, "Will it rain?");
    assert_eq!(m.description, "Rain at the airport before noon");
    assert_eq!(m.image_url, "https://example.org/rain.png");
    assert_eq!(event.market_id, 77);
    assert_eq!(event.creator, CREATOR);
    assert_eq!(event.title, "Will it rain?");
    assert_eq!(event.category, 99);
    assert_eq!(event.oracle_type, 2);
    assert_eq!(event.voting_ends_at, 2_000);
    assert_eq!(event.timestamp, 1_000);
}

fn try_create(title: &str, description: &str, image_url: &str, ends: i64, now: i64) -> Option<ErrorCode> {
    create_market(
        CREATOR,
        ORACLE,
        1,
        now,
        1,
        String::from(title),
        String::from(description),
        String::from(image_url),
        MarketCategory::Sports,
        ends,
        OracleType::UmaOptimistic,
    )
    .err()
}

#[test]
fn market_texts_are_bounded_in_bytes() {
    let t200 = "t".repeat(200);
    let t201 = "t".repeat(201);
    let d1000 = "d".repeat(1000);
    let d1001 = "d".repeat(1001);
    assert_eq!(try_create(&t200, &d1000, &t200, 10, 9), None);
    assert_eq!(try_create(&t201, &d1000, &t200, 10, 9), Some(ErrorCode::TitleTooLong));
    assert_eq!(try_create(&t200, &d1001, &t200, 10, 9), Some(ErrorCode::DescriptionTooLong));
    assert_eq!(try_create(&t200, &d1000, &t201, 10, 9), Some(ErrorCode::ImageUrlTooLong));
    // 101 letters of two bytes each
    let wide = "é".repeat(101);
    assert_eq!(try_create(&wide, "", "", 10, 9), Some(ErrorCode::TitleTooLong));
    assert_eq!(try_create(&"é".repeat(100), "", "", 10, 9), None);
}

#[test]
fn market_errors_come_in_order() {
    let t201 = "t".repeat(201);
    let d1001 = "d".repeat(1001);
    assert_eq!(try_create(&t201, &d1001, &t201, 0, 9), Some(ErrorCode::TitleTooLong));
    assert_eq!(try_create("", &d1001, &t201, 0, 9), Some(ErrorCode::DescriptionTooLong));
    assert_eq!(try_create("", "", &t201, 0, 9), Some(ErrorCode::ImageUrlTooLong));
    assert_eq!(try_create("", "", "", 0, 9), Some(ErrorCode::InvalidEndTime));
}

#[test]
fn voting_must_end_after_now() {
    assert_eq!(try_create("", "", "", 9, 9), Some(ErrorCode::InvalidEndTime));
    assert_eq!(try_create("", "", "", 8, 9), Some(ErrorCode::InvalidEndTime));
    assert_eq!(try_create("", "", "", 10, 9), None);
    assert_eq!(try_create("", "", "", i64::MIN, i64::MIN), Some(ErrorCode::InvalidEndTime));
    assert_eq!(try_create("", "", "", i64::MAX, i64::MIN), None);
}

#[test]
fn category_and_oracle_codes() {
    assert_eq!(MarketCategory::Sports.code(), 0);
    assert_eq!(MarketCategory::Politics.code(), 1);
    assert_eq!(MarketCategory::Economics.code(), 2);
    assert_eq!(MarketCategory::Technology.code(), 3);
    assert_eq!(MarketCategory::Entertainment.code(), 4);
    assert_eq!(MarketCategory::Weather.code(), 5);
    assert_eq!(MarketCategory::Custom.code(), 99);
    assert_eq!(OracleType::UmaOptimistic.code(), 0);
    assert_eq!(OracleType::ChainlinkPrice.code(), 1);
    assert_eq!(OracleType::CustomValidated.code(), 2);
    assert_eq!(OracleType::Community.code(), 3);
}

#[test]
fn new_profile_starts_with_reputation() {
    let p = initialize_user_profile(USER, 9, 1_100);
    assert_eq!(
        p,
        UserProfile {
            user: USER,
            total_markets_participated: 0,
            correct_predictions: 0,
            total_winnings: 0,
            reputation_score: 1000,
            streak_current: 0,
            streak_best: 0,
            last_activity: 1_100,
            achievements: [0u8; 32],
            preferred_categories: 0,
            bump: 9,
        }
    );
}

#[test]
fn admitted_vote_opens_a_position_and_queues_validation() {
    let m = market();
    let s = submit_encrypted_vote(
        &m, USER, MARKET_KEY, POSITION_KEY, PROFILE_KEY, 8, 1_500, 31, sealed(), VOTE_KEY, 99, 250,
    )
    .unwrap();
    assert_eq!(
        s.position,
        UserPosition {
            user: USER,
            market: MARKET_KEY,
            stake_amount: 250,
            timestamp: 1_500,
            is_claimed: false,
            is_validated: false,
            encrypted_vote_data: sealed(),
            vote_pubkey: VOTE_KEY,
            vote_nonce: 99,
            encrypted_payout: [0u8; 32],
            payout_nonce: 0,
            payout_amount: 0,
            bump: 8,
        }
    );
    assert_eq!(s.computation.circuit, Circuit::SubmitPrivateVote);
    assert_eq!(s.computation.computation_offset, 31);
    assert_eq!(
        s.computation.args,
        vec![
            Argument::ArcisPubkey(VOTE_KEY),
            Argument::PlaintextU128(99),
            Argument::EncryptedU64([10u8; 32]),
            Argument::EncryptedU8([11u8; 32]),
            Argument::EncryptedU64([12u8; 32]),
            Argument::EncryptedU8([13u8; 32]),
            Argument::EncryptedU16([14u8; 32]),
            Argument::EncryptedU64([15u8; 32]),
            Argument::EncryptedU128([16u8; 32]),
        ]
    );
    assert_eq!(
        s.computation.callback_accounts,
        vec![
            CallbackAccount { pubkey: POSITION_KEY, is_writable: true },
            CallbackAccount { pubkey: MARKET_KEY, is_writable: true },
            CallbackAccount { pubkey: PROFILE_KEY, is_writable: true },
        ]
    );
    assert_eq!(
        s.event,
        VoteSubmittedEvent { market_id: 77, user: USER, stake_amount: 250, timestamp: 1_500 }
    );
}

fn try_submit(m: &PredictionMarket, now: i64, stake: u64) -> Option<ErrorCode> {
    submit_encrypted_vote(
        m, USER, MARKET_KEY, POSITION_KEY, PROFILE_KEY, 8, now, 31, sealed(), VOTE_KEY, 99, stake,
    )
    .err()
}

#[test]
fn vote_is_admitted_only_to_an_open_market() {
    for status in [
        MarketStatus::Locked,
        MarketStatus::Resolved,
        MarketStatus::Settled,
        MarketStatus::Cancelled,
    ] {
        let mut m = market();
        m.status = status;
        assert_eq!(try_submit(&m, 1_500, 250), Some(ErrorCode::MarketNotActive));
        assert_eq!(try_submit(&m, 2_500, 0), Some(ErrorCode::MarketNotActive));
    }
    let m = market();
    assert_eq!(try_submit(&m, 2_000, 250), Some(ErrorCode::VotingPeriodEnded));
    assert_eq!(try_submit(&m, 2_001, 250), Some(ErrorCode::VotingPeriodEnded));
    assert_eq!(try_submit(&m, 1_999, 0), Some(ErrorCode::InvalidStakeAmount));
    assert_eq!(try_submit(&m, 2_000, 0), Some(ErrorCode::VotingPeriodEnded));
    assert_eq!(try_submit(&m, 1_999, 1), None);
    assert_eq!(try_submit(&m, i64::MIN, u64::MAX), None);
}

fn flag(first_byte: u8) -> ComputationOutputs<SharedEncryptedStruct<1>> {
    let mut block = [0u8; 32];
    block[0] = first_byte;
    block[1] = 200;
    ComputationOutputs::Success(SharedEncryptedStruct {
        encryption_key: VOTE_KEY,
        nonce: 5,
        ciphertexts: [block],
    })
}

#[test]
fn valid_vote_is_counted_when_its_validation_comes_back() {
    let mut m = market();
    let mut prof = initialize_user_profile(USER, 9, 1_100);
    let mut p = position();
    let (m0, profile0, pos0) = (m.clone(), prof, p);
    assert_eq!(submit_private_vote_callback(&mut m, &mut prof, &mut p, &flag(1)), Ok(()));
    assert_eq!(p, UserPosition { is_validated: true, ..pos0 });
    assert_eq!(m, PredictionMarket { participant_count: 1, total_stake: 250, ..m0 });
    assert_eq!(
        prof,
        UserProfile { total_markets_participated: 1, last_activity: 1_500, ..profile0 }
    );
    let mut q = position();
    assert_eq!(submit_private_vote_callback(&mut m, &mut prof, &mut q, &flag(255)), Ok(()));
    assert!(q.is_validated);
    assert_eq!((m.participant_count, m.total_stake), (2, 500));
    assert_eq!(prof.total_markets_participated, 2);
}

#[test]
fn vote_is_counted_once() {
    let mut m = market();
    let mut prof = initialize_user_profile(USER, 9, 1_100);
    let mut p = position();
    assert_eq!(submit_private_vote_callback(&mut m, &mut prof, &mut p, &flag(1)), Ok(()));
    let (m1, profile1, pos1) = (m.clone(), prof, p);
    assert_eq!(submit_private_vote_callback(&mut m, &mut prof, &mut p, &flag(1)), Ok(()));
    assert_eq!((m, prof, p), (m1, profile1, pos1));
}

#[test]
fn invalid_vote_is_never_counted() {
    let mut m = market();
    let mut prof = initialize_user_profile(USER, 9, 1_100);
    let mut p = position();
    let (m0, profile0, pos0) = (m.clone(), prof, p);
    assert_eq!(
        submit_private_vote_callback(&mut m, &mut prof, &mut p, &flag(0)),
        Err(ErrorCode::InvalidVoteData)
    );
    assert_eq!((m.clone(), prof, p), (m0.clone(), profile0, pos0));
    assert_eq!(
        submit_private_vote_callback(&mut m, &mut prof, &mut p, &ComputationOutputs::Failure),
        Err(ErrorCode::AbortedComputation)
    );
    assert_eq!((m.clone(), prof, p), (m0.clone(), profile0, pos0));
    // an invalid answer is an error for a validated position too
    let mut v = validated();
    assert_eq!(
        submit_private_vote_callback(&mut m, &mut prof, &mut v, &flag(0)),
        Err(ErrorCode::InvalidVoteData)
    );
    assert_eq!(v, validated());
    assert_eq!(m, m0);
}

#[test]
fn vote_that_would_overrun_a_counter_is_refused() {
    let mut prof = initialize_user_profile(USER, 9, 1_100);
    let mut m = market();
    m.total_stake = u64::MAX - 249;
    let before = m.clone();
    let mut p = position();
    assert_eq!(
        submit_private_vote_callback(&mut m, &mut prof, &mut p, &flag(1)),
        Err(ErrorCode::ArithmeticOverflow)
    );
    assert_eq!(m, before);
    assert_eq!(p, position());
    assert_eq!(prof, initialize_user_profile(USER, 9, 1_100));
    m.total_stake = u64::MAX - 250;
    assert_eq!(submit_private_vote_callback(&mut m, &mut prof, &mut p, &flag(1)), Ok(()));
    assert_eq!(m.total_stake, u64::MAX);

    let mut full = market();
    full.participant_count = u32::MAX;
    let mut q = position();
    assert_eq!(
        submit_private_vote_callback(&mut full, &mut prof, &mut q, &flag(1)),
        Err(ErrorCode::ArithmeticOverflow)
    );
    let mut busy = initialize_user_profile(USER, 9, 1_100);
    busy.total_markets_participated = u32::MAX;
    let mut n = market();
    assert_eq!(
        submit_private_vote_callback(&mut n, &mut busy, &mut q, &flag(1)),
        Err(ErrorCode::ArithmeticOverflow)
    );
    assert_eq!(n, market());
    assert_eq!(q, position());
}

#[test]
fn aggregation_is_queued_with_vote_and_market_state() {
    let mut m = market();
    m.nonce = 4242;
    let p = validated();
    let c = aggregate_votes(&m, &p, MARKET_KEY, 55).unwrap();
    assert_eq!(c.circuit, Circuit::AggregateMarketVotes);
    assert_eq!(c.computation_offset, 55);
    assert_eq!(
        c.args,
        vec![
            Argument::ArcisPubkey(VOTE_KEY),
            Argument::PlaintextU128(99),
            Argument::EncryptedU64([10u8; 32]),
            Argument::EncryptedU8([11u8; 32]),
            Argument::EncryptedU64([12u8; 32]),
            Argument::EncryptedU8([13u8; 32]),
            Argument::EncryptedU16([14u8; 32]),
            Argument::EncryptedU64([15u8; 32]),
            Argument::EncryptedU128([16u8; 32]),
            Argument::PlaintextU128(4242),
            Argument::Account(MARKET_KEY, 9, 352),
        ]
    );
    assert_eq!(c.callback_accounts, vec![CallbackAccount { pubkey: MARKET_KEY, is_writable: true }]);
    assert_eq!(aggregate_votes(&m, &position(), MARKET_KEY, 55), Err(ErrorCode::InvalidVoteData));
    m.status = MarketStatus::Locked;
    assert_eq!(aggregate_votes(&m, &p, MARKET_KEY, 55), Err(ErrorCode::MarketNotActive));
    assert_eq!(aggregate_votes(&m, &position(), MARKET_KEY, 55), Err(ErrorCode::MarketNotActive));
}

#[test]
fn aggregation_callback_stores_the_sealed_totals() {
    let mut m = market();
    let before = m.clone();
    let mut blocks = [[0u8; 32]; 11];
    for (i, b) in blocks.iter_mut().enumerate() {
        b[0] = i as u8 + 1;
    }
    let out = ComputationOutputs::Success(SharedEncryptedStruct {
        encryption_key: VOTE_KEY,
        nonce: 777,
        ciphertexts: blocks,
    });
    assert_eq!(aggregate_market_votes_callback(&mut m, &out), Ok(()));
    assert_eq!(m, PredictionMarket { encrypted_vote_state: blocks, nonce: 777, ..before.clone() });
    let mut n = market();
    assert_eq!(
        aggregate_market_votes_callback(&mut n, &ComputationOutputs::Failure),
        Err(ErrorCode::AbortedComputation)
    );
    assert_eq!(n, before);
    for status in [
        MarketStatus::Locked,
        MarketStatus::Resolved,
        MarketStatus::Settled,
        MarketStatus::Cancelled,
    ] {
        let mut closed = market();
        closed.status = status;
        let kept = closed.clone();
        assert_eq!(aggregate_market_votes_callback(&mut closed, &out), Err(ErrorCode::MarketNotActive));
        assert_eq!(closed, kept);
    }
}

#[test]
fn only_the_oracle_resolves() {
    let mut m = market();
    let before = m.clone();
    assert_eq!(resolve_market(&mut m, CREATOR, true, 3_000), Err(ErrorCode::InvalidOracle));
    let mut near = ORACLE;
    near[31] = 3;
    assert_eq!(resolve_market(&mut m, near, true, 3_000), Err(ErrorCode::InvalidOracle));
    assert_eq!(m, before);
    assert_eq!(
        resolve_market(&mut m, ORACLE, false, 3_000),
        Ok(MarketResolvedEvent { market_id: 77, outcome: false, resolution_timestamp: 3_000 })
    );
    assert_eq!(
        m,
        PredictionMarket {
            status: MarketStatus::Resolved,
            resolved_outcome: Some(false),
            resolution_timestamp: 3_000,
            ..before
        }
    );
}

#[test]
fn resolution_needs_an_open_market() {
    let mut locked = market();
    locked.status = MarketStatus::Locked;
    assert!(resolve_market(&mut locked, ORACLE, true, 3_000).is_ok());
    assert_eq!(locked.status, MarketStatus::Resolved);
    for status in [MarketStatus::Resolved, MarketStatus::Settled, MarketStatus::Cancelled] {
        let mut m = market();
        m.status = status;
        let before = m.clone();
        assert_eq!(resolve_market(&mut m, ORACLE, true, 3_000), Err(ErrorCode::CannotResolveMarket));
        assert_eq!(resolve_market(&mut m, CREATOR, true, 3_000), Err(ErrorCode::InvalidOracle));
        assert_eq!(m, before);
    }
    let mut twice = market();
    assert!(resolve_market(&mut twice, ORACLE, true, 3_000).is_ok());
    assert_eq!(resolve_market(&mut twice, ORACLE, false, 3_001), Err(ErrorCode::CannotResolveMarket));
    assert_eq!(twice.resolved_outcome, Some(true));
}

#[test]
fn payout_is_queued_with_the_public_figures() {
    let m = resolved();
    let p = position();
    let c = calculate_user_payout(&m, &p, POSITION_KEY, 66).unwrap();
    assert_eq!(c.circuit, Circuit::CalculatePayout);
    assert_eq!(c.computation_offset, 66);
    assert_eq!(
        c.args,
        vec![
            Argument::ArcisPubkey(VOTE_KEY),
            Argument::PlaintextU128(99),
            Argument::EncryptedU64([10u8; 32]),
            Argument::EncryptedU64([12u8; 32]),
            Argument::EncryptedU8([11u8; 32]),
            Argument::EncryptedU8([13u8; 32]),
            Argument::EncryptedU16([14u8; 32]),
            Argument::PlaintextU8(1),
            Argument::PlaintextU64(60_000),
            Argument::PlaintextU64(40_000),
            Argument::PlaintextU64(1_000),
            Argument::PlaintextU64(500),
        ]
    );
    assert_eq!(c.callback_accounts, vec![CallbackAccount { pubkey: POSITION_KEY, is_writable: true }]);
    let mut no = market();
    no.total_stake = 399;
    no.yes_stake = 300;
    no.no_stake = 99;
    resolve_market(&mut no, ORACLE, false, 3_000).unwrap();
    let c = calculate_user_payout(&no, &p, POSITION_KEY, 66).unwrap();
    assert_eq!(c.args[7], Argument::PlaintextU8(0));
    // the No side won: its stake comes first
    assert_eq!(c.args[8], Argument::PlaintextU64(99));
    assert_eq!(c.args[9], Argument::PlaintextU64(300));
    assert_eq!(c.args[10], Argument::PlaintextU64(3));
    assert_eq!(c.args[11], Argument::PlaintextU64(1));
}

#[test]
fn payout_needs_a_resolved_market() {
    let p = position();
    for status in [
        MarketStatus::Active,
        MarketStatus::Locked,
        MarketStatus::Settled,
        MarketStatus::Cancelled,
    ] {
        let mut m = market();
        m.status = status;
        assert_eq!(calculate_user_payout(&m, &p, POSITION_KEY, 66), Err(ErrorCode::MarketNotResolved));
        let mut q = p;
        assert_eq!(claim_payout(&m, &mut q, 4_000), Err(ErrorCode::MarketNotResolved));
        assert_eq!(q, p);
        let mut claimed = p;
        claimed.is_claimed = true;
        assert_eq!(claim_payout(&m, &mut claimed, 4_000), Err(ErrorCode::MarketNotResolved));
    }
}

#[test]
fn payout_is_claimed_at_most_once() {
    let m = resolved();
    let mut p = position();
    let before = p;
    assert_eq!(
        claim_payout(&m, &mut p, 4_000),
        Ok(PayoutClaimedEvent { market_id: 77, user: USER, timestamp: 4_000 })
    );
    assert_eq!(p, UserPosition { is_claimed: true, ..before });
    let claimed = p;
    assert_eq!(claim_payout(&m, &mut p, 4_001), Err(ErrorCode::PayoutAlreadyClaimed));
    assert_eq!(p, claimed);
    assert_eq!(
        calculate_user_payout(&m, &p, POSITION_KEY, 67),
        Err(ErrorCode::PayoutAlreadyClaimed)
    );
}

#[test]
fn payout_callback_stores_the_sealed_amount() {
    let mut p = position();
    let before = p;
    let mut block = [0u8; 32];
    block[5] = 9;
    let out = ComputationOutputs::Success(SharedEncryptedStruct {
        encryption_key: VOTE_KEY,
        nonce: 31337,
        ciphertexts: [block],
    });
    assert_eq!(calculate_payout_callback(&mut p, &out), Ok(()));
    assert_eq!(p, UserPosition { encrypted_payout: block, payout_nonce: 31337, ..before });
    let mut q = position();
    assert_eq!(
        calculate_payout_callback(&mut q, &ComputationOutputs::Failure),
        Err(ErrorCode::AbortedComputation)
    );
    assert_eq!(q, before);
    let mut claimed = UserPosition { is_claimed: true, ..before };
    assert_eq!(calculate_payout_callback(&mut claimed, &out), Err(ErrorCode::PayoutAlreadyClaimed));
    assert_eq!(claimed, UserPosition { is_claimed: true, ..before });
}

#[test]
fn odds_are_queued_on_the_market_state_alone() {
    let mut m = market();
    m.nonce = 12;
    let c = calculate_market_odds(&m, MARKET_KEY, 70).unwrap();
    assert_eq!(c.circuit, Circuit::CalculateMarketOdds);
    assert_eq!(c.computation_offset, 70);
    assert_eq!(
        c.args,
        vec![Argument::PlaintextU128(12), Argument::Account(MARKET_KEY, 9, 352)]
    );
    assert!(c.callback_accounts.is_empty());
    assert_eq!(calculate_market_odds(&resolved(), MARKET_KEY, 70), Err(ErrorCode::MarketNotActive));
}

#[test]
fn odds_callback_announces_the_update() {
    let m = market();
    assert_eq!(
        calculate_market_odds_callback(
            &m,
            &ComputationOutputs::Success(SharedEncryptedStruct {
                encryption_key: VOTE_KEY,
                nonce: 1,
                ciphertexts: [[72u8; 32], [18u8; 32], [7u8; 32], [1u8; 32]],
            }),
            5_000
        ),
        Ok(MarketOddsUpdatedEvent { market_id: 77, timestamp: 5_000 })
    );
    assert_eq!(
        calculate_market_odds_callback(&m, &ComputationOutputs::<SharedEncryptedStruct<4>>::Failure, 5_000),
        Err(ErrorCode::AbortedComputation)
    );
}

#[test]
fn circuits_are_registered_from_their_published_source() {
    let pairs = [
        (init_submit_vote_comp_def(), Circuit::SubmitPrivateVote, "submit_private_vote"),
        (init_aggregate_comp_def(), Circuit::AggregateMarketVotes, "aggregate_market_votes"),
        (init_calculate_payout_comp_def(), Circuit::CalculatePayout, "calculate_payout"),
        (init_calculate_odds_comp_def(), Circuit::CalculateMarketOdds, "calculate_market_odds"),
    ];
    for (definition, circuit, name) in pairs.iter() {
        assert_eq!(definition.circuit, *circuit);
        assert!(definition.finalize_during_callback);
        assert_eq!(definition.cu_amount, 0);
        assert_eq!(definition.finalize_authority, None);
        assert_eq!(definition.circuit_source.hash, [0u8; 32]);
        assert_eq!(
            definition.circuit_source.source,
            format!(
                "https://esuvpguudqdlgwxhweqp.supabase.co/storage/v1/object/public/arcium-circuits/{}_testnet.arcis",
                name
            )
        );
        assert_eq!(circuit.name(), *name);
    }
}

#[test]
fn circuit_offsets_come_from_the_circuit_names() {
    for circuit in [
        Circuit::SubmitPrivateVote,
        Circuit::AggregateMarketVotes,
        Circuit::CalculatePayout,
        Circuit::CalculateMarketOdds,
    ] {
        assert_eq!(circuit.comp_def_offset(), arcium_anchor::comp_def_offset(circuit.name()));
    }
    // the first four bytes of the SHA-256 digest of each name, least significant first
    assert_eq!(Circuit::SubmitPrivateVote.comp_def_offset(), 4_021_240_107);
    assert_eq!(Circuit::AggregateMarketVotes.comp_def_offset(), 1_922_814_474);
    assert_eq!(Circuit::CalculatePayout.comp_def_offset(), 4_000_520_605);
    assert_eq!(Circuit::CalculateMarketOdds.comp_def_offset(), 2_121_405_312);
}

#[test]
fn addresses_are_compared_byte_for_byte() {
    assert!(same_address(&ORACLE, &ORACLE));
    assert!(!same_address(&ORACLE, &CREATOR));
    let mut near = ORACLE;
    near[0] = 7;
    assert!(!same_address(&ORACLE, &near));
    near[0] = 2;
    near[31] = 7;
    assert!(!same_address(&ORACLE, &near));
}

#[test]
fn every_error_has_its_message() {
    assert_eq!(ErrorCode::TitleTooLong.message(), "Title is too long (max 200 chars)");
    assert_eq!(ErrorCode::DescriptionTooLong.message(), "Description is too long (max 1000 chars)");
    assert_eq!(ErrorCode::ImageUrlTooLong.message(), "Image URL is too long (max 200 chars)");
    assert_eq!(ErrorCode::InvalidEndTime.message(), "Invalid end time");
    assert_eq!(ErrorCode::MarketNotActive.message(), "Market is not active");
    assert_eq!(ErrorCode::VotingPeriodEnded.message(), "Voting period has ended");
    assert_eq!(ErrorCode::InvalidStakeAmount.message(), "Invalid stake amount");
    assert_eq!(ErrorCode::InvalidOracle.message(), "Invalid oracle");
    assert_eq!(ErrorCode::CannotResolveMarket.message(), "Cannot resolve market in current state");
    assert_eq!(ErrorCode::MarketNotResolved.message(), "Market not resolved");
    assert_eq!(ErrorCode::PayoutAlreadyClaimed.message(), "Payout already claimed");
    assert_eq!(ErrorCode::AbortedComputation.message(), "The computation was aborted");
    assert_eq!(ErrorCode::InvalidVoteData.message(), "Invalid vote data");
    assert_eq!(ErrorCode::InvalidEncryptedState.message(), "Invalid encrypted state");
    assert_eq!(ErrorCode::ClusterNotSet.message(), "Cluster not set");
    assert_eq!(ErrorCode::ArithmeticOverflow.message(), "Arithmetic overflow");
}
