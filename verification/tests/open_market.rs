use prediction_markets::open_market::{
    claim_payout, create_market, initialize_user_profile, resolve_market, submit_public_vote,
    ErrorCode, MarketCategory, MarketResolvedEvent, MarketStats, MarketStatus,
    PayoutCalculatedEvent, PredictionMarket, UserPosition, UserProfile, VoteChoice,
    VoteSubmittedEvent,
};

const CREATOR: [u8; 32] = [1u8; 32];
const ORACLE: [u8; 32] = [2u8; 32];
const USER: [u8; 32] = [3u8; 32];
const MARKET_KEY: [u8; 32] = [4u8; 32];

fn open_market() -> PredictionMarket {
    create_market(
        CREATOR,
        ORACLE,
        250,
        1_000,
        5,
        String::from("Rain?"),
        String::from("Rain before noon"),
        String::from("http://x/y.png"),
        MarketCategory::Weather,
        2_000,
    )
    .unwrap()
    .0
}

fn voter() -> UserProfile {
    initialize_user_profile(USER, 9, 1_100)
}

fn padded<const N: usize>(text: &str) -> [u8; N] {
    let mut field = [0u8; N];
    field[..text.len()].copy_from_slice(text.as_bytes());
    field
}

#[test]
fn open_market_keeps_its_texts_in_fixed_fields() {
    let (m, event) = create_market(
        CREATOR,
        ORACLE,
        250,
        1_000,
        5,
        String::from("Rain?"),
        String::from("Rain before noon"),
        String::from("http://x/y.png"),
        MarketCategory::Politics,
        2_000,
    )
    .unwrap();
    assert_eq!(
        m,
        PredictionMarket {
            market_id: 5,
            creator: CREATOR,
            title: padded::<200>("Rain?"),
            description: padded::<1000>("Rain before noon"),
            image_url: padded::<200>("http://x/y.png"),
            category: MarketCategory::Politics,
            status: MarketStatus::Active,
            created_at: 1_000,
            voting_ends_at: 2_000,
            resolution_timestamp: 0,
            total_stake: 0,
            yes_stake: 0,
            no_stake: 0,
            participant_count: 0,
            oracle_pubkey: ORACLE,
            resolved_outcome: None,
            resolution_data: [0u8; 500],
            bump: 250,
        }
    );
    assert_eq!(event.market_id, 5);
    assert_eq!(event.creator, CREATOR);
    assert_eq!(event.title, "Rain?");
    assert_eq!(event.category, 1);
    assert_eq!(event.voting_ends_at, 2_000);
    assert_eq!(event.timestamp, 1_000);
}

fn try_open(title: &str, description: &str, image_url: &str, ends: i64, now: i64) -> Result<PredictionMarket, ErrorCode> {
    create_market(
        CREATOR,
        ORACLE,
        1,
        now,
        1,
        String::from(title),
        String::from(description),
        String::from(image_url),
        MarketCategory::Sports,
        ends,
    )
    .map(|pair| pair.0)
}

#[test]
fn open_market_texts_fill_their_fields_to_the_brim() {
    let t200 = "t".repeat(200);
    let d1000 = "d".repeat(1000);
    let m = try_open(&t200, &d1000, &t200, 10, 9).unwrap();
    assert_eq!(m.title, [b't'; 200]);
    assert_eq!(m.description, [b'd'; 1000]);
    assert_eq!(m.image_url, [b't'; 200]);
    let empty = try_open("", "", "", 10, 9).unwrap();
    assert_eq!(empty.title, [0u8; 200]);
    assert_eq!(empty.description, [0u8; 1000]);
}

#[test]
fn open_market_refusals() {
    let t201 = "t".repeat(201);
    let d1001 = "d".repeat(1001);
    assert_eq!(try_open(&t201, &d1001, &t201, 0, 9), Err(ErrorCode::TitleTooLong));
    assert_eq!(try_open("", &d1001, &t201, 0, 9), Err(ErrorCode::DescriptionTooLong));
    assert_eq!(try_open("", "", &t201, 0, 9), Err(ErrorCode::ImageUrlTooLong));
    assert_eq!(try_open("", "", "", 9, 9), Err(ErrorCode::InvalidEndTime));
}

#[test]
fn open_profile_starts_with_reputation() {
    let p = voter();
    assert_eq!(p.user, USER);
    assert_eq!(p.reputation_score, 1000);
    assert_eq!(p.last_activity, 1_100);
    assert_eq!(p.achievements, [0u8; 32]);
    assert_eq!(p.bump, 9);
    assert_eq!((p.total_markets_participated, p.correct_predictions, p.total_winnings), (0, 0, 0));
    assert_eq!((p.streak_current, p.streak_best, p.preferred_categories), (0, 0, 0));
}

#[test]
fn open_vote_adds_its_stake_to_its_side() {
    let mut m = open_market();
    let mut p = voter();
    let before = m;
    let (position, event) =
        submit_public_vote(&mut m, &mut p, USER, MARKET_KEY, 8, 1_500, 300, VoteChoice::Yes, 70)
            .unwrap();
    assert_eq!(
        position,
        UserPosition {
            user: USER,
            market: MARKET_KEY,
            vote_choice: VoteChoice::Yes,
            stake_amount: 300,
            predicted_probability: 70,
            timestamp: 1_500,
            is_claimed: false,
            payout_amount: 0,
            computation_id: [0u8; 32],
            bump: 8,
        }
    );
    assert_eq!(
        event,
        VoteSubmittedEvent { market_id: 5, user: USER, stake_amount: 300, timestamp: 1_500 }
    );
    assert_eq!(
        m,
        PredictionMarket { participant_count: 1, total_stake: 300, yes_stake: 300, ..before }
    );
    assert_eq!(
        p,
        UserProfile { total_markets_participated: 1, last_activity: 1_500, ..voter() }
    );
    submit_public_vote(&mut m, &mut p, USER, MARKET_KEY, 8, 1_600, 200, VoteChoice::No, 10)
        .unwrap();
    submit_public_vote(&mut m, &mut p, USER, MARKET_KEY, 8, 1_700, 50, VoteChoice::Skip, 100)
        .unwrap();
    assert_eq!(
        m,
        PredictionMarket {
            participant_count: 3,
            total_stake: 550,
            yes_stake: 300,
            no_stake: 200,
            ..before
        }
    );
    assert_eq!(p.total_markets_participated, 3);
    assert_eq!(p.last_activity, 1_700);
}

fn try_vote(m: &mut PredictionMarket, p: &mut UserProfile, now: i64, stake: u64, choice: VoteChoice, probability: u8) -> Option<ErrorCode> {
    submit_public_vote(m, p, USER, MARKET_KEY, 8, now, stake, choice, probability).err()
}

#[test]
fn open_vote_refusals_change_nothing() {
    let mut p = voter();
    let mut locked = open_market();
    locked.status = MarketStatus::Locked;
    assert_eq!(
        try_vote(&mut locked, &mut p, 1_500, 1, VoteChoice::Yes, 50),
        Some(ErrorCode::MarketNotActive)
    );
    let mut m = open_market();
    let before = m;
    assert_eq!(try_vote(&mut m, &mut p, 2_000, 1, VoteChoice::Yes, 50), Some(ErrorCode::VotingPeriodEnded));
    assert_eq!(try_vote(&mut m, &mut p, 1_999, 0, VoteChoice::Yes, 50), Some(ErrorCode::InvalidStakeAmount));
    assert_eq!(try_vote(&mut m, &mut p, 1_999, 0, VoteChoice::Yes, 101), Some(ErrorCode::InvalidStakeAmount));
    assert_eq!(try_vote(&mut m, &mut p, 1_999, 1, VoteChoice::Yes, 101), Some(ErrorCode::InvalidProbability));
    assert_eq!(m, before);
    assert_eq!(p, voter());
    assert_eq!(try_vote(&mut m, &mut p, 1_999, 1, VoteChoice::Yes, 100), None);
}

#[test]
fn open_vote_that_would_overrun_a_total_is_refused() {
    let mut p = voter();
    let mut m = open_market();
    m.yes_stake = u64::MAX;
    let before = m;
    assert_eq!(try_vote(&mut m, &mut p, 1_500, 1, VoteChoice::Yes, 50), Some(ErrorCode::ArithmeticOverflow));
    assert_eq!(m, before);
    assert_eq!(try_vote(&mut m, &mut p, 1_500, 1, VoteChoice::No, 50), None);
    let mut n = open_market();
    n.no_stake = u64::MAX;
    assert_eq!(try_vote(&mut n, &mut p, 1_500, 1, VoteChoice::No, 50), Some(ErrorCode::ArithmeticOverflow));
    assert_eq!(try_vote(&mut n, &mut p, 1_500, 1, VoteChoice::Skip, 50), None);
    let mut t = open_market();
    t.total_stake = u64::MAX;
    assert_eq!(try_vote(&mut t, &mut p, 1_500, 1, VoteChoice::Skip, 50), Some(ErrorCode::ArithmeticOverflow));
    let mut c = open_market();
    c.participant_count = u32::MAX;
    assert_eq!(try_vote(&mut c, &mut p, 1_500, 1, VoteChoice::Skip, 50), Some(ErrorCode::ArithmeticOverflow));
    let mut busy = voter();
    busy.total_markets_participated = u32::MAX;
    let mut o = open_market();
    assert_eq!(try_vote(&mut o, &mut busy, 1_500, 1, VoteChoice::Skip, 50), Some(ErrorCode::ArithmeticOverflow));
}

#[test]
fn open_resolution_keeps_the_front_of_the_attached_data() {
    let mut m = open_market();
    let before = m;
    assert_eq!(
        resolve_market(&mut m, ORACLE, true, &[1, 2, 3], 3_000),
        Ok(MarketResolvedEvent { market_id: 5, outcome: true, resolution_timestamp: 3_000 })
    );
    let mut data = [0u8; 500];
    data[0] = 1;
    data[1] = 2;
    data[2] = 3;
    assert_eq!(
        m,
        PredictionMarket {
            status: MarketStatus::Resolved,
            resolved_outcome: Some(true),
            resolution_timestamp: 3_000,
            resolution_data: data,
            ..before
        }
    );
    let mut long = open_market();
    let attached: Vec<u8> = (0..600u32).map(|i| (i % 251) as u8 + 1).collect();
    resolve_market(&mut long, ORACLE, false, &attached, 3_000).unwrap();
    assert_eq!(long.resolution_data[..], attached[..500]);
    let mut kept = open_market();
    kept.resolution_data = [9u8; 500];
    resolve_market(&mut kept, ORACLE, false, &[1, 2], 3_000).unwrap();
    assert_eq!(kept.resolution_data[..3], [1, 2, 9]);
    assert_eq!(kept.resolution_data[499], 9);
}

#[test]
fn open_resolution_refusals() {
    let mut m = open_market();
    let before = m;
    assert_eq!(resolve_market(&mut m, USER, true, &[1], 3_000), Err(ErrorCode::InvalidOracle));
    assert_eq!(m, before);
    for status in [MarketStatus::Resolved, MarketStatus::Settled, MarketStatus::Cancelled] {
        let mut n = open_market();
        n.status = status;
        let kept = n;
        assert_eq!(resolve_market(&mut n, ORACLE, true, &[1], 3_000), Err(ErrorCode::CannotResolveMarket));
        assert_eq!(n, kept);
    }
    let mut locked = open_market();
    locked.status = MarketStatus::Locked;
    assert!(resolve_market(&mut locked, ORACLE, true, &[], 3_000).is_ok());
}

fn settled(outcome: bool, yes: u64, no: u64) -> PredictionMarket {
    let mut m = open_market();
    m.yes_stake = yes;
    m.no_stake = no;
    m.total_stake = yes + no;
    resolve_market(&mut m, ORACLE, outcome, &[], 3_000).unwrap();
    m
}

fn stake(choice: VoteChoice, amount: u64) -> UserPosition {
    UserPosition {
        user: USER,
        market: MARKET_KEY,
        vote_choice: choice,
        stake_amount: amount,
        predicted_probability: 50,
        timestamp: 1_500,
        is_claimed: false,
        payout_amount: 0,
        computation_id: [0u8; 32],
        bump: 8,
    }
}

fn record(participated: u32, correct: u32, streak: u16, best: u16) -> UserProfile {
    UserProfile {
        total_markets_participated: participated,
        correct_predictions: correct,
        streak_current: streak,
        streak_best: best,
        total_winnings: 1_000,
        ..voter()
    }
}

#[test]
fn right_vote_wins_stake_and_share() {
    let m = settled(true, 500, 300);
    let mut pos = stake(VoteChoice::Yes, 100);
    let mut prof = record(4, 2, 1, 3);
    let event = claim_payout(&m, &mut pos, &mut prof).unwrap();
    // 100 + 100 * 300 / 500
    assert_eq!(
        event,
        Some(PayoutCalculatedEvent { market_id: 5, user: USER, payout_amount: 160, was_correct: true })
    );
    assert_eq!(pos, UserPosition { payout_amount: 160, is_claimed: true, ..stake(VoteChoice::Yes, 100) });
    // accuracy 3 * 100 / 4 = 75, reputation 75 * 10 + 2 * 5
    assert_eq!(
        prof,
        UserProfile {
            total_winnings: 1_160,
            correct_predictions: 3,
            streak_current: 2,
            streak_best: 3,
            reputation_score: 760,
            ..record(4, 2, 1, 3)
        }
    );
}

#[test]
fn right_no_vote_wins_from_the_yes_side() {
    let m = settled(false, 500, 300);
    let mut pos = stake(VoteChoice::No, 7);
    let mut prof = record(3, 0, 3, 3);
    let event = claim_payout(&m, &mut pos, &mut prof).unwrap();
    // 7 + 7 * 500 / 300 = 7 + 11
    assert_eq!(event.unwrap().payout_amount, 18);
    assert_eq!(pos.payout_amount, 18);
    // accuracy 1 * 100 / 3 = 33, streak 4 becomes the best
    assert_eq!((prof.correct_predictions, prof.streak_current, prof.streak_best), (1, 4, 4));
    assert_eq!(prof.reputation_score, 350);
    assert_eq!(prof.total_winnings, 1_018);
}

#[test]
fn wrong_vote_wins_nothing_and_ends_the_streak() {
    let m = settled(true, 500, 300);
    let mut pos = stake(VoteChoice::No, 100);
    let mut prof = record(4, 2, 7, 9);
    let event = claim_payout(&m, &mut pos, &mut prof).unwrap();
    assert_eq!(
        event,
        Some(PayoutCalculatedEvent { market_id: 5, user: USER, payout_amount: 0, was_correct: false })
    );
    assert_eq!(pos, UserPosition { payout_amount: 0, is_claimed: true, ..stake(VoteChoice::No, 100) });
    // accuracy 2 * 100 / 4 = 50, reputation 500
    assert_eq!(
        prof,
        UserProfile { streak_current: 0, reputation_score: 500, ..record(4, 2, 7, 9) }
    );
}

#[test]
fn skipped_vote_is_claimed_without_touching_the_record() {
    let m = settled(true, 500, 300);
    let mut pos = stake(VoteChoice::Skip, 100);
    let mut prof = record(4, 2, 7, 9);
    assert_eq!(claim_payout(&m, &mut pos, &mut prof), Ok(None));
    assert_eq!(pos, UserPosition { payout_amount: 0, is_claimed: true, ..stake(VoteChoice::Skip, 100) });
    assert_eq!(prof, record(4, 2, 7, 9));
}

#[test]
fn winner_without_winning_stake_gets_the_stake_back() {
    let m = settled(true, 0, 300);
    let mut pos = stake(VoteChoice::Yes, 100);
    let mut prof = record(1, 0, 0, 0);
    assert_eq!(claim_payout(&m, &mut pos, &mut prof).unwrap().unwrap().payout_amount, 100);
    assert_eq!(prof.reputation_score, 1005);
}

#[test]
fn voter_without_any_market_has_an_accuracy_of_fifty() {
    let m = settled(true, 500, 300);
    let mut pos = stake(VoteChoice::No, 100);
    let mut prof = record(0, 0, 0, 0);
    claim_payout(&m, &mut pos, &mut prof).unwrap();
    assert_eq!(prof.reputation_score, 500);
}

#[test]
fn open_claim_needs_a_resolved_market_and_an_unclaimed_position() {
    let mut m = open_market();
    m.yes_stake = 500;
    m.no_stake = 300;
    let mut pos = stake(VoteChoice::Yes, 100);
    let mut prof = record(4, 2, 1, 3);
    assert_eq!(claim_payout(&m, &mut pos, &mut prof), Err(ErrorCode::MarketNotResolved));
    assert_eq!(pos, stake(VoteChoice::Yes, 100));
    assert_eq!(prof, record(4, 2, 1, 3));
    let s = settled(true, 500, 300);
    assert!(claim_payout(&s, &mut pos, &mut prof).is_ok());
    let claimed = pos;
    let after = prof;
    assert_eq!(claim_payout(&s, &mut pos, &mut prof), Err(ErrorCode::PayoutAlreadyClaimed));
    assert_eq!(pos, claimed);
    assert_eq!(prof, after);
    assert_eq!(claim_payout(&m, &mut pos, &mut prof), Err(ErrorCode::MarketNotResolved));
}

#[test]
fn resolved_market_without_outcome_owes_nothing() {
    let mut m = open_market();
    m.status = MarketStatus::Resolved;
    m.yes_stake = 500;
    m.no_stake = 300;
    let mut pos = stake(VoteChoice::Yes, 100);
    let mut prof = record(4, 2, 1, 3);
    let event = claim_payout(&m, &mut pos, &mut prof).unwrap().unwrap();
    assert_eq!((event.payout_amount, event.was_correct), (0, false));
    assert_eq!(prof.streak_current, 0);
}

#[test]
fn open_claim_out_of_range_is_refused() {
    let m = settled(true, 1, u64::MAX - 1);
    let mut pos = stake(VoteChoice::Yes, 2);
    let mut prof = record(4, 2, 1, 3);
    // 2 + 2 * (2^64 - 2) is no u64
    assert_eq!(claim_payout(&m, &mut pos, &mut prof), Err(ErrorCode::ArithmeticOverflow));
    assert_eq!(pos, stake(VoteChoice::Yes, 2));
    assert_eq!(prof, record(4, 2, 1, 3));

    let s = settled(true, 500, 300);
    let mut rich = record(4, 2, 1, 3);
    rich.total_winnings = u64::MAX - 159;
    let mut first = stake(VoteChoice::Yes, 100);
    assert_eq!(claim_payout(&s, &mut first, &mut rich), Err(ErrorCode::ArithmeticOverflow));
    rich.total_winnings = u64::MAX - 160;
    assert!(claim_payout(&s, &mut first, &mut rich).is_ok());
    assert_eq!(rich.total_winnings, u64::MAX);

    let mut streak = record(4, 2, u16::MAX, u16::MAX);
    let mut second = stake(VoteChoice::Yes, 100);
    assert_eq!(claim_payout(&s, &mut second, &mut streak), Err(ErrorCode::ArithmeticOverflow));
    assert_eq!(streak, record(4, 2, u16::MAX, u16::MAX));

    let mut many = record(4, u32::MAX, 0, 0);
    let mut third = stake(VoteChoice::Yes, 100);
    assert_eq!(claim_payout(&s, &mut third, &mut many), Err(ErrorCode::ArithmeticOverflow));
    let mut percent = record(4, u32::MAX / 100 + 1, 0, 0);
    let mut fourth = stake(VoteChoice::No, 100);
    assert_eq!(claim_payout(&s, &mut fourth, &mut percent), Err(ErrorCode::ArithmeticOverflow));

    // accuracy 100, reputation 1000 + 12908 * 5 is no u16
    let mut long = record(10, 9, 12_907, 12_907);
    let mut fifth = stake(VoteChoice::Yes, 100);
    assert_eq!(claim_payout(&s, &mut fifth, &mut long), Err(ErrorCode::ArithmeticOverflow));
    let mut shorter = record(10, 9, 12_906, 12_906);
    assert!(claim_payout(&s, &mut fifth, &mut shorter).is_ok());
    assert_eq!(shorter.reputation_score, 65_535);

    // without any market the accuracy is fifty, whatever the count
    let mut fresh = record(0, u32::MAX / 100 + 1, 0, 0);
    let mut seventh = stake(VoteChoice::No, 100);
    assert!(claim_payout(&s, &mut seventh, &mut fresh).is_ok());
    assert_eq!(fresh.reputation_score, 500);

    // a skipped vote is not held to the limits of the record
    let mut skipper = record(4, u32::MAX, u16::MAX, u16::MAX);
    let mut sixth = stake(VoteChoice::Skip, 100);
    assert_eq!(claim_payout(&s, &mut sixth, &mut skipper), Ok(None));
}

#[test]
fn reputation_takes_the_accuracy_in_sixteen_bits() {
    let s = settled(true, 500, 300);
    // 656 right of 1: accuracy 65600, of which 64 remain
    let mut odd = record(1, 656, 0, 0);
    let mut pos = stake(VoteChoice::No, 100);
    claim_payout(&s, &mut pos, &mut odd).unwrap();
    assert_eq!(odd.reputation_score, 640);
}

#[test]
fn stats_record_can_be_built() {
    let stats = MarketStats {
        market: MARKET_KEY,
        hourly_volume: [0; 24],
        daily_participants: [0; 7],
        probability_history: [50; 100],
        last_updated: 1,
        bump: 2,
    };
    assert_eq!(stats.probability_history[99], 50);
    assert_eq!(stats.hourly_volume.len(), 24);
    assert_eq!(stats.daily_participants.len(), 7);
}

#[test]
fn open_errors_have_their_messages() {
    assert_eq!(ErrorCode::InvalidProbability.message(), "Invalid probability value");
    assert_eq!(ErrorCode::TitleTooLong.message(), "Title is too long (max 200 chars)");
    assert_eq!(ErrorCode::DescriptionTooLong.message(), "Description is too long (max 1000 chars)");
    assert_eq!(ErrorCode::ImageUrlTooLong.message(), "Image URL is too long (max 200 chars)");
    assert_eq!(ErrorCode::InvalidEndTime.message(), "Invalid end time");
    assert_eq!(ErrorCode::MarketNotActive.message(), "Market is not active");
    assert_eq!(ErrorCode::VotingPeriodEnded.message(), "Voting period has ended");
    assert_eq!(ErrorCode::InvalidStakeAmount.message(), "Invalid stake amount");
    assert_eq!(ErrorCode::InvalidOracle.message(), "Invalid oracle");
    assert_eq!(ErrorCode::CannotResolveMarket.message(), "Cannot resolve market in current state");
    assert_eq!(ErrorCode::MarketNotResolved.message(), "Market not resolved");
    assert_eq!(ErrorCode::PayoutAlreadyClaimed.message(), "Payout already claimed");
    assert_eq!(ErrorCode::ArithmeticOverflow.message(), "Arithmetic overflow");
}
