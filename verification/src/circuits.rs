//! The settlement computations on one vote at a time: validation, folding a
//! vote into the market totals, odds, payout and the pairwise collusion test.

use vstd::prelude::*;
use crate::vote::{VoteData, VOTE_NO, VOTE_YES, VOTE_SKIP, MAX_PROBABILITY, MAX_CONVICTION};
use crate::tally::MarketVotingState;
use crate::payout::PayoutData;
use crate::odds::{
    total_stake, quote, is_high_confidence, lemma_quote_bound, DEEP_LIQUIDITY, FAIR_LIQUIDITY,
    EVEN_ODDS,
};
use crate::manipulation::{pair_score, TIMING_WINDOW, PAIR_POINTS, MAX_SCORE};

verus! {

/// Checks a vote and returns 1 if every field is within its bound, else 0.
///
/// A malformed vote is never an error: it is answered with 0, and the caller
/// must then drop the submission.
pub fn submit_private_vote(vote: &VoteData) -> (flag: u8)
    ensures
        flag == 1 <==> vote.is_valid(),
        flag == 0 <==> !vote.is_valid(),
{
    let mut is_valid: u8 = 1;
    if vote.vote_choice > VOTE_SKIP {
        is_valid = 0;
    }
    if vote.stake_amount == 0 {
        is_valid = 0;
    }
    if vote.predicted_probability > MAX_PROBABILITY {
        is_valid = 0;
    }
    if vote.timestamp == 0 {
        is_valid = 0;
    }
    if vote.conviction_score == 0 || vote.conviction_score > MAX_CONVICTION {
        is_valid = 0;
    }
    if vote.nonce == 0 {
        is_valid = 0;
    }
    is_valid
}

/// `total + stake * weight`, if it is a `u64`.
fn add_weighted(total: u64, stake: u64, weight: u16) -> (sum: Option<u64>)
    ensures
        sum is Some <==> total + stake * weight <= u64::MAX,
        sum matches Some(s) ==> s == total + stake * weight,
{
    assert(stake * weight <= 0xffff_ffff_ffff_ffff * 0xffff) by (nonlinear_arith)
        requires
            stake <= 0xffff_ffff_ffff_ffff,
            weight <= 0xffff,
    ;
    let product: u128 = (stake as u128) * (weight as u128);
    let wide: u128 = total as u128 + product;
    if wide > u64::MAX as u128 {
        None
    } else {
        Some(wide as u64)
    }
}

/// Folds one vote into the totals of a market.
///
/// A vote with an unknown choice or without stake leaves the totals as they
/// are. The result is `None` exactly when a total would leave the range of the
/// integer that stores it; the caller then keeps the totals it had.
pub fn aggregate_market_votes(
    vote: &VoteData,
    current_state: &MarketVotingState,
) -> (next: Option<MarketVotingState>)
    ensures
        next is Some <==> current_state@.fold(*vote).fits(),
        next matches Some(state) ==> state@ == current_state@.fold(*vote),
        next matches Some(state) ==> (current_state@.is_balanced() ==> state@.is_balanced()),
        !vote.is_countable() ==> next == Some(*current_state),
{
    if vote.vote_choice > VOTE_SKIP || vote.stake_amount == 0 {
        return Some(*current_state);
    }
    let mut state: MarketVotingState = *current_state;
    assert(vote.conviction_score as nat * vote.stake_amount as nat == vote.stake_amount
        * vote.conviction_score) by (nonlinear_arith);
    if vote.vote_choice == VOTE_YES {
        let votes: u32 = match state.total_yes_votes.checked_add(1) {
            Some(n) => n,
            None => { return None; },
        };
        let stake: u64 = match state.total_yes_stake.checked_add(vote.stake_amount) {
            Some(n) => n,
            None => { return None; },
        };
        let weighted: u64 = match add_weighted(
            state.conviction_weighted_yes,
            vote.stake_amount,
            vote.conviction_score,
        ) {
            Some(n) => n,
            None => { return None; },
        };
        state.total_yes_votes = votes;
        state.total_yes_stake = stake;
        state.conviction_weighted_yes = weighted;
    } else if vote.vote_choice == VOTE_NO {
        let votes: u32 = match state.total_no_votes.checked_add(1) {
            Some(n) => n,
            None => { return None; },
        };
        let stake: u64 = match state.total_no_stake.checked_add(vote.stake_amount) {
            Some(n) => n,
            None => { return None; },
        };
        let weighted: u64 = match add_weighted(
            state.conviction_weighted_no,
            vote.stake_amount,
            vote.conviction_score,
        ) {
            Some(n) => n,
            None => { return None; },
        };
        state.total_no_votes = votes;
        state.total_no_stake = stake;
        state.conviction_weighted_no = weighted;
    } else {
        let votes: u32 = match state.total_skip_votes.checked_add(1) {
            Some(n) => n,
            None => { return None; },
        };
        state.total_skip_votes = votes;
    }
    if vote.vote_choice != VOTE_SKIP {
        let weighted: u64 = match add_weighted(
            state.weighted_probability_sum,
            vote.stake_amount,
            vote.predicted_probability as u16,
        ) {
            Some(n) => n,
            None => { return None; },
        };
        state.weighted_probability_sum = weighted;
    }
    let participants: u32 = match state.total_participants.checked_add(1) {
        Some(n) => n,
        None => { return None; },
    };
    let clock: u64 = match state.last_updated.checked_add(1) {
        Some(n) => n,
        None => { return None; },
    };
    state.total_participants = participants;
    state.last_updated = clock;
    Some(state)
}

/// Computes what a resolved market owes one voter.
///
/// A voter who lost is owed nothing. A winner is owed the stake, a share of the
/// losing side's stake in proportion to the stake, and a part of each bonus
/// pool. Products are formed in 128 bits. The result is `None` exactly when the
/// voter won and either the estimate is above 100 on a No outcome or the amount
/// is not a `u64`.
pub fn calculate_payout(payout_data: &PayoutData) -> (payout: Option<u64>)
    ensures
        payout == payout_data.payout(),
{
    if payout_data.user_vote != payout_data.market_outcome {
        return Some(0);
    }
    let accuracy_factor: u128 = if payout_data.market_outcome == 1 {
        payout_data.user_probability as u128
    } else if payout_data.market_outcome == 0 {
        if payout_data.user_probability > 100 {
            return None;
        }
        (100 - payout_data.user_probability) as u128
    } else {
        50
    };
    let stake: u128 = payout_data.user_stake as u128;
    let losing_stake_share: u128 = if payout_data.total_winning_stake > 0 {
        assert(payout_data.user_stake as nat * payout_data.total_losing_stake as nat
            <= 0xffff_ffff_ffff_ffff * 0xffff_ffff_ffff_ffff) by (nonlinear_arith)
            requires
                payout_data.user_stake <= 0xffff_ffff_ffff_ffff,
                payout_data.total_losing_stake <= 0xffff_ffff_ffff_ffff,
        ;
        let losing: u128 = payout_data.total_losing_stake as u128;
        let winning: u128 = payout_data.total_winning_stake as u128;
        (stake * losing) / winning
    } else {
        0
    };
    proof {
        let product = payout_data.user_stake as nat * payout_data.total_losing_stake as nat;
        let winners = payout_data.total_winning_stake as nat;
        if winners > 0 {
            assert(product / winners <= product) by (nonlinear_arith)
                requires
                    winners > 0,
            ;
        }
    }
    let base: u128 = stake + losing_stake_share;
    if base > u64::MAX as u128 {
        return None;
    }
    assert(payout_data.accuracy_bonus as nat * accuracy_factor as nat <= 0xffff_ffff_ffff_ffff
        * 255) by (nonlinear_arith)
        requires
            payout_data.accuracy_bonus <= 0xffff_ffff_ffff_ffff,
            accuracy_factor <= 255,
    ;
    let accuracy_bonus: u128 = ((payout_data.accuracy_bonus as u128) * accuracy_factor) / 100;
    assert(payout_data.conviction_bonus as nat * payout_data.user_conviction as nat
        <= 0xffff_ffff_ffff_ffff * 0xffff) by (nonlinear_arith)
        requires
            payout_data.conviction_bonus <= 0xffff_ffff_ffff_ffff,
            payout_data.user_conviction <= 0xffff,
    ;
    let conviction: u128 = payout_data.user_conviction as u128;
    let conviction_bonus: u128 = ((payout_data.conviction_bonus as u128) * conviction) / 1000;
    let final_payout: u128 = base + accuracy_bonus + conviction_bonus;
    if final_payout > u64::MAX as u128 {
        None
    } else {
        Some(final_payout as u64)
    }
}

/// Derives the public odds of a market from its totals: the quote for Yes, the
/// quote for No, the number of participants and whether the odds rest on
/// enough stake.
///
/// With no stake on either side the quotes are 50 and 50 and the odds are not
/// confident. Otherwise each quote is the side's share of the stake in whole
/// percent, reduced by the spread of the market's depth.
pub fn calculate_market_odds(state: &MarketVotingState) -> (odds: (u8, u8, u32, bool))
    ensures
        odds.0 == quote(state@.yes_stake, total_stake(state@)),
        odds.1 == quote(state@.no_stake, total_stake(state@)),
        odds.2 == state.total_participants,
        odds.3 == is_high_confidence(total_stake(state@)),
        total_stake(state@) == 0 ==> odds == (50u8, 50u8, state.total_participants, false),
        odds.0 <= 95 && odds.1 <= 95,
{
    let total: u128 = state.total_yes_stake as u128 + state.total_no_stake as u128;
    proof {
        lemma_quote_bound(state@.yes_stake, total_stake(state@));
        lemma_quote_bound(state@.no_stake, total_stake(state@));
    }
    if total > 0 {
        let yes_prob: u128 = (state.total_yes_stake as u128 * 100) / total;
        let no_prob: u128 = (state.total_no_stake as u128 * 100) / total;
        let liquidity_factor: u128 = if total > DEEP_LIQUIDITY as u128 {
            95
        } else if total > FAIR_LIQUIDITY as u128 {
            90
        } else {
            85
        };
        assert(yes_prob <= 100) by (nonlinear_arith)
            requires
                yes_prob == (state.total_yes_stake as nat * 100) / total as nat,
                state.total_yes_stake <= total,
                total > 0,
        ;
        assert(no_prob <= 100) by (nonlinear_arith)
            requires
                no_prob == (state.total_no_stake as nat * 100) / total as nat,
                state.total_no_stake <= total,
                total > 0,
        ;
        let adjusted_yes: u128 = (yes_prob * liquidity_factor) / 100;
        let adjusted_no: u128 = (no_prob * liquidity_factor) / 100;
        let high_confidence: bool = total > FAIR_LIQUIDITY as u128;
        (adjusted_yes as u8, adjusted_no as u8, state.total_participants, high_confidence)
    } else {
        (EVEN_ODDS, EVEN_ODDS, state.total_participants, false)
    }
}

/// Scores two votes for signs of coordination, from 0 to 100.
///
/// One flag each for votes cast within the timing window, for equal estimates
/// and for equal convictions; one more when choice and stake agree and at
/// least two of those flags are up. Each flag counts 25 points.
pub fn detect_manipulation(vote1: &VoteData, vote2: &VoteData) -> (score: u8)
    ensures
        score == pair_score(*vote1, *vote2),
        score <= 100,
{
    let mut suspicious_patterns: u8 = 0;
    let time_diff: u64 = if vote1.timestamp > vote2.timestamp {
        vote1.timestamp - vote2.timestamp
    } else {
        vote2.timestamp - vote1.timestamp
    };
    if time_diff < TIMING_WINDOW {
        suspicious_patterns += 1;
    }
    if vote1.predicted_probability == vote2.predicted_probability {
        suspicious_patterns += 1;
    }
    if vote1.conviction_score == vote2.conviction_score {
        suspicious_patterns += 1;
    }
    if vote1.vote_choice == vote2.vote_choice && vote1.stake_amount == vote2.stake_amount
        && suspicious_patterns >= 2 {
        suspicious_patterns += 1;
    }
    let points: u8 = suspicious_patterns * PAIR_POINTS;
    if points < MAX_SCORE {
        points
    } else {
        MAX_SCORE
    }
}

} // verus!
