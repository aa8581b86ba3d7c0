//! The settlement computations on fixed-capacity batches, with their results
//! packed into the byte buffers that a market reveals.

use vstd::prelude::*;
use crate::vote::VoteData;
use crate::tally::{
    MarketVotingState, Tally, lemma_fold_all_keeps_balance, lemma_fold_all_push,
    lemma_fold_prefix_le,
};
use crate::circuits;
use crate::encoding::{le_bytes, u32_le_bytes, u64_le_bytes};
use crate::odds::{
    total_stake, quote, is_high_confidence, average_conviction, lemma_quote_bound,
};
use crate::manipulation::{
    close_in_time, same_probability, same_conviction, partners, pairs_from_first, matching_pairs,
    batch_score_of, lemma_partners_bound, lemma_pairs_bound, TIMING_WINDOW, BATCH_POINTS,
    MAX_SCORE,
};

verus! {

/// Number of slots in a batch of votes to aggregate.
pub const VOTE_BATCH_CAPACITY: usize = 100;

/// Number of slots in a batch of votes to screen.
pub const SCREENING_CAPACITY: usize = 50;

/// The number of slots of a batch that are in use: the declared count, or the
/// capacity where the count is above it.
pub open spec fn active_len(vote_count: u8, capacity: nat) -> nat {
    if vote_count as nat <= capacity {
        vote_count as nat
    } else {
        capacity
    }
}

/// The votes of a batch that are in use: its first `vote_count` slots. The
/// slots behind them are ignored.
pub open spec fn active_votes(slots: Seq<VoteData>, vote_count: u8) -> Seq<VoteData> {
    slots.take(active_len(vote_count, slots.len()) as int)
}

/// The stake-weighted mean estimate of a market, 50 where nothing is staked.
pub open spec fn market_probability(t: Tally) -> nat {
    if total_stake(t) > 0 {
        t.weighted_probability_sum / total_stake(t)
    } else {
        50
    }
}

/// The revealed summary of a market: Yes votes and No votes in four bytes
/// each, Yes stake and No stake in eight bytes each, participants in four
/// bytes, all least significant byte first, then the mean estimate in one
/// byte, then three zero bytes.
pub open spec fn summary_bytes(t: Tally) -> Seq<u8> {
    le_bytes(t.yes_votes, 4) + le_bytes(t.no_votes, 4) + le_bytes(t.yes_stake, 8) + le_bytes(
        t.no_stake,
        8,
    ) + le_bytes(t.participants, 4) + seq![(market_probability(t) % 256) as u8, 0u8, 0u8, 0u8]
}

/// The revealed odds of a market: the quote for Yes, the quote for No, the
/// participants in four bytes, least significant first, a byte that is 1 for
/// confident odds, and the mean conviction in one byte.
pub open spec fn odds_bytes(t: Tally) -> Seq<u8> {
    seq![quote(t.yes_stake, total_stake(t)) as u8, quote(t.no_stake, total_stake(t)) as u8]
        + le_bytes(t.participants, 4) + seq![
        if is_high_confidence(total_stake(t)) {
            1u8
        } else {
            0u8
        },
        (average_conviction(t) % 256) as u8,
    ]
}

/// Folds the active votes of a batch into the totals of a market, first slot
/// first.
///
/// The result is `None` exactly when a total would leave the range of the
/// integer that stores it.
pub fn fold_batch(
    votes: &[VoteData; 100],
    vote_count: u8,
    current_state: &MarketVotingState,
) -> (next: Option<MarketVotingState>)
    ensures
        next is Some <==> current_state@.fold_all(active_votes(votes@, vote_count)).fits(),
        next matches Some(state) ==> state@ == current_state@.fold_all(
            active_votes(votes@, vote_count),
        ),
        next matches Some(state) ==> (current_state@.is_balanced() ==> state@.is_balanced()),
{
    let n: usize = if vote_count as usize > VOTE_BATCH_CAPACITY {
        VOTE_BATCH_CAPACITY
    } else {
        vote_count as usize
    };
    let ghost active = active_votes(votes@, vote_count);
    let mut state: MarketVotingState = *current_state;
    let mut i: usize = 0;
    assert(active.take(0) =~= Seq::<VoteData>::empty());
    while i < n
        invariant
            i <= n <= 100,
            votes@.len() == 100,
            active == active_votes(votes@, vote_count),
            active == votes@.take(n as int),
            state@ == current_state@.fold_all(active.take(i as int)),
        decreases n - i,
    {
        proof {
            assert(active.take(i as int + 1) =~= active.take(i as int).push(votes@[i as int]));
            lemma_fold_all_push(current_state@, active.take(i as int), votes@[i as int]);
        }
        match circuits::aggregate_market_votes(&votes[i], &state) {
            Some(folded) => {
                state = folded;
            },
            None => {
                proof {
                    lemma_fold_prefix_le(current_state@, active, i as int + 1);
                }
                return None;
            },
        }
        i += 1;
    }
    proof {
        assert(active.take(n as int) =~= active);
        if current_state@.is_balanced() {
            lemma_fold_all_keeps_balance(current_state@, active);
        }
    }
    Some(state)
}

/// Packs the figures that a market reveals after a batch into 32 bytes.
pub fn reveal_summary(state: &MarketVotingState) -> (summary: [u8; 32])
    ensures
        summary@ == summary_bytes(state@),
{
    let yes_votes_bytes: [u8; 4] = u32_le_bytes(state.total_yes_votes);
    let no_votes_bytes: [u8; 4] = u32_le_bytes(state.total_no_votes);
    let yes_stake_bytes: [u8; 8] = u64_le_bytes(state.total_yes_stake);
    let no_stake_bytes: [u8; 8] = u64_le_bytes(state.total_no_stake);
    let participants_bytes: [u8; 4] = u32_le_bytes(state.total_participants);
    let total: u128 = state.total_yes_stake as u128 + state.total_no_stake as u128;
    let market_probability: u128 = if total > 0 {
        state.weighted_probability_sum as u128 / total
    } else {
        50
    };
    let summary: [u8; 32] = [
        yes_votes_bytes[0],
        yes_votes_bytes[1],
        yes_votes_bytes[2],
        yes_votes_bytes[3],
        no_votes_bytes[0],
        no_votes_bytes[1],
        no_votes_bytes[2],
        no_votes_bytes[3],
        yes_stake_bytes[0],
        yes_stake_bytes[1],
        yes_stake_bytes[2],
        yes_stake_bytes[3],
        yes_stake_bytes[4],
        yes_stake_bytes[5],
        yes_stake_bytes[6],
        yes_stake_bytes[7],
        no_stake_bytes[0],
        no_stake_bytes[1],
        no_stake_bytes[2],
        no_stake_bytes[3],
        no_stake_bytes[4],
        no_stake_bytes[5],
        no_stake_bytes[6],
        no_stake_bytes[7],
        participants_bytes[0],
        participants_bytes[1],
        participants_bytes[2],
        participants_bytes[3],
        (market_probability % 256) as u8,
        0,
        0,
        0,
    ];
    assert(summary@ =~= summary_bytes(state@));
    summary
}

/// Folds a batch of votes into the totals of a market and reveals the summary
/// of the result: the counts, the stakes, the participants and the mean
/// estimate, and nothing of any single vote.
///
/// The result is `None` exactly when a total would leave the range of the
/// integer that stores it.
pub fn aggregate_market_votes(
    votes: &[VoteData; 100],
    vote_count: u8,
    current_state: &MarketVotingState,
) -> (summary: Option<[u8; 32]>)
    ensures
        summary is Some <==> current_state@.fold_all(active_votes(votes@, vote_count)).fits(),
        summary matches Some(bytes) ==> bytes@ == summary_bytes(
            current_state@.fold_all(active_votes(votes@, vote_count)),
        ),
{
    match fold_batch(votes, vote_count, current_state) {
        Some(state) => Some(reveal_summary(&state)),
        None => None,
    }
}

/// Derives the odds of a market and packs them into 8 bytes: the two quotes,
/// the participants, the mark of confident odds and the mean conviction per
/// unit of stake, cut to one byte.
pub fn calculate_market_odds(state: &MarketVotingState) -> (odds: [u8; 8])
    ensures
        odds@ == odds_bytes(state@),
        total_stake(state@) == 0 ==> odds@[0] == 50 && odds@[1] == 50 && odds@[6] == 0,
{
    let quotes: (u8, u8, u32, bool) = circuits::calculate_market_odds(state);
    let participants_bytes: [u8; 4] = u32_le_bytes(state.total_participants);
    let total: u128 = state.total_yes_stake as u128 + state.total_no_stake as u128;
    let conviction: u128 = state.conviction_weighted_yes as u128
        + state.conviction_weighted_no as u128;
    let average: u128 = if total >= 1 {
        conviction / total
    } else {
        conviction
    };
    let odds: [u8; 8] = [
        quotes.0,
        quotes.1,
        participants_bytes[0],
        participants_bytes[1],
        participants_bytes[2],
        participants_bytes[3],
        if quotes.3 {
            1
        } else {
            0
        },
        (average % 256) as u8,
    ];
    proof {
        lemma_quote_bound(state@.yes_stake, total_stake(state@));
        lemma_quote_bound(state@.no_stake, total_stake(state@));
        assert(odds@ =~= odds_bytes(state@));
    }
    odds
}

/// The timing signal as a relation between two votes.
pub open spec fn timing_relation() -> spec_fn(VoteData, VoteData) -> bool {
    |a: VoteData, b: VoteData| close_in_time(a, b)
}

/// The estimate signal as a relation between two votes.
pub open spec fn probability_relation() -> spec_fn(VoteData, VoteData) -> bool {
    |a: VoteData, b: VoteData| same_probability(a, b)
}

/// The conviction signal as a relation between two votes.
pub open spec fn conviction_relation() -> spec_fn(VoteData, VoteData) -> bool {
    |a: VoteData, b: VoteData| same_conviction(a, b)
}

/// Scores a batch from its three numbers of matching pairs, from 0 to 100.
///
/// One flag for more pairs close in time than a quarter of the votes, one for
/// more pairs of equal estimates than a third, one for more pairs of equal
/// convictions than a third. Each flag counts 33 points.
pub fn batch_score(
    vote_count: u8,
    same_timestamp_count: u32,
    same_probability_count: u32,
    same_conviction_count: u32,
) -> (score: u8)
    ensures
        score == batch_score_of(
            vote_count as nat,
            same_timestamp_count as nat,
            same_probability_count as nat,
            same_conviction_count as nat,
        ),
        score == 0 || score == 33 || score == 66 || score == 99,
{
    let mut suspicious_patterns: u8 = 0;
    if same_timestamp_count > (vote_count / 4) as u32 {
        suspicious_patterns += 1;
    }
    if same_probability_count > (vote_count / 3) as u32 {
        suspicious_patterns += 1;
    }
    if same_conviction_count > (vote_count / 3) as u32 {
        suspicious_patterns += 1;
    }
    let points: u8 = suspicious_patterns * BATCH_POINTS;
    if points < MAX_SCORE {
        points
    } else {
        MAX_SCORE
    }
}

/// Screens the active votes of a batch for signs of coordination and scores
/// them from 0 to 100.
///
/// Every unordered pair of active votes is compared for the three signals;
/// the numbers of matching pairs are then held against the thresholds of
/// [`batch_score`], which are taken from the declared count.
pub fn detect_manipulation(votes: &[VoteData; 50], vote_count: u8) -> (score: u8)
    ensures
        score == batch_score_of(
            vote_count as nat,
            matching_pairs(votes@, timing_relation(), active_len(vote_count, 50) as int),
            matching_pairs(votes@, probability_relation(), active_len(vote_count, 50) as int),
            matching_pairs(votes@, conviction_relation(), active_len(vote_count, 50) as int),
        ),
        score <= 100,
{
    let n: usize = if vote_count as usize > SCREENING_CAPACITY {
        SCREENING_CAPACITY
    } else {
        vote_count as usize
    };
    let mut same_timestamp_count: u32 = 0;
    let mut same_probability_count: u32 = 0;
    let mut same_conviction_count: u32 = 0;
    let mut i: usize = 0;
    while i < n
        invariant
            i <= n <= 50,
            votes@.len() == 50,
            same_timestamp_count == pairs_from_first(votes@, timing_relation(), n as int, i as int),
            same_probability_count == pairs_from_first(
                votes@,
                probability_relation(),
                n as int,
                i as int,
            ),
            same_conviction_count == pairs_from_first(
                votes@,
                conviction_relation(),
                n as int,
                i as int,
            ),
        decreases n - i,
    {
        let vote1: &VoteData = &votes[i];
        let ghost before_t = same_timestamp_count as nat;
        let ghost before_p = same_probability_count as nat;
        let ghost before_c = same_conviction_count as nat;
        proof {
            lemma_pairs_bound(votes@, timing_relation(), n as int, i as int);
            lemma_pairs_bound(votes@, probability_relation(), n as int, i as int);
            lemma_pairs_bound(votes@, conviction_relation(), n as int, i as int);
            assert(i * n <= 49 * 50) by (nonlinear_arith)
                requires
                    i <= 49,
                    n <= 50,
            ;
        }
        let mut j: usize = i + 1;
        while j < n
            invariant
                i < n <= 50,
                i + 1 <= j <= n,
                votes@.len() == 50,
                *vote1 == votes@[i as int],
                before_t <= 49 * 50,
                before_p <= 49 * 50,
                before_c <= 49 * 50,
                same_timestamp_count == before_t + partners(
                    votes@,
                    timing_relation(),
                    i as int,
                    i as int + 1,
                    j as int,
                ),
                same_probability_count == before_p + partners(
                    votes@,
                    probability_relation(),
                    i as int,
                    i as int + 1,
                    j as int,
                ),
                same_conviction_count == before_c + partners(
                    votes@,
                    conviction_relation(),
                    i as int,
                    i as int + 1,
                    j as int,
                ),
            decreases n - j,
        {
            let vote2: &VoteData = &votes[j];
            proof {
                lemma_partners_bound(votes@, timing_relation(), i as int, i as int + 1, j as int);
                lemma_partners_bound(
                    votes@,
                    probability_relation(),
                    i as int,
                    i as int + 1,
                    j as int,
                );
                lemma_partners_bound(
                    votes@,
                    conviction_relation(),
                    i as int,
                    i as int + 1,
                    j as int,
                );
            }
            let time_diff: u64 = if vote1.timestamp > vote2.timestamp {
                vote1.timestamp - vote2.timestamp
            } else {
                vote2.timestamp - vote1.timestamp
            };
            if time_diff < TIMING_WINDOW {
                same_timestamp_count += 1;
            }
            if vote1.predicted_probability == vote2.predicted_probability {
                same_probability_count += 1;
            }
            if vote1.conviction_score == vote2.conviction_score {
                same_conviction_count += 1;
            }
            j += 1;
        }
        i += 1;
    }
    batch_score(vote_count, same_timestamp_count, same_probability_count, same_conviction_count)
}

} // verus!
