//! Signals of coordinated voting between votes, and the scores built on them.

use vstd::prelude::*;
use crate::vote::VoteData;

verus! {

/// Two votes closer than this many time units count as simultaneous.
pub const TIMING_WINDOW: u64 = 5;

/// Points per flag when two votes are compared.
pub const PAIR_POINTS: u8 = 25;

/// Points per flag when a batch is screened.
pub const BATCH_POINTS: u8 = 33;

/// Highest suspicion score.
pub const MAX_SCORE: u8 = 100;

/// The two votes were cast within the timing window.
pub open spec fn close_in_time(a: VoteData, b: VoteData) -> bool {
    if a.timestamp > b.timestamp {
        a.timestamp - b.timestamp < TIMING_WINDOW
    } else {
        b.timestamp - a.timestamp < TIMING_WINDOW
    }
}

/// The two votes carry the same estimate.
pub open spec fn same_probability(a: VoteData, b: VoteData) -> bool {
    a.predicted_probability == b.predicted_probability
}

/// The two votes carry the same conviction.
pub open spec fn same_conviction(a: VoteData, b: VoteData) -> bool {
    a.conviction_score == b.conviction_score
}

/// 1 for true, 0 for false.
pub open spec fn indicator(b: bool) -> nat {
    if b {
        1
    } else {
        0
    }
}

/// How many of the three signals two votes show.
pub open spec fn shared_signals(a: VoteData, b: VoteData) -> nat {
    indicator(close_in_time(a, b)) + indicator(same_probability(a, b)) + indicator(
        same_conviction(a, b),
    )
}

/// The flags raised by two votes: one per signal, and one more when the votes
/// agree in choice and stake and show at least two signals.
pub open spec fn pair_flags(a: VoteData, b: VoteData) -> nat {
    if a.vote_choice == b.vote_choice && a.stake_amount == b.stake_amount && shared_signals(a, b)
        >= 2 {
        shared_signals(a, b) + 1
    } else {
        shared_signals(a, b)
    }
}

/// `flags * points`, capped at the highest score.
pub open spec fn capped_score(flags: nat, points: nat) -> nat {
    if flags * points < MAX_SCORE {
        flags * points
    } else {
        MAX_SCORE as nat
    }
}

/// The suspicion score of two votes.
pub open spec fn pair_score(a: VoteData, b: VoteData) -> nat {
    capped_score(pair_flags(a, b), PAIR_POINTS as nat)
}

/// Among the votes at positions `lo` up to `hi`, the number that stand in
/// `rel` to the vote at position `i`.
pub open spec fn partners(
    votes: Seq<VoteData>,
    rel: spec_fn(VoteData, VoteData) -> bool,
    i: int,
    lo: int,
    hi: int,
) -> nat
    decreases hi - lo,
{
    if hi <= lo {
        0
    } else {
        partners(votes, rel, i, lo, hi - 1) + indicator(rel(votes[i], votes[hi - 1]))
    }
}

/// The number of pairs of positions `i < j < n` with `i < upto` whose votes
/// stand in `rel`.
pub open spec fn pairs_from_first(
    votes: Seq<VoteData>,
    rel: spec_fn(VoteData, VoteData) -> bool,
    n: int,
    upto: int,
) -> nat
    decreases upto,
{
    if upto <= 0 {
        0
    } else {
        pairs_from_first(votes, rel, n, upto - 1) + partners(votes, rel, upto - 1, upto, n)
    }
}

/// The number of unordered pairs among the first `n` votes that stand in `rel`.
pub open spec fn matching_pairs(
    votes: Seq<VoteData>,
    rel: spec_fn(VoteData, VoteData) -> bool,
    n: int,
) -> nat {
    pairs_from_first(votes, rel, n, n)
}

/// The flags of a batch of `vote_count` votes with the given numbers of
/// matching pairs: one for each number above its threshold, a quarter of the
/// votes for timing and a third for estimates and for convictions.
pub open spec fn batch_flags(
    vote_count: nat,
    same_timestamp: nat,
    same_probability: nat,
    same_conviction: nat,
) -> nat {
    indicator(same_timestamp > vote_count / 4) + indicator(same_probability > vote_count / 3)
        + indicator(same_conviction > vote_count / 3)
}

/// The suspicion score of a batch from its numbers of matching pairs.
pub open spec fn batch_score_of(
    vote_count: nat,
    same_timestamp: nat,
    same_probability: nat,
    same_conviction: nat,
) -> nat {
    capped_score(
        batch_flags(vote_count, same_timestamp, same_probability, same_conviction),
        BATCH_POINTS as nat,
    )
}

/// A position has at most as many partners as there are positions to look at.
pub proof fn lemma_partners_bound(
    votes: Seq<VoteData>,
    rel: spec_fn(VoteData, VoteData) -> bool,
    i: int,
    lo: int,
    hi: int,
)
    requires
        lo <= hi,
    ensures
        partners(votes, rel, i, lo, hi) <= hi - lo,
    decreases hi - lo,
{
    if hi > lo {
        lemma_partners_bound(votes, rel, i, lo, hi - 1);
    }
}

/// There are at most `upto * n` matching pairs whose first position is below
/// `upto`.
pub proof fn lemma_pairs_bound(
    votes: Seq<VoteData>,
    rel: spec_fn(VoteData, VoteData) -> bool,
    n: int,
    upto: int,
)
    requires
        0 <= upto <= n,
    ensures
        pairs_from_first(votes, rel, n, upto) <= upto * n,
    decreases upto,
{
    if upto > 0 {
        lemma_pairs_bound(votes, rel, n, upto - 1);
        lemma_partners_bound(votes, rel, upto - 1, upto, n);
        assert((upto - 1) * n + n == upto * n) by (nonlinear_arith);
    }
}

/// Every score is between 0 and 100.
pub proof fn lemma_score_range(flags: nat, points: nat)
    ensures
        capped_score(flags, points) <= 100,
{
}

} // verus!
