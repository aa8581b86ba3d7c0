//! The running totals of a market and the rule that folds votes into them.

use vstd::prelude::*;
use crate::vote::{VoteData, VOTE_NO, VOTE_YES};

verus! {

/// The totals of a market as unbounded numbers: the model that the contracts
/// of the aggregation functions speak of.
pub struct Tally {
    pub market_id: u64,
    pub yes_votes: nat,
    pub no_votes: nat,
    pub skip_votes: nat,
    pub yes_stake: nat,
    pub no_stake: nat,
    pub participants: nat,
    /// Sum of stake times predicted probability over the votes that take a side.
    pub weighted_probability_sum: nat,
    /// Sum of stake times conviction over the Yes votes.
    pub conviction_weighted_yes: nat,
    /// Sum of stake times conviction over the No votes.
    pub conviction_weighted_no: nat,
    /// Logical clock: one step for each vote taken in.
    pub last_updated: nat,
}

impl Tally {
    /// The empty tally of a market.
    pub open spec fn zero(market_id: u64) -> Tally {
        Tally {
            market_id,
            yes_votes: 0,
            no_votes: 0,
            skip_votes: 0,
            yes_stake: 0,
            no_stake: 0,
            participants: 0,
            weighted_probability_sum: 0,
            conviction_weighted_yes: 0,
            conviction_weighted_no: 0,
            last_updated: 0,
        }
    }

    /// The tally after one more vote. A vote that is not countable leaves the
    /// tally as it is.
    pub open spec fn fold(self, vote: VoteData) -> Tally {
        if !vote.is_countable() {
            self
        } else if vote.vote_choice == VOTE_YES {
            Tally {
                yes_votes: self.yes_votes + 1,
                yes_stake: self.yes_stake + vote.stake_amount as nat,
                conviction_weighted_yes: self.conviction_weighted_yes
                    + vote.conviction_score as nat * vote.stake_amount as nat,
                weighted_probability_sum: self.weighted_probability_sum
                    + vote.stake_amount as nat * vote.predicted_probability as nat,
                participants: self.participants + 1,
                last_updated: self.last_updated + 1,
                ..self
            }
        } else if vote.vote_choice == VOTE_NO {
            Tally {
                no_votes: self.no_votes + 1,
                no_stake: self.no_stake + vote.stake_amount as nat,
                conviction_weighted_no: self.conviction_weighted_no
                    + vote.conviction_score as nat * vote.stake_amount as nat,
                weighted_probability_sum: self.weighted_probability_sum
                    + vote.stake_amount as nat * vote.predicted_probability as nat,
                participants: self.participants + 1,
                last_updated: self.last_updated + 1,
                ..self
            }
        } else {
            Tally {
                skip_votes: self.skip_votes + 1,
                participants: self.participants + 1,
                last_updated: self.last_updated + 1,
                ..self
            }
        }
    }

    /// The tally after a sequence of votes, taken in from first to last.
    pub open spec fn fold_all(self, votes: Seq<VoteData>) -> Tally {
        votes.fold_left(self, fold_step())
    }

    /// Every participant is counted under exactly one choice.
    pub open spec fn is_balanced(self) -> bool {
        self.yes_votes + self.no_votes + self.skip_votes == self.participants
    }

    /// Every total is within the range of the machine integer that stores it.
    pub open spec fn fits(self) -> bool {
        &&& self.yes_votes <= u32::MAX
        &&& self.no_votes <= u32::MAX
        &&& self.skip_votes <= u32::MAX
        &&& self.yes_stake <= u64::MAX
        &&& self.no_stake <= u64::MAX
        &&& self.participants <= u32::MAX
        &&& self.weighted_probability_sum <= u64::MAX
        &&& self.conviction_weighted_yes <= u64::MAX
        &&& self.conviction_weighted_no <= u64::MAX
        &&& self.last_updated <= u64::MAX
    }

    /// No total of `self` exceeds the same total of `other`.
    pub open spec fn le(self, other: Tally) -> bool {
        &&& self.market_id == other.market_id
        &&& self.yes_votes <= other.yes_votes
        &&& self.no_votes <= other.no_votes
        &&& self.skip_votes <= other.skip_votes
        &&& self.yes_stake <= other.yes_stake
        &&& self.no_stake <= other.no_stake
        &&& self.participants <= other.participants
        &&& self.weighted_probability_sum <= other.weighted_probability_sum
        &&& self.conviction_weighted_yes <= other.conviction_weighted_yes
        &&& self.conviction_weighted_no <= other.conviction_weighted_no
        &&& self.last_updated <= other.last_updated
    }
}

/// The fold of one vote, as a function value.
pub open spec fn fold_step() -> spec_fn(Tally, VoteData) -> Tally {
    |t: Tally, v: VoteData| t.fold(v)
}

/// The totals of a market as they are stored.
#[derive(Clone, Copy, Debug, PartialEq, Eq)]
pub struct MarketVotingState {
    pub market_id: u64,
    pub total_yes_votes: u32,
    pub total_no_votes: u32,
    pub total_skip_votes: u32,
    pub total_yes_stake: u64,
    pub total_no_stake: u64,
    pub total_participants: u32,
    pub weighted_probability_sum: u64,
    pub conviction_weighted_yes: u64,
    pub conviction_weighted_no: u64,
    pub last_updated: u64,
}

impl View for MarketVotingState {
    type V = Tally;

    open spec fn view(&self) -> Tally {
        Tally {
            market_id: self.market_id,
            yes_votes: self.total_yes_votes as nat,
            no_votes: self.total_no_votes as nat,
            skip_votes: self.total_skip_votes as nat,
            yes_stake: self.total_yes_stake as nat,
            no_stake: self.total_no_stake as nat,
            participants: self.total_participants as nat,
            weighted_probability_sum: self.weighted_probability_sum as nat,
            conviction_weighted_yes: self.conviction_weighted_yes as nat,
            conviction_weighted_no: self.conviction_weighted_no as nat,
            last_updated: self.last_updated as nat,
        }
    }
}

impl MarketVotingState {
    /// The state of a market that has seen no vote.
    pub fn new(market_id: u64) -> (state: MarketVotingState)
        ensures
            state@ == Tally::zero(market_id),
            state@.is_balanced(),
    {
        MarketVotingState {
            market_id,
            total_yes_votes: 0,
            total_no_votes: 0,
            total_skip_votes: 0,
            total_yes_stake: 0,
            total_no_stake: 0,
            total_participants: 0,
            weighted_probability_sum: 0,
            conviction_weighted_yes: 0,
            conviction_weighted_no: 0,
            last_updated: 0,
        }
    }
}

/// Folding one vote after a prefix is folding the prefix extended by that vote.
pub proof fn lemma_fold_all_push(start: Tally, votes: Seq<VoteData>, vote: VoteData)
    ensures
        start.fold_all(votes.push(vote)) == start.fold_all(votes).fold(vote),
{
    assert(votes.push(vote).drop_last() =~= votes);
}

/// Folding no vote changes nothing.
pub proof fn lemma_fold_all_empty(start: Tally)
    ensures
        start.fold_all(Seq::<VoteData>::empty()) == start,
{
}

/// Two votes can be folded in either order.
pub proof fn lemma_fold_commutes(start: Tally, a: VoteData, b: VoteData)
    ensures
        start.fold(a).fold(b) == start.fold(b).fold(a),
{
}

/// The order of the votes in a batch does not matter: two batches that hold
/// the same votes, each as often as the other, lead from any tally to the same
/// tally, equal in every total.
pub proof fn lemma_fold_order_independent(start: Tally, a: Seq<VoteData>, b: Seq<VoteData>)
    requires
        a.to_multiset() == b.to_multiset(),
    ensures
        start.fold_all(a) == start.fold_all(b),
{
    let f = fold_step();
    assert forall|x: VoteData, y: VoteData, v: Tally| #[trigger] f(f(v, x), y) == f(f(v, y), x) by {
        lemma_fold_commutes(v, x, y);
    }
    vstd::seq_lib::lemma_fold_left_permutation(a, b, f, start);
}

/// Stored totals that stand for the same tally are the same, field for field.
pub proof fn lemma_state_is_its_tally(a: MarketVotingState, b: MarketVotingState)
    requires
        a@ == b@,
    ensures
        a == b,
{
}

/// What is stored after a batch does not depend on the order of its votes:
/// two states reached from the same state by batches that hold the same
/// votes are equal in every field.
pub proof fn lemma_stored_result_is_order_independent(
    start: MarketVotingState,
    a: Seq<VoteData>,
    b: Seq<VoteData>,
    after_a: MarketVotingState,
    after_b: MarketVotingState,
)
    requires
        a.to_multiset() == b.to_multiset(),
        after_a@ == start@.fold_all(a),
        after_b@ == start@.fold_all(b),
    ensures
        after_a == after_b,
{
    lemma_fold_order_independent(start@, a, b);
    lemma_state_is_its_tally(after_a, after_b);
}

/// Folding a batch and then another is folding the two joined into one.
pub proof fn lemma_fold_concat(start: Tally, a: Seq<VoteData>, b: Seq<VoteData>)
    ensures
        start.fold_all(a + b) == start.fold_all(a).fold_all(b),
    decreases b.len(),
{
    if b.len() == 0 {
        assert(a + b =~= a);
    } else {
        lemma_fold_concat(start, a, b.drop_last());
        assert((a + b).drop_last() =~= a + b.drop_last());
        assert((a + b).last() == b.last());
    }
}

/// A vote never lowers a total.
pub proof fn lemma_fold_grows(start: Tally, vote: VoteData)
    ensures
        start.le(start.fold(vote)),
{
}

/// A batch never lowers a total.
pub proof fn lemma_fold_all_grows(start: Tally, votes: Seq<VoteData>)
    ensures
        start.le(start.fold_all(votes)),
    decreases votes.len(),
{
    if votes.len() > 0 {
        lemma_fold_all_grows(start, votes.drop_last());
        lemma_fold_grows(start.fold_all(votes.drop_last()), votes.last());
    }
}

/// A tally below one that fits fits too.
pub proof fn lemma_fits_is_downward(small: Tally, large: Tally)
    requires
        small.le(large),
        large.fits(),
    ensures
        small.fits(),
{
}

/// Folding batch `a` and then batch `b` is folding the two joined into one,
/// and is folding their votes one at a time. Where the joined batch stays
/// within the machine ranges, so does the first batch alone: what one call
/// achieves on the joined batch, two calls achieve on its parts.
pub proof fn lemma_batches_add_up(start: Tally, a: Seq<VoteData>, b: Seq<VoteData>)
    ensures
        start.fold_all(a + b) == start.fold_all(a).fold_all(b),
        start.fold_all(a + b).fits() ==> start.fold_all(a).fits(),
        forall|vote: VoteData| #[trigger]
            start.fold_all(a.push(vote)) == start.fold_all(a).fold(vote),
{
    lemma_fold_concat(start, a, b);
    lemma_fold_all_grows(start.fold_all(a), b);
    assert forall|vote: VoteData| #[trigger]
        start.fold_all(a.push(vote)) == start.fold_all(a).fold(vote) by {
        lemma_fold_all_push(start, a, vote);
    }
}

/// The tally after a prefix of a batch is below the tally after the whole.
pub proof fn lemma_fold_prefix_le(start: Tally, votes: Seq<VoteData>, n: int)
    requires
        0 <= n <= votes.len(),
    ensures
        start.fold_all(votes.take(n)).le(start.fold_all(votes)),
{
    assert(votes =~= votes.take(n) + votes.skip(n));
    lemma_fold_concat(start, votes.take(n), votes.skip(n));
    lemma_fold_all_grows(start.fold_all(votes.take(n)), votes.skip(n));
}

/// Every vote is counted under exactly one choice: a balanced tally stays
/// balanced under any vote.
pub proof fn lemma_fold_keeps_balance(start: Tally, vote: VoteData)
    requires
        start.is_balanced(),
    ensures
        start.fold(vote).is_balanced(),
{
}

/// A balanced tally stays balanced under any batch.
pub proof fn lemma_fold_all_keeps_balance(start: Tally, votes: Seq<VoteData>)
    requires
        start.is_balanced(),
    ensures
        start.fold_all(votes).is_balanced(),
    decreases votes.len(),
{
    if votes.len() > 0 {
        lemma_fold_all_keeps_balance(start, votes.drop_last());
        lemma_fold_keeps_balance(start.fold_all(votes.drop_last()), votes.last());
    }
}

/// A countable Skip vote is counted and advances the clock, and touches no
/// stake, probability or conviction total, nor the Yes and No counts.
pub proof fn lemma_skip_vote_is_neutral(start: Tally, vote: VoteData)
    requires
        vote.vote_choice == crate::vote::VOTE_SKIP,
        vote.stake_amount > 0,
    ensures
        start.fold(vote) == (Tally {
            skip_votes: start.skip_votes + 1,
            participants: start.participants + 1,
            last_updated: start.last_updated + 1,
            ..start
        }),
        start.fold(vote).yes_stake == start.yes_stake,
        start.fold(vote).no_stake == start.no_stake,
        start.fold(vote).weighted_probability_sum == start.weighted_probability_sum,
        start.fold(vote).conviction_weighted_yes == start.conviction_weighted_yes,
        start.fold(vote).conviction_weighted_no == start.conviction_weighted_no,
        start.fold(vote).yes_votes == start.yes_votes,
        start.fold(vote).no_votes == start.no_votes,
{
}

/// Only votes that take a side with a positive stake move a stake total, and
/// a vote that is not countable moves nothing.
pub proof fn lemma_stake_moves_only_with_side(start: Tally, vote: VoteData)
    ensures
        !vote.is_countable() ==> start.fold(vote) == start,
        start.fold(vote).yes_stake != start.yes_stake ==> vote.vote_choice == VOTE_YES
            && vote.stake_amount > 0,
        start.fold(vote).no_stake != start.no_stake ==> vote.vote_choice == VOTE_NO
            && vote.stake_amount > 0,
{
}

} // verus!
