//! A single vote and the rule that decides whether it is well formed.

use vstd::prelude::*;

verus! {

/// Vote choice: against the outcome.
pub const VOTE_NO: u8 = 0;

/// Vote choice: for the outcome.
pub const VOTE_YES: u8 = 1;

/// Vote choice: present, but taking no side.
pub const VOTE_SKIP: u8 = 2;

/// Largest probability estimate, in percent.
pub const MAX_PROBABILITY: u8 = 100;

/// Largest conviction score.
pub const MAX_CONVICTION: u16 = 1000;

/// One voter's submission to one market.
#[derive(Clone, Copy, Debug, PartialEq, Eq)]
pub struct VoteData {
    /// Identity commitment of the voter.
    pub voter: [u8; 32],
    pub market_id: u64,
    /// `VOTE_NO`, `VOTE_YES` or `VOTE_SKIP`.
    pub vote_choice: u8,
    pub stake_amount: u64,
    /// The voter's estimate, 0 to 100.
    pub predicted_probability: u8,
    /// Confidence weight, 1 to 1000.
    pub conviction_score: u16,
    pub timestamp: u64,
    /// Replay-protection tag.
    pub nonce: u128,
}

impl VoteData {
    /// Every field is within its bound.
    pub open spec fn is_valid(self) -> bool {
        &&& self.vote_choice <= VOTE_SKIP
        &&& self.stake_amount > 0
        &&& self.predicted_probability <= MAX_PROBABILITY
        &&& self.timestamp != 0
        &&& 1 <= self.conviction_score <= MAX_CONVICTION
        &&& self.nonce != 0
    }

    /// The vote names a known choice and stakes something: the condition
    /// under which a tally takes it in.
    pub open spec fn is_countable(self) -> bool {
        self.vote_choice <= VOTE_SKIP && self.stake_amount > 0
    }

    /// The vote takes a side.
    pub open spec fn takes_side(self) -> bool {
        self.vote_choice == VOTE_YES || self.vote_choice == VOTE_NO
    }
}

/// Each bound of a vote matters on its own: a vote that breaks any single one
/// is invalid whatever its other fields hold, and a vote that keeps all six is
/// valid.
pub proof fn lemma_validity_by_field(vote: VoteData)
    ensures
        vote.vote_choice > 2 ==> !vote.is_valid(),
        vote.stake_amount == 0 ==> !vote.is_valid(),
        vote.predicted_probability > 100 ==> !vote.is_valid(),
        vote.timestamp == 0 ==> !vote.is_valid(),
        vote.conviction_score == 0 ==> !vote.is_valid(),
        vote.conviction_score > 1000 ==> !vote.is_valid(),
        vote.nonce == 0 ==> !vote.is_valid(),
        (vote.vote_choice <= 2 && vote.stake_amount > 0 && vote.predicted_probability <= 100
            && vote.timestamp != 0 && 1 <= vote.conviction_score <= 1000 && vote.nonce != 0)
            ==> vote.is_valid(),
        vote.is_valid() ==> vote.is_countable(),
{
}

/// A vote in its smallest form: a choice and an amount. The key of the voter
/// stays with the caller, who seals the answer for it.
#[derive(Clone, Copy, Debug, PartialEq, Eq)]
pub struct SimpleVote {
    /// 0 against, 1 for.
    pub choice: u8,
    pub amount: u64,
}

impl SimpleVote {
    /// The choice is one of the two sides and the amount is positive.
    pub open spec fn is_valid(self) -> bool {
        self.choice <= 1 && self.amount > 0
    }
}

/// Tells whether a simple vote picks a side and stakes a positive amount.
pub fn validate_vote(vote: &SimpleVote) -> (ok: bool)
    ensures
        ok == vote.is_valid(),
{
    vote.choice <= 1 && vote.amount > 0
}

} // verus!
