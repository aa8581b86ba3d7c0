//! What a resolved market owes one voter.

use vstd::prelude::*;

verus! {

/// One voter's position together with the public figures of the resolved
/// market. Built for one claim and used once.
#[derive(Clone, Copy, Debug, PartialEq, Eq)]
pub struct PayoutData {
    pub user: [u8; 32],
    pub market_id: u64,
    pub user_stake: u64,
    pub user_vote: u8,
    /// The voter's estimate, 0 to 100.
    pub user_probability: u8,
    pub user_conviction: u16,
    /// 0 for No, 1 for Yes.
    pub market_outcome: u8,
    pub total_winning_stake: u64,
    pub total_losing_stake: u64,
    /// Pool from which accurate estimates are rewarded.
    pub accuracy_bonus: u64,
    /// Pool from which conviction is rewarded.
    pub conviction_bonus: u64,
}

impl PayoutData {
    /// The voter chose the outcome that came.
    pub open spec fn won(self) -> bool {
        self.user_vote == self.market_outcome
    }

    /// The voter's part of the losing side's stake, in proportion to the
    /// voter's own stake among the winners.
    pub open spec fn losing_share(self) -> nat {
        if self.total_winning_stake > 0 {
            (self.user_stake as nat * self.total_losing_stake as nat)
                / self.total_winning_stake as nat
        } else {
            0
        }
    }

    /// Stake returned plus the share of the losing side.
    pub open spec fn base(self) -> nat {
        self.user_stake as nat + self.losing_share()
    }

    /// How well the estimate matched the outcome, in percent: the estimate
    /// itself for Yes, its complement for No, 50 for any other outcome.
    pub open spec fn accuracy_factor(self) -> int {
        if self.market_outcome == 1 {
            self.user_probability as int
        } else if self.market_outcome == 0 {
            100 - self.user_probability
        } else {
            50
        }
    }

    /// The part of the accuracy pool that the estimate earns.
    pub open spec fn accuracy_share(self) -> nat
        recommends
            self.accuracy_factor() >= 0,
    {
        (self.accuracy_bonus as nat * self.accuracy_factor() as nat) / 100
    }

    /// The part of the conviction pool that the conviction earns.
    pub open spec fn conviction_share(self) -> nat {
        (self.conviction_bonus as nat * self.user_conviction as nat) / 1000
    }

    /// The amount owed to a winner.
    pub open spec fn winnings(self) -> nat
        recommends
            self.accuracy_factor() >= 0,
    {
        self.base() + self.accuracy_share() + self.conviction_share()
    }

    /// The payout: nothing for a voter who lost; for a winner the winnings,
    /// provided the accuracy factor is not negative and the amount is a `u64`.
    pub open spec fn payout(self) -> Option<u64> {
        if !self.won() {
            Some(0u64)
        } else if self.accuracy_factor() < 0 || self.winnings() > u64::MAX {
            None
        } else {
            Some(self.winnings() as u64)
        }
    }
}

/// A voter who lost is paid nothing, whatever the stake and the pools.
pub proof fn lemma_loser_gets_nothing(data: PayoutData)
    requires
        data.user_vote != data.market_outcome,
    ensures
        data.payout() == Some(0u64),
{
}

/// A winner is paid at least the stake back.
pub proof fn lemma_winner_recovers_stake(data: PayoutData)
    requires
        data.won(),
        data.payout() is Some,
    ensures
        data.payout()->0 >= data.user_stake,
{
}

/// The payout depends on the claim alone: equal claims are paid equally.
pub proof fn lemma_payout_is_a_function(a: PayoutData, b: PayoutData)
    requires
        a == b,
    ensures
        a.payout() == b.payout(),
{
}

} // verus!
