//! Public odds of a market, derived from the stake on each side.

use vstd::prelude::*;
use crate::tally::Tally;

verus! {

/// Total stake above which the tight spread applies.
pub const DEEP_LIQUIDITY: u64 = 10000;

/// Total stake above which the middle spread applies, and above which the
/// odds count as confident.
pub const FAIR_LIQUIDITY: u64 = 1000;

/// Quote with no stake on either side.
pub const EVEN_ODDS: u8 = 50;

/// Stake on both sides together.
pub open spec fn total_stake(t: Tally) -> nat {
    t.yes_stake + t.no_stake
}

/// The percentage of a quote that remains after the spread: 95 in a deep
/// market, 90 in a fair one, 85 in a thin one.
pub open spec fn liquidity_factor(total: nat) -> nat {
    if total > DEEP_LIQUIDITY {
        95
    } else if total > FAIR_LIQUIDITY {
        90
    } else {
        85
    }
}

/// The share of one side in the total stake, in whole percent.
pub open spec fn implied_probability(side: nat, total: nat) -> nat
    recommends
        total > 0,
{
    side * 100 / total
}

/// The quote for one side: its implied probability after the spread, or the
/// even quote when nothing is staked.
pub open spec fn quote(side: nat, total: nat) -> nat {
    if total == 0 {
        EVEN_ODDS as nat
    } else {
        implied_probability(side, total) * liquidity_factor(total) / 100
    }
}

/// The odds rest on enough stake.
pub open spec fn is_high_confidence(total: nat) -> bool {
    total > FAIR_LIQUIDITY
}

/// Mean conviction per unit of stake; with nothing staked it is taken over
/// one unit.
pub open spec fn average_conviction(t: Tally) -> nat {
    (t.conviction_weighted_yes + t.conviction_weighted_no) / (if total_stake(t) >= 1 {
        total_stake(t)
    } else {
        1
    })
}

/// A quote is a percentage, and after the spread at most 95 unless nothing is
/// staked.
pub proof fn lemma_quote_bound(side: nat, total: nat)
    requires
        side <= total,
    ensures
        quote(side, total) <= 95,
        total == 0 ==> quote(side, total) == 50,
{
    if total > 0 {
        let f = liquidity_factor(total);
        assert(side * 100 / total <= 100) by (nonlinear_arith)
            requires
                side <= total,
                total > 0,
        ;
        let p = implied_probability(side, total);
        assert(p * f / 100 <= 95) by (nonlinear_arith)
            requires
                p <= 100,
                f <= 95,
        ;
    }
}

/// With nothing staked on either side the quotes are even and the odds are
/// not confident.
pub proof fn lemma_odds_without_stake(t: Tally)
    requires
        t.yes_stake == 0,
        t.no_stake == 0,
    ensures
        quote(t.yes_stake, total_stake(t)) == 50,
        quote(t.no_stake, total_stake(t)) == 50,
        !is_high_confidence(total_stake(t)),
{
}

} // verus!
