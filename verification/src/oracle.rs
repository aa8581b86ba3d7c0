//! Resolution of a market's outcome: optimistic proposals with a challenge
//! period, aggregated price feeds, and the consensus of staked validators.

use vstd::prelude::*;
use vstd::relations::{sorted_by, total_ordering};
use vstd::slice::slice_to_vec;

verus! {

pub use crate::ledger::OracleType;

/// Where a proposed resolution stands.
#[derive(Clone, Copy, Debug, PartialEq, Eq, Structural)]
pub enum ResolutionStatus {
    Pending,
    Proposed,
    Disputed,
    Finalized,
    Invalid,
}

/// Where the data behind a resolution comes from.
#[derive(Clone, Debug, PartialEq, Eq)]
pub enum DataSource {
    CoinbasePrice,
    BinancePrice,
    KrakenPrice,
    SportsApi,
    NewsApi,
    GovernmentData,
    WeatherApi,
    Custom(String),
}

/// A proposed resolution of a market.
#[derive(Clone, Debug, PartialEq, Eq)]
pub struct OracleProposal {
    pub market: [u8; 32],
    pub proposer: [u8; 32],
    pub oracle_type: OracleType,
    pub proposed_outcome: bool,
    /// 0 to 100.
    pub confidence_score: u8,
    pub data_sources: Vec<DataSource>,
    /// Hash of the supporting evidence.
    pub evidence_hash: [u8; 32],
    pub proposal_timestamp: i64,
    pub challenge_period_end: i64,
    pub bond_amount: u64,
    pub status: ResolutionStatus,
    pub dispute_count: u8,
    pub final_outcome: Option<bool>,
    pub resolution_metadata: [u8; 500],
    pub bump: u8,
}

/// A validator that takes part in consensus resolutions.
#[derive(Clone, Debug, PartialEq, Eq)]
pub struct OracleValidator {
    pub validator: [u8; 32],
    pub stake_amount: u64,
    pub reputation_score: u16,
    pub total_resolutions: u32,
    pub correct_resolutions: u32,
    pub last_activity: i64,
    pub is_active: bool,
    /// The categories that the validator specializes in.
    pub specialization: Vec<u8>,
    pub bond_locked: u64,
    pub slash_count: u8,
    pub bump: u8,
}

/// A dispute against a proposed resolution.
#[derive(Clone, Debug, PartialEq, Eq)]
pub struct OracleDispute {
    pub proposal: [u8; 32],
    pub disputer: [u8; 32],
    pub dispute_reason: String,
    pub counter_evidence_hash: [u8; 32],
    pub dispute_timestamp: i64,
    pub dispute_bond: u64,
    pub is_resolved: bool,
    pub was_valid: Option<bool>,
    pub bump: u8,
}

/// How an aggregated price is held against the target.
#[derive(Clone, Copy, Debug, PartialEq, Eq, Structural)]
pub enum PriceComparison {
    GreaterThan,
    LessThan,
    /// Lowest and highest price of the range, both included.
    Between(u64, u64),
    /// The price to hit, within a thousandth of it.
    ExactlyAt(u64),
}

/// How the prices of several feeds become one.
#[derive(Clone, Copy, Debug, PartialEq, Eq, Structural)]
pub enum AggregationMethod {
    Median,
    Mean,
    Mode,
    WeightedAverage,
}

/// A market on the price of an asset.
#[derive(Clone, Debug, PartialEq, Eq)]
pub struct PriceOracle {
    pub asset_symbol: String,
    /// Price threshold in millionths of a dollar.
    pub target_price: u64,
    pub comparison_type: PriceComparison,
    pub data_sources: Vec<DataSource>,
    pub aggregation_method: AggregationMethod,
    pub observation_window: i64,
    /// The least number of feeds that a resolution needs.
    pub minimum_sources: u8,
}

/// What a market on a sports event asks.
#[derive(Clone, Debug, PartialEq, Eq)]
pub enum SportsOutcomeType {
    Winner,
    ScoreOver(u32),
    PlayerPerformance(String),
    SeasonOutcome,
}

/// A market on a sports event.
#[derive(Clone, Debug, PartialEq, Eq)]
pub struct SportsOracle {
    pub league: String,
    pub event_id: String,
    pub team_a: String,
    pub team_b: String,
    pub event_date: i64,
    pub outcome_type: SportsOutcomeType,
    pub api_endpoints: Vec<String>,
    /// Delay before the market settles by itself.
    pub settlement_delay: i64,
}

/// What a market on the weather measures.
#[derive(Clone, Copy, Debug, PartialEq, Eq, Structural)]
pub enum WeatherMetric {
    Temperature,
    Precipitation,
    WindSpeed,
    Humidity,
    Pressure,
    AirQuality,
}

/// Why a resolution was refused.
#[derive(Clone, Copy, Debug, PartialEq, Eq, Structural)]
pub enum OracleErrorCode {
    ChallengePeriodActive,
    RequiresValidatorResolution,
    InsufficientPriceSources,
    InsufficientValidatorParticipation,
    NoConsensusReached,
    InvalidOracleType,
    ValidatorNotEligible,
    ProposalAlreadyResolved,
    InvalidEvidenceHash,
    InsufficientBond,
}

impl OracleErrorCode {
    /// The message that goes with the error.
    pub open spec fn spec_message(self) -> Seq<char> {
        match self {
            OracleErrorCode::ChallengePeriodActive => "Challenge period is still active"@,
            OracleErrorCode::RequiresValidatorResolution =>
                "Requires validator resolution due to disputes"@,
            OracleErrorCode::InsufficientPriceSources =>
                "Insufficient price sources for resolution"@,
            OracleErrorCode::InsufficientValidatorParticipation =>
                "Insufficient validator participation"@,
            OracleErrorCode::NoConsensusReached => "No consensus reached among validators"@,
            OracleErrorCode::InvalidOracleType =>
                "Invalid oracle type for this resolution method"@,
            OracleErrorCode::ValidatorNotEligible => "Validator not eligible to participate"@,
            OracleErrorCode::ProposalAlreadyResolved => "Oracle proposal already resolved"@,
            OracleErrorCode::InvalidEvidenceHash => "Invalid evidence hash"@,
            OracleErrorCode::InsufficientBond => "Insufficient bond amount"@,
        }
    }

    /// The message that goes with the error.
    pub fn message(&self) -> (message: &'static str)
        ensures
            message@ == self.spec_message(),
    {
        match self {
            OracleErrorCode::ChallengePeriodActive => "Challenge period is still active",
            OracleErrorCode::RequiresValidatorResolution =>
                "Requires validator resolution due to disputes",
            OracleErrorCode::InsufficientPriceSources => "Insufficient price sources for resolution",
            OracleErrorCode::InsufficientValidatorParticipation =>
                "Insufficient validator participation",
            OracleErrorCode::NoConsensusReached => "No consensus reached among validators",
            OracleErrorCode::InvalidOracleType => "Invalid oracle type for this resolution method",
            OracleErrorCode::ValidatorNotEligible => "Validator not eligible to participate",
            OracleErrorCode::ProposalAlreadyResolved => "Oracle proposal already resolved",
            OracleErrorCode::InvalidEvidenceHash => "Invalid evidence hash",
            OracleErrorCode::InsufficientBond => "Insufficient bond amount",
        }
    }
}

/// Seconds in which a proposal can be disputed.
pub const DISPUTE_WINDOW: i64 = 86400;

/// Slashes after which a validator is banned for good.
pub const MAX_SLASHES: u8 = 3;

/// Lamports of stake per unit of voting weight.
pub const STAKE_PER_WEIGHT: u64 = 1_000_000;

/// The bond that a proposal of the given oracle type must post, in lamports.
pub open spec fn required_bond(oracle_type: OracleType) -> u64 {
    match oracle_type {
        OracleType::UmaOptimistic => 1_000_000_000,
        OracleType::ChainlinkPrice => 100_000_000,
        OracleType::CustomValidated => 500_000_000,
        OracleType::Community => 50_000_000,
    }
}

impl OracleProposal {
    /// Size of a stored proposal in bytes.
    pub const LEN: usize = 8 + 32 + 32 + 1 + 1 + 1 + 4 + 32 + 8 + 8 + 8 + 1 + 1 + 1 + 500 + 1;

    /// Tells whether the challenge period is over at the given time.
    pub fn is_challenge_period_expired(&self, current_timestamp: i64) -> (expired: bool)
        ensures
            expired == (current_timestamp > self.challenge_period_end),
    {
        current_timestamp > self.challenge_period_end
    }

    /// The bond that a proposal of the given oracle type must post, in lamports.
    pub fn calculate_required_bond(&self, oracle_type: &OracleType) -> (bond: u64)
        ensures
            bond == required_bond(*oracle_type),
    {
        match oracle_type {
            OracleType::UmaOptimistic => 1_000_000_000,
            OracleType::ChainlinkPrice => 100_000_000,
            OracleType::CustomValidated => 500_000_000,
            OracleType::Community => 50_000_000,
        }
    }
}

impl OracleValidator {
    /// Size of a stored validator in bytes.
    pub const LEN: usize = 8 + 32 + 8 + 2 + 4 + 4 + 8 + 1 + 4 + 8 + 1 + 1;

    /// The validator is active, has the stake asked for and has been slashed
    /// fewer than three times.
    pub open spec fn spec_has_standing(self, required_stake: u64) -> bool {
        self.is_active && self.stake_amount >= required_stake && self.slash_count < MAX_SLASHES
    }

    /// Tells whether the validator is active, has the stake asked for and has
    /// been slashed fewer than three times. A validator without this standing
    /// is not eligible, whatever its accuracy.
    pub fn has_standing(&self, required_stake: u64) -> (standing: bool)
        ensures
            standing == self.spec_has_standing(required_stake),
    {
        self.is_active && self.stake_amount >= required_stake && self.slash_count < MAX_SLASHES
    }

    /// The voting weight of a validator whose accuracy earns `accuracy_bonus`:
    /// one unit per million lamports of stake, the accuracy bonus, and the
    /// reputation score. `None` exactly when the weight is not a `u64`.
    pub fn voting_weight(&self, accuracy_bonus: u64) -> (weight: Option<u64>)
        ensures
            weight is Some <==> self.stake_amount / STAKE_PER_WEIGHT + accuracy_bonus
                + self.reputation_score <= u64::MAX,
            weight matches Some(w) ==> w == self.stake_amount / STAKE_PER_WEIGHT + accuracy_bonus
                + self.reputation_score,
    {
        let base_weight: u64 = self.stake_amount / STAKE_PER_WEIGHT;
        let reputation_bonus: u64 = self.reputation_score as u64;
        match base_weight.checked_add(accuracy_bonus) {
            Some(partial) => partial.checked_add(reputation_bonus),
            None => None,
        }
    }
}

impl OracleDispute {
    /// Size of a stored dispute in bytes.
    pub const LEN: usize = 8 + 32 + 32 + 4 + 200 + 32 + 8 + 8 + 1 + 1 + 1;

    /// Tells whether a dispute raised at `current_timestamp` against a
    /// proposal of `proposal_timestamp` is within the dispute window.
    pub fn is_valid_dispute_period(
        &self,
        proposal_timestamp: i64,
        current_timestamp: i64,
    ) -> (valid: bool)
        ensures
            valid == (current_timestamp - proposal_timestamp <= DISPUTE_WINDOW),
    {
        current_timestamp as i128 - proposal_timestamp as i128 <= DISPUTE_WINDOW as i128
    }
}

/// The vote of one validator with its weight.
#[derive(Clone, Copy, Debug, PartialEq, Eq)]
pub struct ValidatorVote {
    pub validator: [u8; 32],
    pub vote: bool,
    pub weight: u64,
}

/// The order of prices.
pub open spec fn price_order() -> spec_fn(u64, u64) -> bool {
    |a: u64, b: u64| a <= b
}

/// The sum of the prices.
pub open spec fn sum_of(prices: Seq<u64>) -> nat
    decreases prices.len(),
{
    if prices.len() == 0 {
        0
    } else {
        sum_of(prices.drop_last()) + prices.last() as nat
    }
}

/// The mean of the prices, rounded down.
pub open spec fn mean_of(prices: Seq<u64>) -> nat
    recommends
        prices.len() > 0,
{
    sum_of(prices) / prices.len()
}

/// The median of prices that are in ascending order: the middle one, or the
/// mean of the two middle ones, rounded down.
pub open spec fn middle_of(sorted: Seq<u64>) -> nat
    recommends
        sorted.len() > 0,
{
    let len = sorted.len() as int;
    if len % 2 == 0 {
        ((sorted[len / 2 - 1] + sorted[len / 2]) / 2) as nat
    } else {
        sorted[len / 2] as nat
    }
}

/// The median of the prices.
pub open spec fn median_of(prices: Seq<u64>) -> nat
    recommends
        prices.len() > 0,
{
    middle_of(prices.sort_by(price_order()))
}

/// How often `price` occurs among the prices.
pub open spec fn occurrences(prices: Seq<u64>, price: u64) -> nat
    decreases prices.len(),
{
    if prices.len() == 0 {
        0
    } else {
        occurrences(prices.drop_last(), price) + if prices.last() == price {
            1nat
        } else {
            0nat
        }
    }
}

/// `price` is among the prices and none occurs more often.
pub open spec fn is_mode(prices: Seq<u64>, price: u64) -> bool {
    &&& prices.contains(price)
    &&& forall|other: u64| occurrences(prices, other) <= occurrences(prices, price)
}

/// `price` is the first of the prices that occur most often.
pub open spec fn is_first_mode(prices: Seq<u64>, price: u64) -> bool {
    &&& is_mode(prices, price)
    &&& exists|i: int|
        0 <= i < prices.len() && prices[i] == price && forall|k: int|
            0 <= k < i ==> occurrences(prices, #[trigger] prices[k]) < occurrences(prices, price)
}

/// The sum of the weights of the votes for the given side.
pub open spec fn weight_for(votes: Seq<ValidatorVote>, side: bool) -> nat
    decreases votes.len(),
{
    if votes.len() == 0 {
        0
    } else {
        weight_for(votes.drop_last(), side) + if votes.last().vote == side {
            votes.last().weight as nat
        } else {
            0nat
        }
    }
}

/// The sum of the weights of all votes.
pub open spec fn total_weight(votes: Seq<ValidatorVote>) -> nat {
    weight_for(votes, true) + weight_for(votes, false)
}

/// The weight that a side needs: two thirds of all the weight cast, rounded
/// down.
pub open spec fn supermajority(votes: Seq<ValidatorVote>) -> nat {
    total_weight(votes) * 2 / 3
}

/// The outcome that the price stands for.
pub open spec fn price_outcome(price_oracle: PriceOracle, price: nat) -> bool {
    match price_oracle.comparison_type {
        PriceComparison::GreaterThan => price > price_oracle.target_price,
        PriceComparison::LessThan => price < price_oracle.target_price,
        PriceComparison::Between(min, max) => min <= price <= max,
        PriceComparison::ExactlyAt(target) => {
            let tolerance = target / 1000;
            if price >= target {
                price - target <= tolerance
            } else {
                target - price <= tolerance
            }
        },
    }
}

/// A sum of prices is at most as many times the largest `u64`.
pub proof fn lemma_sum_bound(prices: Seq<u64>)
    ensures
        sum_of(prices) <= prices.len() * u64::MAX,
    decreases prices.len(),
{
    if prices.len() > 0 {
        lemma_sum_bound(prices.drop_last());
        assert((prices.len() - 1) * u64::MAX + u64::MAX == prices.len() * u64::MAX)
            by (nonlinear_arith);
    }
}

/// A price occurs at most as often as there are prices.
pub proof fn lemma_occurrences_bound(prices: Seq<u64>, price: u64)
    ensures
        occurrences(prices, price) <= prices.len(),
    decreases prices.len(),
{
    if prices.len() > 0 {
        lemma_occurrences_bound(prices.drop_last(), price);
    }
}

/// A price that occurs is among the prices.
pub proof fn lemma_occurs_means_contained(prices: Seq<u64>, price: u64)
    requires
        occurrences(prices, price) > 0,
    ensures
        prices.contains(price),
    decreases prices.len(),
{
    if prices.len() > 0 {
        if prices.last() == price {
            assert(prices[prices.len() - 1] == price);
        } else {
            lemma_occurs_means_contained(prices.drop_last(), price);
            let i = choose|i: int| 0 <= i < prices.drop_last().len() && prices.drop_last()[i] == price;
            assert(prices[i] == price);
        }
    }
}

/// The order of prices is a total order.
pub proof fn lemma_price_order_is_total()
    ensures
        total_ordering(price_order()),
{
}

/// The weights of the votes sum to at most as many times the largest `u64`.
pub proof fn lemma_weight_bound(votes: Seq<ValidatorVote>)
    ensures
        total_weight(votes) <= votes.len() * u64::MAX,
    decreases votes.len(),
{
    if votes.len() > 0 {
        lemma_weight_bound(votes.drop_last());
        assert((votes.len() - 1) * u64::MAX + u64::MAX == votes.len() * u64::MAX)
            by (nonlinear_arith);
    }
}

/// `sort` of std's slices, called on the vector: it puts the prices in
/// ascending order and keeps each price as often as it was there.
#[verifier::external_body]
fn sort_prices(prices: &mut Vec<u64>)
    ensures
        final(prices)@.to_multiset() == old(prices)@.to_multiset(),
        forall|i: int, j: int|
            0 <= i < j < final(prices)@.len() ==> final(prices)@[i] <= final(prices)@[j],
{
    prices.sort();
}

/// The algorithms that resolve a market.
pub struct OracleResolution;

impl OracleResolution {
    /// Resolves an optimistic proposal.
    ///
    /// An undisputed proposal whose challenge period is over stands with its
    /// proposed outcome. A disputed proposal goes to the validators; an
    /// undisputed one whose challenge period still runs has to wait.
    pub fn resolve_optimistic(
        proposal: &OracleProposal,
        disputes: &[OracleDispute],
        current_timestamp: i64,
    ) -> (result: Result<bool, OracleErrorCode>)
        ensures
            result == if disputes@.len() > 0 {
                Err::<bool, OracleErrorCode>(OracleErrorCode::RequiresValidatorResolution)
            } else if current_timestamp > proposal.challenge_period_end {
                Ok::<bool, OracleErrorCode>(proposal.proposed_outcome)
            } else {
                Err::<bool, OracleErrorCode>(OracleErrorCode::ChallengePeriodActive)
            },
    {
        if disputes.len() == 0 && proposal.is_challenge_period_expired(current_timestamp) {
            return Ok(proposal.proposed_outcome);
        }
        if disputes.len() != 0 {
            return Err(OracleErrorCode::RequiresValidatorResolution);
        }
        Err(OracleErrorCode::ChallengePeriodActive)
    }

    /// The price that the feeds stand for under the given method. The
    /// weighted average weighs all feeds alike, and the mode is the first of
    /// the prices that occur most often.
    pub open spec fn aggregate_is(method: AggregationMethod, prices: Seq<u64>, price: u64) -> bool {
        match method {
            AggregationMethod::Median => price == median_of(prices),
            AggregationMethod::Mean => price == mean_of(prices),
            AggregationMethod::Mode => is_first_mode(prices, price),
            AggregationMethod::WeightedAverage => price == mean_of(prices),
        }
    }

    /// Resolves a market on a price from the prices of its feeds.
    ///
    /// Refused with `InsufficientPriceSources` where there are fewer feeds
    /// than the market asks for. Otherwise the feeds are aggregated and the
    /// result is held against the target.
    pub fn resolve_price_oracle(
        price_oracle: &PriceOracle,
        price_feeds: &[u64],
        current_timestamp: i64,
    ) -> (result: Result<bool, OracleErrorCode>)
        requires
            price_feeds@.len() > 0 || price_oracle.minimum_sources > 0,
        ensures
            result is Err <==> price_feeds@.len() < price_oracle.minimum_sources,
            result matches Err(e) ==> e == OracleErrorCode::InsufficientPriceSources,
            result matches Ok(outcome) ==> exists|price: u64|
                #[trigger] Self::aggregate_is(price_oracle.aggregation_method, price_feeds@, price)
                    && outcome == price_outcome(*price_oracle, price as nat),
    {
        if price_feeds.len() < price_oracle.minimum_sources as usize {
            return Err(OracleErrorCode::InsufficientPriceSources);
        }
        let aggregated_price: u64 = match price_oracle.aggregation_method {
            AggregationMethod::Median => Self::calculate_median(price_feeds),
            AggregationMethod::Mean => Self::calculate_mean(price_feeds),
            AggregationMethod::Mode => Self::calculate_mode(price_feeds),
            AggregationMethod::WeightedAverage => Self::calculate_weighted_average(price_feeds),
        };
        assert(Self::aggregate_is(price_oracle.aggregation_method, price_feeds@, aggregated_price));
        Ok(Self::compare_price(price_oracle, aggregated_price))
    }

    /// Holds an aggregated price against the target of a market.
    pub fn compare_price(price_oracle: &PriceOracle, aggregated_price: u64) -> (outcome: bool)
        ensures
            outcome == price_outcome(*price_oracle, aggregated_price as nat),
    {
        match price_oracle.comparison_type {
            PriceComparison::GreaterThan => aggregated_price > price_oracle.target_price,
            PriceComparison::LessThan => aggregated_price < price_oracle.target_price,
            PriceComparison::Between(min, max) => aggregated_price >= min && aggregated_price
                <= max,
            PriceComparison::ExactlyAt(target) => {
                let tolerance: u64 = target / 1000;
                if aggregated_price >= target {
                    aggregated_price - target <= tolerance
                } else {
                    target - aggregated_price <= tolerance
                }
            },
        }
    }

    /// Decides by the weight of the validators' votes.
    ///
    /// A side that has two thirds of the weight cast, rounded down, carries
    /// the resolution, Yes before No. Otherwise there is no consensus.
    pub fn resolve_by_supermajority(
        votes: &[ValidatorVote],
    ) -> (result: Result<bool, OracleErrorCode>)
        ensures
            result == if weight_for(votes@, true) >= supermajority(votes@) {
                Ok::<bool, OracleErrorCode>(true)
            } else if weight_for(votes@, false) >= supermajority(votes@) {
                Ok::<bool, OracleErrorCode>(false)
            } else {
                Err::<bool, OracleErrorCode>(OracleErrorCode::NoConsensusReached)
            },
    {
        let mut yes_weight: u128 = 0;
        let mut no_weight: u128 = 0;
        let mut i: usize = 0;
        while i < votes.len()
            invariant
                i <= votes@.len(),
                yes_weight == weight_for(votes@.take(i as int), true),
                no_weight == weight_for(votes@.take(i as int), false),
            decreases votes@.len() - i,
        {
            proof {
                lemma_weight_bound(votes@.take(i as int));
                assert(i * u64::MAX <= 0xffff_ffff_ffff_fffe * 0xffff_ffff_ffff_ffff)
                    by (nonlinear_arith)
                    requires
                        i <= 0xffff_ffff_ffff_fffe,
                ;
                assert(votes@.take(i as int + 1).drop_last() =~= votes@.take(i as int));
            }
            if votes[i].vote {
                yes_weight = yes_weight + votes[i].weight as u128;
            } else {
                no_weight = no_weight + votes[i].weight as u128;
            }
            i += 1;
        }
        proof {
            assert(votes@.take(votes@.len() as int) =~= votes@);
            lemma_weight_bound(votes@);
            assert(votes@.len() * u64::MAX <= 0xffff_ffff_ffff_ffff * 0xffff_ffff_ffff_ffff)
                by (nonlinear_arith)
                requires
                    votes@.len() <= 0xffff_ffff_ffff_ffff,
            ;
        }
        let threshold: u128 = Self::two_thirds(yes_weight, no_weight);
        if yes_weight >= threshold {
            Ok(true)
        } else if no_weight >= threshold {
            Ok(false)
        } else {
            Err(OracleErrorCode::NoConsensusReached)
        }
    }

    /// Two thirds of `a + b`, rounded down.
    fn two_thirds(a: u128, b: u128) -> (r: u128)
        requires
            a + b <= 0xffff_ffff_ffff_ffff * 0xffff_ffff_ffff_ffff,
        ensures
            r == (a + b) * 2 / 3,
    {
        let total: u128 = a + b;
        let q: u128 = total / 3;
        let rem: u128 = total % 3;
        q * 2 + (rem * 2) / 3
    }

    /// The median of the prices.
    fn calculate_median(prices: &[u64]) -> (median: u64)
        requires
            prices@.len() > 0,
        ensures
            median == median_of(prices@),
    {
        let mut sorted_prices: Vec<u64> = slice_to_vec(prices);
        sort_prices(&mut sorted_prices);
        proof {
            lemma_price_order_is_total();
            prices@.lemma_sort_by_ensures(price_order());
            assert(sorted_by(sorted_prices@, price_order()));
            vstd::seq_lib::lemma_sorted_unique(
                sorted_prices@,
                prices@.sort_by(price_order()),
                price_order(),
            );
            vstd::seq_lib::to_multiset_len(sorted_prices@);
            vstd::seq_lib::to_multiset_len(prices@);
        }
        let len: usize = sorted_prices.len();
        if len % 2 == 0 {
            ((sorted_prices[len / 2 - 1] as u128 + sorted_prices[len / 2] as u128) / 2) as u64
        } else {
            sorted_prices[len / 2]
        }
    }

    /// The mean of the prices, rounded down.
    fn calculate_mean(prices: &[u64]) -> (mean: u64)
        requires
            prices@.len() > 0,
        ensures
            mean == mean_of(prices@),
    {
        let mut sum: u128 = 0;
        let mut i: usize = 0;
        while i < prices.len()
            invariant
                i <= prices@.len(),
                sum == sum_of(prices@.take(i as int)),
            decreases prices@.len() - i,
        {
            proof {
                lemma_sum_bound(prices@.take(i as int));
                assert(i * u64::MAX <= 0xffff_ffff_ffff_fffe * 0xffff_ffff_ffff_ffff)
                    by (nonlinear_arith)
                    requires
                        i <= 0xffff_ffff_ffff_fffe,
                ;
                assert(prices@.take(i as int + 1).drop_last() =~= prices@.take(i as int));
            }
            sum = sum + prices[i] as u128;
            i += 1;
        }
        proof {
            assert(prices@.take(prices@.len() as int) =~= prices@);
            lemma_sum_bound(prices@);
            let n = prices@.len();
            let s = sum_of(prices@);
            assert(s / n <= u64::MAX) by (nonlinear_arith)
                requires
                    n > 0,
                    s <= n * u64::MAX,
            ;
        }
        (sum / (prices.len() as u128)) as u64
    }

    /// How often `price` occurs among the prices.
    fn count_occurrences(prices: &[u64], price: u64) -> (count: usize)
        ensures
            count == occurrences(prices@, price),
    {
        let mut count: usize = 0;
        let mut j: usize = 0;
        while j < prices.len()
            invariant
                j <= prices@.len(),
                count == occurrences(prices@.take(j as int), price),
            decreases prices@.len() - j,
        {
            proof {
                lemma_occurrences_bound(prices@.take(j as int), price);
                assert(prices@.take(j as int + 1).drop_last() =~= prices@.take(j as int));
            }
            if prices[j] == price {
                count += 1;
            }
            j += 1;
        }
        assert(prices@.take(prices@.len() as int) =~= prices@);
        count
    }

    /// The first of the prices that occur most often.
    fn calculate_mode(prices: &[u64]) -> (mode: u64)
        requires
            prices@.len() > 0,
        ensures
            is_first_mode(prices@, mode),
    {
        let mut best: u64 = prices[0];
        let mut best_count: usize = Self::count_occurrences(prices, best);
        let ghost mut best_index: int = 0;
        let mut i: usize = 1;
        while i < prices.len()
            invariant
                1 <= i <= prices@.len(),
                0 <= best_index < i,
                prices@[best_index] == best,
                best_count == occurrences(prices@, best),
                forall|k: int|
                    0 <= k < i ==> occurrences(prices@, #[trigger] prices@[k]) <= best_count,
                forall|k: int|
                    0 <= k < best_index ==> occurrences(prices@, #[trigger] prices@[k])
                        < best_count,
            decreases prices@.len() - i,
        {
            let count: usize = Self::count_occurrences(prices, prices[i]);
            if count > best_count {
                best = prices[i];
                best_count = count;
                proof {
                    best_index = i as int;
                }
            }
            i += 1;
        }
        proof {
            assert forall|other: u64| occurrences(prices@, other) <= occurrences(
                prices@,
                best,
            ) by {
                if occurrences(prices@, other) > 0 {
                    lemma_occurs_means_contained(prices@, other);
                    let k = choose|k: int| 0 <= k < prices@.len() && prices@[k] == other;
                    assert(occurrences(prices@, prices@[k]) <= best_count);
                }
            }
            assert(prices@.contains(best));
        }
        best
    }

    /// The mean of the prices: every feed weighs the same.
    fn calculate_weighted_average(prices: &[u64]) -> (mean: u64)
        requires
            prices@.len() > 0,
        ensures
            mean == mean_of(prices@),
    {
        Self::calculate_mean(prices)
    }
}

} // verus!
