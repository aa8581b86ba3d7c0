//! Settlement engine for private prediction markets.
//!
//! Votes are checked, folded into the running totals of a market, priced into
//! odds, screened for coordinated voting and finally paid out. Every function
//! here works on plain values and carries a contract over the mathematical
//! model of the market; the surrounding ledger program seals and opens the
//! values, queues the computations and keeps the accounts.
//!
//! - [`vote`], [`tally`], [`payout`], [`odds`], [`manipulation`] and
//!   [`encoding`] hold the data and its model: what a valid vote is, what a
//!   fold does to the totals, what a quote, a payout and a suspicion score
//!   are, and how revealed figures are laid out in bytes.
//! - [`circuits`] computes on one vote at a time, [`batch`] on batches of
//!   fixed capacity.
//! - [`computation`], [`ledger`] and [`coordinator`] decide what the ledger
//!   program does for each request and each callback of a market with sealed
//!   votes; [`open_market`] does so for a market with open votes.
//! - [`oracle`] and [`oracle_basic`] resolve the outcome of a market.

pub mod vote;
pub mod tally;
pub mod payout;
pub mod odds;
pub mod manipulation;
pub mod encoding;
pub mod circuits;
pub mod batch;
pub mod computation;
pub mod ledger;
pub mod coordinator;
pub mod open_market;
pub mod oracle;
pub mod oracle_basic;
