//! Data model of the scanner: market observations, derived opportunities,
//! and the errors the surrounding loop has to tolerate.
//!
//! All monetary quantities are fixed-point integers. Prices and amounts are
//! `u64` values in an arbitrary but common unit; spreads and thresholds are
//! expressed in units of `1 / SPREAD_SCALE` of a percent; price impacts are
//! expressed in units of `1 / IMPACT_SCALE` of the whole.

use vstd::prelude::*;

verus! {

/// Largest price or amount the scanner accepts. A quote or transfer holding a
/// larger value is treated as malformed and filtered out during evaluation,
/// never rejected with an error.
pub const MAX_QUANTITY: u64 = 1_000_000_000_000_000;

/// Scale of spread and threshold values: one unit is 1/10_000 of a percent,
/// so a spread of half a percent is written 5_000.
pub const SPREAD_SCALE: u64 = 10_000;

/// Scale of price-impact values: IMPACT_SCALE stands for an impact of 1.0,
/// so an impact of 1.5% is written 15_000.
pub const IMPACT_SCALE: u64 = 1_000_000;

/// Direction of a trade.
#[derive(Clone, Copy, Debug, PartialEq, Eq, Structural)]
pub enum TradeAction {
    Buy,
    Sell,
}

impl TradeAction {
    /// The direction that reverses this one.
    pub open spec fn spec_opposite(self) -> TradeAction {
        match self {
            TradeAction::Buy => TradeAction::Sell,
            TradeAction::Sell => TradeAction::Buy,
        }
    }

    pub fn opposite(self) -> (r: TradeAction)
        ensures
            r == self.spec_opposite(),
    {
        match self {
            TradeAction::Buy => TradeAction::Sell,
            TradeAction::Sell => TradeAction::Buy,
        }
    }
}

/// One of the two venues quoting an instrument.
#[derive(Clone, Copy, Debug, PartialEq, Eq, Structural)]
pub enum Venue {
    A,
    B,
}

/// The same instrument quoted on two venues at one instant.
///
/// A quote is well formed when both prices are positive and no larger than
/// `MAX_QUANTITY`; anything else is malformed upstream data.
#[derive(Debug)]
pub struct VenuePrice {
    pub pair_name: String,
    pub price_a: u64,
    pub price_b: u64,
}

impl VenuePrice {
    pub open spec fn valid(self) -> bool {
        0 < self.price_a <= MAX_QUANTITY && 0 < self.price_b <= MAX_QUANTITY
    }

    pub fn is_valid(&self) -> (r: bool)
        ensures
            r == self.valid(),
    {
        0 < self.price_a && self.price_a <= MAX_QUANTITY && 0 < self.price_b
            && self.price_b <= MAX_QUANTITY
    }
}

/// One observed pending transaction.
///
/// `expected_impact` is the anticipated relative price impact of the trade,
/// in `IMPACT_SCALE` units; a transfer is well formed when the impact is at
/// most 1.0 and the amount is at most `MAX_QUANTITY`.
#[derive(Debug)]
pub struct PendingTransfer {
    pub id: String,
    pub sender: String,
    pub pair_name: String,
    pub side: TradeAction,
    pub amount: u64,
    pub expected_impact: u64,
}

impl PendingTransfer {
    pub open spec fn valid(self) -> bool {
        self.amount <= MAX_QUANTITY && self.expected_impact <= IMPACT_SCALE
    }

    pub fn is_valid(&self) -> (r: bool)
        ensures
            r == self.valid(),
    {
        self.amount <= MAX_QUANTITY && self.expected_impact <= IMPACT_SCALE
    }
}

/// A cross-venue spread at or above the configured threshold.
///
/// `spread_pct` is the relative price difference in `SPREAD_SCALE` units;
/// the buy venue is the one with the lower quote (venue A on a tie).
#[derive(Debug)]
pub struct ArbitrageOpportunity {
    pub instrument: VenuePrice,
    pub spread_pct: u64,
    pub buy_venue: Venue,
    pub sell_venue: Venue,
}

/// A pending transfer worth sandwiching: a front-run trade in the victim's
/// direction followed by a back-run trade that reverses it.
#[derive(Debug)]
pub struct SandwichOpportunity {
    pub victim: PendingTransfer,
    pub front_side: TradeAction,
    pub back_side: TradeAction,
    pub front_amount: u64,
    pub estimated_profit: u64,
}

/// A scored opportunity of either strategy, as handed to the ranker and the
/// reporter.
#[derive(Debug)]
pub enum Opportunity {
    Arbitrage(ArbitrageOpportunity),
    Sandwich(SandwichOpportunity),
}

/// Why a poll of the market source yielded no snapshot. A poll that exceeds
/// its timeout is reported as `Timeout` and treated like any other failure.
#[derive(Clone, Copy, Debug, PartialEq, Eq, Structural)]
pub enum SourceError {
    Unreachable,
    Malformed,
    Timeout,
}

/// The market state sampled at one tick: either a batch of cross-venue
/// quotes or a batch of pending transfers, depending on the source.
#[derive(Debug)]
pub enum Snapshot {
    Prices(Vec<VenuePrice>),
    Transfers(Vec<PendingTransfer>),
}

/// What one poll of the market source produced.
#[derive(Debug)]
pub enum PollOutcome {
    Sampled(Snapshot),
    Failed(SourceError),
}

} // verus!
