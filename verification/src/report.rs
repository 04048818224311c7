//! Turning an accepted opportunity into a structured action plan.
//!
//! Reporting is a pure projection: it never fails, never touches the
//! network, and accepts every opportunity value, including ones of zero
//! estimated value. Filtering is the ranker's job, not the reporter's.

use vstd::prelude::*;

use crate::config::StrategyKind;
use crate::model::ArbitrageOpportunity;
use crate::model::Opportunity;
use crate::model::SandwichOpportunity;
use crate::model::TradeAction;
use crate::model::Venue;

verus! {

/// One trade of an action plan. Arbitrage legs carry a venue and a limit
/// price; sandwich legs carry an amount.
#[derive(Debug)]
pub struct TradeLeg {
    pub action: TradeAction,
    pub venue: Option<Venue>,
    pub price: Option<u64>,
    pub amount: Option<u64>,
}

/// A structured, emission-ready description of the action a strategy would
/// take and its estimated monetary outcome, in the same fixed-point units
/// as the opportunity it was derived from.
#[derive(Debug)]
pub struct ActionPlan {
    pub strategy: StrategyKind,
    pub pair_name: String,
    pub legs: Vec<TradeLeg>,
    pub estimated_value: u64,
}

/// The lower of the two quotes of an instrument.
pub open spec fn spec_low_price(o: ArbitrageOpportunity) -> u64 {
    if o.instrument.price_a <= o.instrument.price_b {
        o.instrument.price_a
    } else {
        o.instrument.price_b
    }
}

/// The higher of the two quotes of an instrument.
pub open spec fn spec_high_price(o: ArbitrageOpportunity) -> u64 {
    if o.instrument.price_a <= o.instrument.price_b {
        o.instrument.price_b
    } else {
        o.instrument.price_a
    }
}

/// The legs of an arbitrage plan: buy at the cheaper quote, sell at the
/// dearer one, venues as the opportunity tagged them.
pub open spec fn spec_arbitrage_legs(o: ArbitrageOpportunity) -> Seq<TradeLeg> {
    seq![
        TradeLeg {
            action: TradeAction::Buy,
            venue: Option::Some(o.buy_venue),
            price: Option::Some(spec_low_price(o)),
            amount: Option::None,
        },
        TradeLeg {
            action: TradeAction::Sell,
            venue: Option::Some(o.sell_venue),
            price: Option::Some(spec_high_price(o)),
            amount: Option::None,
        },
    ]
}

/// The legs of a sandwich plan: the front-run trade, then the back-run
/// trade that reverses it, both sized at the front-run amount.
pub open spec fn spec_sandwich_legs(o: SandwichOpportunity) -> Seq<TradeLeg> {
    seq![
        TradeLeg {
            action: o.front_side,
            venue: Option::None,
            price: Option::None,
            amount: Option::Some(o.front_amount),
        },
        TradeLeg {
            action: o.back_side,
            venue: Option::None,
            price: Option::None,
            amount: Option::Some(o.front_amount),
        },
    ]
}

/// What a plan says for a given opportunity: the strategy kind and pair of
/// the opportunity, its legs, and as estimated outcome the per-unit price
/// difference for arbitrage or the estimated profit for a sandwich.
pub open spec fn plan_matches(p: ActionPlan, o: Opportunity) -> bool {
    match o {
        Opportunity::Arbitrage(a) => {
            &&& p.strategy == StrategyKind::Arbitrage
            &&& p.pair_name == a.instrument.pair_name
            &&& p.legs@ == spec_arbitrage_legs(a)
            &&& p.estimated_value == spec_high_price(a) - spec_low_price(a)
        },
        Opportunity::Sandwich(s) => {
            &&& p.strategy == StrategyKind::Sandwich
            &&& p.pair_name == s.victim.pair_name
            &&& p.legs@ == spec_sandwich_legs(s)
            &&& p.estimated_value == s.estimated_profit
        },
    }
}

/// Project an opportunity onto the plan a strategy would execute. Total:
/// no opportunity value is rejected, whatever its estimated outcome.
pub fn report(o: Opportunity) -> (p: ActionPlan)
    ensures
        plan_matches(p, o),
{
    match o {
        Opportunity::Arbitrage(a) => {
            let (lo, hi) = if a.instrument.price_a <= a.instrument.price_b {
                (a.instrument.price_a, a.instrument.price_b)
            } else {
                (a.instrument.price_b, a.instrument.price_a)
            };
            let mut legs: Vec<TradeLeg> = Vec::new();
            legs.push(
                TradeLeg {
                    action: TradeAction::Buy,
                    venue: Some(a.buy_venue),
                    price: Some(lo),
                    amount: None,
                },
            );
            legs.push(
                TradeLeg {
                    action: TradeAction::Sell,
                    venue: Some(a.sell_venue),
                    price: Some(hi),
                    amount: None,
                },
            );
            proof {
                assert(legs@ =~= spec_arbitrage_legs(a));
            }
            ActionPlan {
                strategy: StrategyKind::Arbitrage,
                pair_name: a.instrument.pair_name,
                legs,
                estimated_value: hi - lo,
            }
        },
        Opportunity::Sandwich(s) => {
            let mut legs: Vec<TradeLeg> = Vec::new();
            legs.push(
                TradeLeg {
                    action: s.front_side,
                    venue: None,
                    price: None,
                    amount: Some(s.front_amount),
                },
            );
            legs.push(
                TradeLeg {
                    action: s.back_side,
                    venue: None,
                    price: None,
                    amount: Some(s.front_amount),
                },
            );
            proof {
                assert(legs@ =~= spec_sandwich_legs(s));
            }
            ActionPlan {
                strategy: StrategyKind::Sandwich,
                pair_name: s.victim.pair_name,
                legs,
                estimated_value: s.estimated_profit,
            }
        },
    }
}

} // verus!
