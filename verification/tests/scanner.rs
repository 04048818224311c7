use mev_scanner::arbitrage::{detect_arbitrage, spread_pct};
use mev_scanner::config::{ConfigError, ScanConfig, StrategyKind};
use mev_scanner::model::{
    Opportunity, PendingTransfer, PollOutcome, SandwichOpportunity, Snapshot, SourceError,
    TradeAction, Venue, VenuePrice, MAX_QUANTITY,
};
use mev_scanner::rank::rank;
use mev_scanner::report::report;
use mev_scanner::sandwich::{detect_sandwich, SandwichPolicy};
use mev_scanner::scan::{ScanLoop, ScanState};

// Prices are written in hundredths of the quote currency; spreads and
// thresholds in ten-thousandths of a percent; impacts in millionths.

fn quote(name: &str, a: u64, b: u64) -> VenuePrice {
    VenuePrice { pair_name: name.to_string(), price_a: a, price_b: b }
}

fn transfer(id: &str, side: TradeAction, amount: u64, impact: u64) -> PendingTransfer {
    PendingTransfer {
        id: id.to_string(),
        sender: "wallet".to_string(),
        pair_name: "SOL-USDC".to_string(),
        side,
        amount,
        expected_impact: impact,
    }
}

#[test]
fn equal_prices_excluded_at_positive_threshold() {
    let p = quote("SOL-USDC", 13625, 13625);
    assert_eq!(spread_pct(&p), 0);
    let out = detect_arbitrage(vec![quote("SOL-USDC", 13625, 13625)], 1);
    assert!(out.is_empty());
}

#[test]
fn equal_prices_included_at_zero_threshold() {
    let out = detect_arbitrage(vec![quote("SOL-USDC", 13625, 13625)], 0);
    assert_eq!(out.len(), 1);
    assert_eq!(out[0].spread_pct, 0);
    assert_eq!(out[0].buy_venue, Venue::A);
    assert_eq!(out[0].sell_venue, Venue::B);
}

#[test]
fn narrow_sol_spread_excluded() {
    // 136.25 vs 136.50 is a spread of about 0.183%, under the 0.5% threshold.
    let p = quote("SOL-USDC", 13625, 13650);
    assert_eq!(spread_pct(&p), 1833);
    let out = detect_arbitrage(vec![p], 5000);
    assert!(out.is_empty());
}

#[test]
fn wide_eth_spread_included_buying_cheaper_venue() {
    // 3420.75 vs 3440.25 is a spread of about 0.568%, over the 0.5%
    // threshold; venue A holds the lower quote.
    let p = quote("ETH-USDC", 342075, 344025);
    assert_eq!(spread_pct(&p), 5684);
    let out = detect_arbitrage(vec![p], 5000);
    assert_eq!(out.len(), 1);
    assert_eq!(out[0].spread_pct, 5684);
    assert_eq!(out[0].buy_venue, Venue::A);
    assert_eq!(out[0].sell_venue, Venue::B);
    assert_eq!(out[0].instrument.pair_name, "ETH-USDC");
}

#[test]
fn detection_filters_in_input_order_and_is_deterministic() {
    let batch = || {
        vec![
            quote("SOL-USDC", 13625, 13650),
            quote("BTC-USDC", 6124530, 6110010),
            quote("ETH-USDC", 342075, 344025),
            quote("ETH-USDC", 344025, 342075),
        ]
    };
    let out = detect_arbitrage(batch(), 5000);
    // Only the two wide ETH spreads qualify, in input order, tagged by
    // whichever venue quoted lower.
    assert_eq!(out.len(), 2);
    assert_eq!(out[0].buy_venue, Venue::A);
    assert_eq!(out[1].buy_venue, Venue::B);
    assert_eq!(out[1].sell_venue, Venue::A);
    let again = detect_arbitrage(batch(), 5000);
    assert_eq!(again.len(), out.len());
    for (x, y) in out.iter().zip(again.iter()) {
        assert_eq!(x.instrument.pair_name, y.instrument.pair_name);
        assert_eq!(x.spread_pct, y.spread_pct);
    }
}

#[test]
fn malformed_quotes_are_filtered_not_rejected() {
    let out = detect_arbitrage(
        vec![
            quote("ZERO", 0, 13650),
            quote("HUGE", 2_000_000_000_000_000, 1),
            quote("ETH-USDC", 342075, 344025),
        ],
        5000,
    );
    assert_eq!(out.len(), 1);
    assert_eq!(out[0].instrument.pair_name, "ETH-USDC");
}

#[test]
fn sandwich_example_transfer_is_priced_exactly() {
    // 100_000 units at 1.5% impact: profit 100_000 * 0.015 * 0.7 = 1050,
    // front-run amount a tenth of the victim's.
    let policy = SandwichPolicy::default();
    let out = detect_sandwich(
        vec![transfer("tx3", TradeAction::Buy, 100_000, 15_000)],
        &policy,
    );
    assert_eq!(out.len(), 1);
    assert_eq!(out[0].estimated_profit, 1050);
    assert_eq!(out[0].front_amount, 10_000);
    assert_eq!(out[0].front_side, TradeAction::Buy);
    assert_eq!(out[0].back_side, TradeAction::Sell);
}

#[test]
fn sandwich_small_transfers_never_included() {
    let policy = SandwichPolicy::default();
    // Below the 1000-unit minimum, whatever its impact.
    let out = detect_sandwich(
        vec![transfer("tiny", TradeAction::Sell, 999, 1_000_000)],
        &policy,
    );
    assert!(out.is_empty());
}

#[test]
fn sandwich_mempool_batch_keeps_only_the_big_mover() {
    let policy = SandwichPolicy::default();
    let out = detect_sandwich(
        vec![
            // 5000 units at 0.8%: profit 28, under the 50-unit floor.
            transfer("tx1", TradeAction::Buy, 5000, 8_000),
            // Far below the minimum amount.
            transfer("tx2", TradeAction::Sell, 2, 3_000),
            transfer("tx3", TradeAction::Buy, 100_000, 15_000),
        ],
        &policy,
    );
    assert_eq!(out.len(), 1);
    assert_eq!(out[0].victim.id, "tx3");
    assert_eq!(out[0].estimated_profit, 1050);
}

#[test]
fn sandwich_sell_side_reverses_with_a_buy() {
    let policy = SandwichPolicy::default();
    let out = detect_sandwich(
        vec![transfer("s", TradeAction::Sell, 100_000, 15_000)],
        &policy,
    );
    assert_eq!(out.len(), 1);
    assert_eq!(out[0].front_side, TradeAction::Sell);
    assert_eq!(out[0].back_side, TradeAction::Buy);
}

#[test]
fn malformed_impact_is_filtered() {
    let policy = SandwichPolicy::default();
    // An impact above 1.0 is malformed upstream data.
    let out = detect_sandwich(
        vec![transfer("bad", TradeAction::Buy, 100_000, 1_000_001)],
        &policy,
    );
    assert!(out.is_empty());
}

#[test]
fn largest_accepted_quote_is_still_evaluated() {
    let p = quote("EDGE", MAX_QUANTITY, MAX_QUANTITY);
    assert_eq!(spread_pct(&p), 0);
    let out = detect_arbitrage(vec![p], 0);
    assert_eq!(out.len(), 1);
}

#[test]
fn full_impact_transfer_is_priced_exactly() {
    let policy = SandwichPolicy::default();
    // An impact of exactly 1.0 is the edge of well-formed data:
    // profit 1000 * 1.0 * 0.7 = 700.
    let out = detect_sandwich(
        vec![transfer("edge", TradeAction::Buy, 1000, 1_000_000)],
        &policy,
    );
    assert_eq!(out.len(), 1);
    assert_eq!(out[0].estimated_profit, 700);
    assert_eq!(out[0].front_amount, 100);
}

fn sandwich_opportunity(id: &str, profit: u64) -> Opportunity {
    Opportunity::Sandwich(SandwichOpportunity {
        victim: transfer(id, TradeAction::Buy, 100_000, 15_000),
        front_side: TradeAction::Buy,
        back_side: TradeAction::Sell,
        front_amount: 10_000,
        estimated_profit: profit,
    })
}

fn victim_id(o: &Opportunity) -> String {
    match o {
        Opportunity::Sandwich(s) => s.victim.id.clone(),
        Opportunity::Arbitrage(a) => a.instrument.pair_name.clone(),
    }
}

#[test]
fn ranking_orders_by_descending_value() {
    let ranked = rank(
        vec![
            sandwich_opportunity("low", 10),
            sandwich_opportunity("high", 500),
            sandwich_opportunity("mid", 60),
        ],
        None,
    );
    let ids: Vec<String> = ranked.iter().map(victim_id).collect();
    assert_eq!(ids, vec!["high", "mid", "low"]);
}

#[test]
fn ranking_breaks_ties_by_input_order() {
    let ranked = rank(
        vec![
            sandwich_opportunity("first", 75),
            sandwich_opportunity("second", 75),
            sandwich_opportunity("third", 200),
            sandwich_opportunity("fourth", 75),
        ],
        None,
    );
    let ids: Vec<String> = ranked.iter().map(victim_id).collect();
    assert_eq!(ids, vec!["third", "first", "second", "fourth"]);
}

#[test]
fn ranking_truncates_to_max_results() {
    let ranked = rank(
        vec![
            sandwich_opportunity("low", 10),
            sandwich_opportunity("high", 500),
            sandwich_opportunity("mid", 60),
        ],
        Some(2),
    );
    let ids: Vec<String> = ranked.iter().map(victim_id).collect();
    assert_eq!(ids, vec!["high", "mid"]);
    assert!(rank(vec![sandwich_opportunity("x", 1)], Some(0)).is_empty());
}

#[test]
fn report_arbitrage_plan_has_buy_then_sell_legs() {
    let out = detect_arbitrage(vec![quote("ETH-USDC", 344025, 342075)], 5000);
    assert_eq!(out.len(), 1);
    let plan = report(Opportunity::Arbitrage(out.into_iter().next().unwrap()));
    assert_eq!(plan.strategy, StrategyKind::Arbitrage);
    assert_eq!(plan.pair_name, "ETH-USDC");
    assert_eq!(plan.estimated_value, 1950);
    assert_eq!(plan.legs.len(), 2);
    assert_eq!(plan.legs[0].action, TradeAction::Buy);
    assert_eq!(plan.legs[0].venue, Some(Venue::B));
    assert_eq!(plan.legs[0].price, Some(342075));
    assert_eq!(plan.legs[1].action, TradeAction::Sell);
    assert_eq!(plan.legs[1].venue, Some(Venue::A));
    assert_eq!(plan.legs[1].price, Some(344025));
}

#[test]
fn report_accepts_zero_value_opportunities() {
    let plan = report(sandwich_opportunity("zero", 0));
    assert_eq!(plan.strategy, StrategyKind::Sandwich);
    assert_eq!(plan.estimated_value, 0);
    assert_eq!(plan.legs.len(), 2);
    assert_eq!(plan.legs[0].amount, Some(10_000));
    assert_eq!(plan.legs[1].amount, Some(10_000));
}

#[test]
fn config_rejects_zero_interval() {
    let config = ScanConfig { poll_interval_ms: 0, ..ScanConfig::default() };
    assert_eq!(config.validate(), Err(ConfigError::ZeroInterval));
    assert!(ScanLoop::new(config).is_err());
}

#[test]
fn config_rejects_bad_fractions() {
    let mut config = ScanConfig::default();
    config.sandwich.slippage_den = 0;
    assert_eq!(config.validate(), Err(ConfigError::InvalidFraction));
    let mut config = ScanConfig::default();
    config.sandwich.front_run_num = 11;
    config.sandwich.front_run_den = 10;
    assert_eq!(config.validate(), Err(ConfigError::InvalidFraction));
}

#[test]
fn default_config_is_valid() {
    let config = ScanConfig::default();
    assert_eq!(config.validate(), Ok(()));
    assert_eq!(config.strategy, StrategyKind::Arbitrage);
    assert_eq!(config.threshold_pct, 5000);
    assert_eq!(config.poll_interval_ms, 3000);
    assert_eq!(config.sandwich, SandwichPolicy::default());
}

#[test]
fn failed_poll_sleeps_and_the_loop_survives() {
    let mut scan = ScanLoop::new(ScanConfig::default()).unwrap();
    assert_eq!(scan.state, ScanState::Idle);
    scan.start();
    assert_eq!(scan.state, ScanState::Polling);
    scan.on_poll(PollOutcome::Failed(SourceError::Unreachable));
    // The failed tick goes straight to sleep: nothing was staged, nothing
    // reported, and the loop is not stopped.
    assert_eq!(scan.state, ScanState::Sleeping);
    assert_eq!(scan.failed_polls, 1);
    assert_eq!(scan.last_error, Some(SourceError::Unreachable));
    assert!(scan.staged.is_empty());
    assert_eq!(scan.ticks, 0);
    // The next tick proceeds normally.
    scan.wake();
    assert_eq!(scan.state, ScanState::Polling);
    scan.on_poll(PollOutcome::Sampled(Snapshot::Prices(vec![quote(
        "ETH-USDC", 342075, 344025,
    )])));
    assert_eq!(scan.state, ScanState::Evaluating);
    assert_eq!(scan.last_error, None);
    scan.evaluate();
    assert_eq!(scan.state, ScanState::Reporting);
    let plans = scan.report_tick();
    assert_eq!(scan.state, ScanState::Sleeping);
    assert_eq!(scan.ticks, 1);
    assert_eq!(plans.len(), 1);
    assert_eq!(plans[0].pair_name, "ETH-USDC");
}

#[test]
fn timed_out_poll_counts_as_failure() {
    let mut scan = ScanLoop::new(ScanConfig::default()).unwrap();
    scan.start();
    scan.on_poll(PollOutcome::Failed(SourceError::Timeout));
    assert_eq!(scan.state, ScanState::Sleeping);
    assert_eq!(scan.last_error, Some(SourceError::Timeout));
    scan.wake();
    scan.on_poll(PollOutcome::Failed(SourceError::Malformed));
    assert_eq!(scan.failed_polls, 2);
}

#[test]
fn mismatched_snapshot_shape_yields_no_opportunities() {
    // An arbitrage scan handed pending transfers has nothing to evaluate.
    let mut scan = ScanLoop::new(ScanConfig::default()).unwrap();
    scan.start();
    scan.on_poll(PollOutcome::Sampled(Snapshot::Transfers(vec![transfer(
        "tx3",
        TradeAction::Buy,
        100_000,
        15_000,
    )])));
    scan.evaluate();
    let plans = scan.report_tick();
    assert!(plans.is_empty());
    assert_eq!(scan.ticks, 1);
}

#[test]
fn sandwich_scan_ranks_and_reports_a_full_tick() {
    let config = ScanConfig {
        strategy: StrategyKind::Sandwich,
        max_results: Some(1),
        ..ScanConfig::default()
    };
    let mut scan = ScanLoop::new(config).unwrap();
    scan.start();
    scan.on_poll(PollOutcome::Sampled(Snapshot::Transfers(vec![
        transfer("small", TradeAction::Buy, 20_000, 15_000),
        transfer("big", TradeAction::Sell, 100_000, 15_000),
    ])));
    scan.evaluate();
    let plans = scan.report_tick();
    // Both qualify (profits 210 and 1050); the cap keeps only the best.
    assert_eq!(plans.len(), 1);
    assert_eq!(plans[0].strategy, StrategyKind::Sandwich);
    assert_eq!(plans[0].estimated_value, 1050);
    assert_eq!(plans[0].legs[0].action, TradeAction::Sell);
    assert_eq!(plans[0].legs[1].action, TradeAction::Buy);
}

#[test]
fn cancellation_stops_the_loop_at_a_checkpoint() {
    let mut scan = ScanLoop::new(ScanConfig::default()).unwrap();
    scan.start();
    scan.on_poll(PollOutcome::Failed(SourceError::Unreachable));
    scan.cancel();
    assert_eq!(scan.state, ScanState::Stopped);
}

#[test]
fn empty_snapshot_reports_nothing() {
    let mut scan = ScanLoop::new(ScanConfig::default()).unwrap();
    scan.start();
    scan.on_poll(PollOutcome::Sampled(Snapshot::Prices(Vec::new())));
    scan.evaluate();
    assert!(scan.report_tick().is_empty());
}
