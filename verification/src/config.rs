//! Per-run configuration of the scanner.
//!
//! Configuration is validated once, before the loop starts; an invalid
//! configuration is the only fatal error of the system. Every knob has an
//! explicit default.

use vstd::prelude::*;

use crate::sandwich::spec_default_policy;
use crate::sandwich::SandwichPolicy;

verus! {

/// Which detection strategy a scan runs.
#[derive(Clone, Copy, Debug, PartialEq, Eq, Structural)]
pub enum StrategyKind {
    Arbitrage,
    Sandwich,
}

/// Why a configuration was rejected at startup.
#[derive(Clone, Copy, Debug, PartialEq, Eq, Structural)]
pub enum ConfigError {
    /// The poll interval must be positive.
    ZeroInterval,
    /// A policy fraction has a zero or oversized denominator, or exceeds
    /// one.
    InvalidFraction,
}

/// Immutable per-run configuration. `threshold_pct` is the arbitrage
/// spread threshold in `SPREAD_SCALE` units; the sandwich policy carries
/// the minimum victim amount, the profit floor, and the two fractions.
#[derive(Clone, Copy, Debug, PartialEq, Eq, Structural)]
pub struct ScanConfig {
    pub strategy: StrategyKind,
    pub threshold_pct: u64,
    pub poll_interval_ms: u64,
    pub max_results: Option<usize>,
    pub sandwich: SandwichPolicy,
}

impl ScanConfig {
    pub open spec fn valid(self) -> bool {
        self.poll_interval_ms > 0 && self.sandwich.valid()
    }

    /// Which error an invalid configuration is rejected with: a zero
    /// interval is reported before a bad fraction.
    pub open spec fn rejected_with(self, e: ConfigError) -> bool {
        match e {
            ConfigError::ZeroInterval => self.poll_interval_ms == 0,
            ConfigError::InvalidFraction => self.poll_interval_ms > 0 && !self.sandwich.valid(),
        }
    }

    /// Check the configuration before a scan starts. Accepts exactly the
    /// valid configurations; a zero interval is reported before a bad
    /// fraction.
    pub fn validate(&self) -> (r: Result<(), ConfigError>)
        ensures
            r is Ok <==> self.valid(),
            r matches Err(e) ==> self.rejected_with(e),
    {
        if self.poll_interval_ms == 0 {
            Err(ConfigError::ZeroInterval)
        } else if !self.sandwich.is_valid() {
            Err(ConfigError::InvalidFraction)
        } else {
            Ok(())
        }
    }
}

/// The default configuration; it is valid.
pub open spec fn spec_default_config() -> ScanConfig {
    ScanConfig {
        strategy: StrategyKind::Arbitrage,
        threshold_pct: 5000,
        poll_interval_ms: 3000,
        max_results: Option::None,
        sandwich: spec_default_policy(),
    }
}

impl Default for ScanConfig {
    /// The documented defaults: the arbitrage strategy, a spread threshold
    /// of half a percent, a three-second cadence, no result cap, and the
    /// default sandwich policy.
    fn default() -> (r: ScanConfig)
        ensures
            r == spec_default_config(),
            r.valid(),
    {
        ScanConfig {
            strategy: StrategyKind::Arbitrage,
            threshold_pct: 5000,
            poll_interval_ms: 3000,
            max_results: None,
            sandwich: SandwichPolicy {
                min_amount: 1000,
                min_profit: 50,
                slippage_num: 7,
                slippage_den: 10,
                front_run_num: 1,
                front_run_den: 10,
            },
        }
    }
}

} // verus!
