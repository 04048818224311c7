//! The cancellable polling loop, modelled as an explicit state machine.
//!
//! One tick runs poll, evaluate, report, sleep. The loop itself never
//! terminates because of a failed poll: a failure skips straight to the
//! sleep, records the error, and the next tick proceeds at the normal
//! cadence. The only exit is an external cancellation signal, observed at
//! a poll or sleep boundary, never mid-evaluation. The surrounding binary
//! owns the clock, the market source, and the signal; it drives this
//! machine one transition at a time, so ticks can also be driven in tests
//! without real time passing.

use vstd::prelude::*;

use crate::arbitrage::detect_arbitrage;
use crate::arbitrage::spec_detect_arbitrage;
use crate::config::ConfigError;
use crate::config::ScanConfig;
use crate::config::StrategyKind;
use crate::model::ArbitrageOpportunity;
use crate::model::Opportunity;
use crate::model::PollOutcome;
use crate::model::SandwichOpportunity;
use crate::model::Snapshot;
use crate::model::SourceError;
use crate::rank::rank;
use crate::rank::spec_rank;
use crate::report::plan_matches;
use crate::report::report;
use crate::report::ActionPlan;
use crate::sandwich::detect_sandwich;
use crate::sandwich::spec_detect_sandwich;

verus! {

/// The states of one scan. `Stopped` is terminal.
#[derive(Clone, Copy, Debug, PartialEq, Eq, Structural)]
pub enum ScanState {
    Idle,
    Polling,
    Evaluating,
    Reporting,
    Sleeping,
    Stopped,
}

/// Saturating increment for the tick and failure counters.
pub open spec fn spec_inc(x: u64) -> u64 {
    if x == u64::MAX {
        x
    } else {
        (x + 1) as u64
    }
}

/// An arbitrage batch wrapped for the strategy-agnostic ranker.
pub open spec fn spec_wrap_arbitrage(s: Seq<ArbitrageOpportunity>) -> Seq<Opportunity> {
    s.map_values(|a: ArbitrageOpportunity| Opportunity::Arbitrage(a))
}

/// A sandwich batch wrapped for the strategy-agnostic ranker.
pub open spec fn spec_wrap_sandwich(s: Seq<SandwichOpportunity>) -> Seq<Opportunity> {
    s.map_values(|a: SandwichOpportunity| Opportunity::Sandwich(a))
}

/// What evaluating a snapshot yields, before ranking: the configured
/// detector run over a snapshot of its shape; a snapshot of the other
/// strategy's shape yields nothing. Evaluation is total and cannot fail.
pub open spec fn spec_evaluate(config: ScanConfig, snapshot: Snapshot) -> Seq<Opportunity> {
    match (config.strategy, snapshot) {
        (StrategyKind::Arbitrage, Snapshot::Prices(ps)) => spec_wrap_arbitrage(
            spec_detect_arbitrage(ps@, config.threshold_pct),
        ),
        (StrategyKind::Sandwich, Snapshot::Transfers(ts)) => spec_wrap_sandwich(
            spec_detect_sandwich(ts@, config.sandwich),
        ),
        _ => Seq::empty(),
    }
}

/// One running scan: its immutable configuration, its current state, and
/// the data carried between the states of the current tick.
pub struct ScanLoop {
    pub config: ScanConfig,
    pub state: ScanState,
    /// Completed ticks, counted at each report.
    pub ticks: u64,
    /// Polls that failed, each having skipped its tick's evaluation.
    pub failed_polls: u64,
    /// The error of the most recent poll, cleared by a successful one.
    pub last_error: Option<SourceError>,
    /// The snapshot awaiting evaluation, present exactly in `Evaluating`.
    pub pending: Option<Snapshot>,
    /// The ranked opportunities awaiting report, empty outside `Reporting`.
    pub staged: Vec<Opportunity>,
}

impl ScanLoop {
    /// The machine's invariant: the configuration was accepted, and the
    /// carried data matches the state.
    pub open spec fn wf(self) -> bool {
        &&& self.config.valid()
        &&& (self.state == ScanState::Evaluating <==> self.pending is Some)
        &&& (self.state != ScanState::Reporting ==> self.staged@.len() == 0)
    }

    /// Build a scan in `Idle` over a validated configuration. Rejects
    /// exactly the invalid configurations, before the loop ever runs; this
    /// is the only fatal error of the scanner.
    pub fn new(config: ScanConfig) -> (r: Result<ScanLoop, ConfigError>)
        ensures
            r is Ok <==> config.valid(),
            r matches Ok(l) ==> l.wf() && l.config == config && l.state == ScanState::Idle
                && l.ticks == 0 && l.failed_polls == 0 && l.last_error is None,
            r matches Err(e) ==> config.rejected_with(e),
    {
        match config.validate() {
            Ok(()) => Ok(
                ScanLoop {
                    config,
                    state: ScanState::Idle,
                    ticks: 0,
                    failed_polls: 0,
                    last_error: None,
                    pending: None,
                    staged: Vec::new(),
                },
            ),
            Err(e) => Err(e),
        }
    }

    /// Begin scanning: `Idle` to `Polling`.
    pub fn start(&mut self)
        requires
            old(self).state == ScanState::Idle,
            old(self).wf(),
        ensures
            final(self).wf(),
            *final(self) == (ScanLoop { state: ScanState::Polling, ..*old(self) }),
    {
        self.state = ScanState::Polling;
    }

    /// Hand the machine what the poll produced.
    ///
    /// A failure is recorded and skips the rest of the tick: the machine
    /// goes straight to `Sleeping`, stages nothing, and the loop survives
    /// to poll again. A sampled snapshot moves the machine to
    /// `Evaluating`.
    pub fn on_poll(&mut self, outcome: PollOutcome)
        requires
            old(self).state == ScanState::Polling,
            old(self).wf(),
        ensures
            final(self).wf(),
            final(self).config == old(self).config,
            final(self).ticks == old(self).ticks,
            final(self).staged@ == old(self).staged@,
            outcome matches PollOutcome::Failed(e) ==> final(self).state == ScanState::Sleeping
                && final(self).failed_polls == spec_inc(old(self).failed_polls)
                && final(self).last_error == Some(e) && final(self).pending is None,
            outcome matches PollOutcome::Sampled(s) ==> final(self).state == ScanState::Evaluating
                && final(self).failed_polls == old(self).failed_polls
                && final(self).last_error is None && final(self).pending == Some(s),
    {
        match outcome {
            PollOutcome::Sampled(snapshot) => {
                self.pending = Some(snapshot);
                self.last_error = None;
                self.state = ScanState::Evaluating;
            },
            PollOutcome::Failed(error) => {
                self.failed_polls = if self.failed_polls == u64::MAX {
                    u64::MAX
                } else {
                    self.failed_polls + 1
                };
                self.last_error = Some(error);
                self.state = ScanState::Sleeping;
            },
        }
    }

    /// Run the configured detector over the pending snapshot and rank the
    /// result: `Evaluating` to `Reporting`. Pure and total: malformed data
    /// was filtered by the detector, so evaluation cannot fail.
    pub fn evaluate(&mut self)
        requires
            old(self).state == ScanState::Evaluating,
            old(self).wf(),
        ensures
            final(self).wf(),
            final(self).config == old(self).config,
            final(self).ticks == old(self).ticks,
            final(self).failed_polls == old(self).failed_polls,
            final(self).last_error == old(self).last_error,
            final(self).state == ScanState::Reporting,
            final(self).pending is None,
            old(self).pending matches Some(snapshot) ==> final(self).staged@ == spec_rank(
                spec_evaluate(old(self).config, snapshot),
                old(self).config.max_results,
            ),
    {
        let mut taken: Option<Snapshot> = None;
        core::mem::swap(&mut self.pending, &mut taken);
        let found: Vec<Opportunity> = match taken {
            Some(Snapshot::Prices(prices)) => {
                match self.config.strategy {
                    StrategyKind::Arbitrage => wrap_arbitrage(
                        detect_arbitrage(prices, self.config.threshold_pct),
                    ),
                    StrategyKind::Sandwich => Vec::new(),
                }
            },
            Some(Snapshot::Transfers(transfers)) => {
                match self.config.strategy {
                    StrategyKind::Sandwich => wrap_sandwich(
                        detect_sandwich(transfers, &self.config.sandwich),
                    ),
                    StrategyKind::Arbitrage => Vec::new(),
                }
            },
            None => Vec::new(),
        };
        self.staged = rank(found, self.config.max_results);
        self.state = ScanState::Reporting;
    }

    /// Emit one plan per staged opportunity, in rank order: `Reporting` to
    /// `Sleeping`, completing the tick. The plans are the caller's to hand
    /// to its sink; the machine keeps nothing.
    pub fn report_tick(&mut self) -> (plans: Vec<ActionPlan>)
        requires
            old(self).state == ScanState::Reporting,
            old(self).wf(),
        ensures
            final(self).wf(),
            final(self).config == old(self).config,
            final(self).failed_polls == old(self).failed_polls,
            final(self).last_error == old(self).last_error,
            final(self).state == ScanState::Sleeping,
            final(self).ticks == spec_inc(old(self).ticks),
            final(self).staged@.len() == 0,
            plans@.len() == old(self).staged@.len(),
            forall|i: int| 0 <= i < plans@.len() ==> plan_matches(
                #[trigger] plans@[i],
                old(self).staged@[i],
            ),
    {
        let mut work: Vec<Opportunity> = Vec::new();
        core::mem::swap(&mut self.staged, &mut work);
        let ghost orig = work@;
        let mut plans: Vec<ActionPlan> = Vec::new();
        let n: usize = work.len();
        let mut i: usize = 0;
        while i < n
            invariant
                n == orig.len(),
                i <= n,
                work@ == orig.skip(i as int),
                plans@.len() == i,
                forall|k: int| 0 <= k < i ==> plan_matches(#[trigger] plans@[k], orig[k]),
            decreases n - i,
        {
            let o = work.remove(0);
            proof {
                assert(o == orig[i as int]);
                assert(orig.skip(i as int).remove(0) =~= orig.skip(i as int + 1));
            }
            let plan = report(o);
            plans.push(plan);
            i = i + 1;
        }
        self.ticks = if self.ticks == u64::MAX {
            u64::MAX
        } else {
            self.ticks + 1
        };
        self.state = ScanState::Sleeping;
        plans
    }

    /// Wake from the inter-tick sleep: `Sleeping` to `Polling`.
    pub fn wake(&mut self)
        requires
            old(self).state == ScanState::Sleeping,
            old(self).wf(),
        ensures
            final(self).wf(),
            *final(self) == (ScanLoop { state: ScanState::Polling, ..*old(self) }),
    {
        self.state = ScanState::Polling;
    }

    /// Observe the external cancellation signal at a checkpoint, a poll
    /// start or a sleep: the machine stops, terminally. This is the only
    /// way a scan ends.
    pub fn cancel(&mut self)
        requires
            old(self).state == ScanState::Polling || old(self).state == ScanState::Sleeping,
            old(self).wf(),
        ensures
            final(self).wf(),
            *final(self) == (ScanLoop { state: ScanState::Stopped, ..*old(self) }),
    {
        self.state = ScanState::Stopped;
    }
}

/// Wrap an arbitrage batch for the ranker, keeping its order.
fn wrap_arbitrage(items: Vec<ArbitrageOpportunity>) -> (r: Vec<Opportunity>)
    ensures
        r@ == spec_wrap_arbitrage(items@),
{
    let ghost orig = items@;
    let mut items = items;
    let mut out: Vec<Opportunity> = Vec::new();
    let n: usize = items.len();
    let mut i: usize = 0;
    while i < n
        invariant
            n == orig.len(),
            i <= n,
            items@ == orig.skip(i as int),
            out@ == spec_wrap_arbitrage(orig.take(i as int)),
        decreases n - i,
    {
        let a = items.remove(0);
        proof {
            assert(a == orig[i as int]);
            assert(orig.skip(i as int).remove(0) =~= orig.skip(i as int + 1));
        }
        out.push(Opportunity::Arbitrage(a));
        proof {
            assert(out@ =~= spec_wrap_arbitrage(orig.take(i as int + 1)));
        }
        i = i + 1;
    }
    proof {
        assert(orig.take(n as int) =~= orig);
    }
    out
}

/// Wrap a sandwich batch for the ranker, keeping its order.
fn wrap_sandwich(items: Vec<SandwichOpportunity>) -> (r: Vec<Opportunity>)
    ensures
        r@ == spec_wrap_sandwich(items@),
{
    let ghost orig = items@;
    let mut items = items;
    let mut out: Vec<Opportunity> = Vec::new();
    let n: usize = items.len();
    let mut i: usize = 0;
    while i < n
        invariant
            n == orig.len(),
            i <= n,
            items@ == orig.skip(i as int),
            out@ == spec_wrap_sandwich(orig.take(i as int)),
        decreases n - i,
    {
        let s = items.remove(0);
        proof {
            assert(s == orig[i as int]);
            assert(orig.skip(i as int).remove(0) =~= orig.skip(i as int + 1));
        }
        out.push(Opportunity::Sandwich(s));
        proof {
            assert(out@ =~= spec_wrap_sandwich(orig.take(i as int + 1)));
        }
        i = i + 1;
    }
    proof {
        assert(orig.take(n as int) =~= orig);
    }
    out
}

} // verus!
