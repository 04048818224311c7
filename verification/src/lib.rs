//! A deterministic market-opportunity scanner core.
//!
//! The crate evaluates market snapshots against pluggable detection
//! strategies, ranks the resulting opportunities, and turns each accepted
//! opportunity into a structured action plan. A small state machine drives
//! the poll-evaluate-report cycle and tolerates upstream failures; the
//! surrounding binary supplies the actual market source, the cadence, and
//! the cancellation signal.

pub mod arbitrage;
pub mod config;
pub mod model;
pub mod rank;
pub mod report;
pub mod sandwich;
pub mod scan;
