//! Plain data carried across the bridge.
//!
//! Prices reach the bridge from the engine and leave it toward the display
//! unchanged; the bridge never computes with them. They are carried as the
//! bit pattern of an IEEE 754 double (`u64`), which round-trips exactly.
//! Trade volume, which the bridge does validate, is a fixed-point count of
//! hundredths of a lot.

use vstd::prelude::*;

verus! {

/// Whether a worker session is active. Owned by the bridge's lifecycle
/// manager; every other component only reads it.
#[derive(Clone, Copy, Debug, PartialEq, Eq, Structural)]
pub enum SessionState {
    Stopped,
    Running,
}

/// Side of a manual order.
#[derive(Clone, Copy, Debug, PartialEq, Eq, Structural)]
pub enum TradeDirection {
    Buy,
    Sell,
}

/// The trading configuration: replaced as a whole, never field by field.
#[derive(Clone, Debug, PartialEq)]
pub struct TradeConfig {
    pub symbol: String,
    pub timeframe: String,
    pub poll_interval_seconds: i32,
}

/// The most recent status published by the engine. Immutable value: a new
/// instance fully replaces the old one. `price_bits` is the bit pattern of
/// the engine's double-precision price, relayed untouched.
#[derive(Clone, Debug, PartialEq)]
pub struct BotStatus {
    pub timestamp: String,
    pub symbol: String,
    pub signal: String,
    pub confidence: String,
    pub price_bits: u64,
}

/// A published price history: timestamps in whole seconds since the epoch,
/// and the close price of each bar as a double bit pattern. Both sequences
/// always have the same length.
#[derive(Clone, Debug, PartialEq)]
pub struct ChartData {
    pub time: Vec<i64>,
    pub close: Vec<u64>,
}

impl ChartData {
    /// Well-formedness: one close price per timestamp.
    pub open spec fn wf(&self) -> bool {
        self.time@.len() == self.close@.len()
    }
}

/// A raw time-indexed table as the engine exposes it: timestamps in the
/// engine's native nanoseconds, close prices as double bit patterns. Not
/// yet validated for shape.
#[derive(Clone, Debug, PartialEq)]
pub struct ChartReading {
    pub time_ns: Vec<i64>,
    pub close_bits: Vec<u64>,
}

/// Why `start` was refused.
#[derive(Clone, Copy, Debug, PartialEq, Eq, Structural)]
pub enum StartError {
    /// A worker session is already active; a second one is never started.
    AlreadyRunning,
}

/// Why `stop` would be refused. Stopping an already stopped bridge is a
/// no-op success, so the bridge never produces this value; the variant
/// records the lifecycle-misuse case of the error taxonomy.
#[derive(Clone, Copy, Debug, PartialEq, Eq, Structural)]
pub enum StopError {
    NotRunning,
}

/// Why a manual-trade command was refused before any dispatch.
#[derive(Clone, Copy, Debug, PartialEq, Eq, Structural)]
pub enum DispatchError {
    /// Volume was not positive, or stop-loss or take-profit was negative.
    InvalidArgument,
}

/// Why a polled chart payload was discarded for this cycle.
#[derive(Clone, Copy, Debug, PartialEq, Eq, Structural)]
pub enum DataShapeError {
    /// The time and close sequences had different lengths.
    MismatchedLengths,
}

} // verus!
