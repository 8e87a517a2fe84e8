//! Control/status bridge for an autonomous trading worker.
//!
//! The bridge owns the session lifecycle (stopped/running), dispatches
//! manual-trade commands after validating them, stores the trading
//! configuration as one atomically replaced value, and keeps the latest
//! status and price-history snapshots published by the engine for
//! non-blocking reads.

pub mod bot_bridge;
pub mod chart;
mod clock;
pub mod model;
pub mod types;

pub use bot_bridge::refresh_due;
pub use bot_bridge::BotBridge;
pub use types::BotStatus;
pub use types::ChartData;
pub use types::ChartReading;
pub use types::DataShapeError;
pub use types::DispatchError;
pub use types::SessionState;
pub use types::StartError;
pub use types::StopError;
pub use types::TradeConfig;
pub use types::TradeDirection;

use vstd::prelude::*;

verus! {

/// The number of nanoseconds in one second: the engine publishes chart
/// timestamps in nanoseconds, the bridge stores whole seconds.
pub const NANOS_PER_SECOND: i64 = 1_000_000_000;

} // verus!
