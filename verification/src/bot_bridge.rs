//! The control/status bridge.
//!
//! `BotBridge` owns the session lifecycle, validates and accepts manual-trade
//! dispatches, stores the trading configuration as one atomically replaced
//! value, keeps the latest status and chart snapshots for non-blocking
//! reads, and appends to the log side channel.
//!
//! The engine itself stays outside: the caller performs the engine calls and
//! hands their results back in. `start` returning `Ok` is the instruction to
//! spawn the one worker; `manual_trade` returning `Ok` is the instruction to
//! dispatch the one ephemeral order task; `poll` takes whatever the engine's
//! status and chart reads yielded this cycle.

use vstd::prelude::*;

use crate::chart::chart_matches_reading;
use crate::clock;
use crate::model::config_step;
use crate::model::lifecycle_step;
use crate::model::snapshot_step;
use crate::model::LifecycleOp;
use crate::types::BotStatus;
use crate::types::ChartData;
use crate::types::ChartReading;
use crate::types::DispatchError;
use crate::types::SessionState;
use crate::types::StartError;
use crate::types::StopError;
use crate::types::TradeConfig;
use crate::types::TradeDirection;

verus! {

/// What a `BotBridge` holds, for contracts: the session state, the stored
/// configuration, the two snapshots, and the log side channel in order.
pub struct BridgeView {
    pub session: SessionState,
    pub config: TradeConfig,
    pub status: Option<BotStatus>,
    pub chart: Option<ChartData>,
    pub log: Seq<String>,
}

/// A log line as the bridge writes it: an eight-character wall-clock stamp
/// in brackets, a space, then the message itself.
pub open spec fn is_log_line_for(line: String, message: Seq<char>) -> bool {
    &&& line@.len() == message.len() + 11
    &&& line@[0] == '['
    &&& line@[9] == ']'
    &&& line@[10] == ' '
    &&& line@.subrange(11, line@.len() as int) == message
}

/// The poller's cadence gate: a new poll cycle is due only when at least
/// `chart_refresh_seconds` have passed since the last one, so the UI loop
/// pulls from the engine no more often than once per refresh interval.
pub fn refresh_due(elapsed_seconds: u64, chart_refresh_seconds: u32) -> (r: bool)
    ensures
        r <==> elapsed_seconds >= chart_refresh_seconds as u64,
{
    elapsed_seconds >= chart_refresh_seconds as u64
}

/// The control/status bridge between the interactive caller and the trading
/// worker.
pub struct BotBridge {
    session: SessionState,
    config: TradeConfig,
    latest_status: Option<BotStatus>,
    latest_data: Option<ChartData>,
    logs: Vec<String>,
}

impl View for BotBridge {
    type V = BridgeView;

    closed spec fn view(&self) -> BridgeView {
        BridgeView {
            session: self.session,
            config: self.config,
            status: self.latest_status,
            chart: self.latest_data,
            log: self.logs@,
        }
    }
}

impl core::default::Default for TradeConfig {
    /// The configuration the bridge is constructed with.
    fn default() -> (r: TradeConfig)
        ensures
            r.symbol@ == "XAUUSD.m"@,
            r.timeframe@ == "H4"@,
            r.poll_interval_seconds == 300,
    {
        TradeConfig {
            symbol: "XAUUSD.m".to_owned(),
            timeframe: "H4".to_owned(),
            poll_interval_seconds: 300,
        }
    }
}

impl BotBridge {
    /// Every chart snapshot the bridge holds is well-shaped.
    pub closed spec fn inv(self) -> bool {
        match self.latest_data {
            Some(d) => d.wf(),
            None => true,
        }
    }

    /// A fresh bridge: stopped, default configuration, no snapshots yet,
    /// and one untimestamped line already on the log.
    pub fn new() -> (r: BotBridge)
        ensures
            r.inv(),
            r@.session is Stopped,
            r@.status is None,
            r@.chart is None,
            r@.config.symbol@ == "XAUUSD.m"@,
            r@.config.timeframe@ == "H4"@,
            r@.config.poll_interval_seconds == 300,
            r@.log.len() == 1,
            r@.log[0]@ == "Application started"@,
    {
        let mut logs: Vec<String> = Vec::new();
        logs.push("Application started".to_owned());
        BotBridge {
            session: SessionState::Stopped,
            config: TradeConfig::default(),
            latest_status: None,
            latest_data: None,
            logs,
        }
    }

    /// Non-blocking read of the session state.
    pub fn get_session_state(&self) -> (r: SessionState)
        ensures
            r == self@.session,
    {
        self.session
    }

    /// Borrow the stored configuration.
    pub fn get_config(&self) -> (r: &TradeConfig)
        ensures
            *r == self@.config,
    {
        &self.config
    }

    /// Borrow the log side channel: an ordered, append-only sequence of
    /// lines describing lifecycle transitions and dispatch outcomes.
    pub fn get_logs(&self) -> (r: &Vec<String>)
        ensures
            r@ == self@.log,
    {
        &self.logs
    }

    /// Append one timestamped line to the log side channel. Background
    /// failures (engine errors inside the worker or inside a dispatch task)
    /// are reported here by the caller, never surfaced as errors.
    pub fn log(&mut self, message: &str)
        requires
            old(self).inv(),
        ensures
            final(self).inv(),
            final(self)@.session == old(self)@.session,
            final(self)@.config == old(self)@.config,
            final(self)@.status == old(self)@.status,
            final(self)@.chart == old(self)@.chart,
            final(self)@.log == old(self)@.log.push(final(self)@.log.last()),
            is_log_line_for(final(self)@.log.last(), message@),
    {
        let ts = clock::now_hms();
        let mut line: String = "[".to_owned();
        line.append(ts.as_str());
        line.append("] ");
        line.append(message);
        proof {
            reveal_strlit("[");
            reveal_strlit("] ");
            assert(line@.len() == message@.len() + 11);
            assert(line@[0] == '[');
            assert(line@[9] == ']');
            assert(line@[10] == ' ');
            assert(line@.subrange(11, line@.len() as int) =~= message@);
        }
        self.logs.push(line);
    }

    /// Start the one worker session. Refused with `AlreadyRunning` while a
    /// session is active, leaving the stored configuration untouched; on
    /// success the given configuration replaces the stored one whole, the
    /// session is running, and the start is logged. `Ok` instructs the
    /// caller to spawn the worker — a refused start spawns nothing, so a
    /// second worker never comes to exist.
    pub fn start(&mut self, config: TradeConfig) -> (r: Result<(), StartError>)
        requires
            old(self).inv(),
        ensures
            final(self).inv(),
            final(self)@.session == lifecycle_step(old(self)@.session, LifecycleOp::Start),
            final(self)@.session is Running,
            final(self)@.status == old(self)@.status,
            final(self)@.chart == old(self)@.chart,
            r is Ok <==> old(self)@.session is Stopped,
            r is Err ==> r == Err::<(), StartError>(StartError::AlreadyRunning),
            final(self)@.log == old(self)@.log.push(final(self)@.log.last()),
            old(self)@.session is Stopped ==> final(self)@.config == config_step(
                old(self)@.config,
                config,
            ) && is_log_line_for(final(self)@.log.last(), "Bot started"@),
            old(self)@.session is Running ==> final(self)@.config == old(self)@.config
                && is_log_line_for(final(self)@.log.last(), "Error starting bot: already running"@),
    {
        match self.session {
            SessionState::Running => {
                self.log("Error starting bot: already running");
                Err(StartError::AlreadyRunning)
            },
            SessionState::Stopped => {
                self.config = config;
                self.session = SessionState::Running;
                self.log("Bot started");
                Ok(())
            },
        }
    }

    /// Stop the session. Always succeeds: stopping an already stopped
    /// bridge is an idempotent no-op that logs nothing; stopping a running
    /// one marks the session stopped and logs it. The caller signals the
    /// engine's advisory stop on the `Running -> Stopped` transition; the
    /// worker's actual exit is asynchronous and not awaited.
    pub fn stop(&mut self) -> (r: Result<(), StopError>)
        requires
            old(self).inv(),
        ensures
            final(self).inv(),
            r is Ok,
            final(self)@.session == lifecycle_step(old(self)@.session, LifecycleOp::Stop),
            final(self)@.session is Stopped,
            final(self)@.status == old(self)@.status,
            final(self)@.chart == old(self)@.chart,
            final(self)@.config == old(self)@.config,
            old(self)@.session is Running ==> final(self)@.log == old(self)@.log.push(
                final(self)@.log.last(),
            ) && is_log_line_for(final(self)@.log.last(), "Bot stopped"@),
            old(self)@.session is Stopped ==> final(self)@.log == old(self)@.log,
    {
        match self.session {
            SessionState::Stopped => Ok(()),
            SessionState::Running => {
                self.session = SessionState::Stopped;
                self.log("Bot stopped");
                Ok(())
            },
        }
    }

    /// Atomically replace the stored configuration: after the call it is
    /// exactly this caller's three values, never a mixture with an earlier
    /// call's. A running worker is not reconfigured by this; it observes
    /// the new values only if it re-reads shared configuration itself.
    pub fn update_config(&mut self, symbol: String, timeframe: String, poll_interval_seconds: i32)
        requires
            old(self).inv(),
        ensures
            final(self).inv(),
            final(self)@.config == config_step(
                old(self)@.config,
                (TradeConfig { symbol, timeframe, poll_interval_seconds }),
            ),
            final(self)@.session == old(self)@.session,
            final(self)@.status == old(self)@.status,
            final(self)@.chart == old(self)@.chart,
            final(self)@.log == old(self)@.log,
    {
        self.config = TradeConfig { symbol, timeframe, poll_interval_seconds };
    }

    /// Validate a manual order and accept or refuse its dispatch. Volume is
    /// in hundredths of a lot and must be positive; stop-loss and
    /// take-profit are in points and must not be negative. An invalid
    /// command is refused before anything else happens — the bridge is left
    /// exactly as it was and nothing is dispatched. `Ok` means "dispatch
    /// accepted" and instructs the caller to run the order on an ephemeral
    /// task; it says nothing about the trade's eventual outcome.
    pub fn manual_trade(
        &mut self,
        direction: TradeDirection,
        volume_centilots: i64,
        stop_loss_points: i32,
        take_profit_points: i32,
    ) -> (r: Result<(), DispatchError>)
        requires
            old(self).inv(),
        ensures
            final(self).inv(),
            r is Ok <==> volume_centilots > 0 && stop_loss_points >= 0 && take_profit_points >= 0,
            r is Err ==> r == Err::<(), DispatchError>(DispatchError::InvalidArgument),
            final(self)@.session == old(self)@.session,
            final(self)@.config == old(self)@.config,
            final(self)@.status == old(self)@.status,
            final(self)@.chart == old(self)@.chart,
            r is Err ==> final(self)@.log == old(self)@.log,
            r is Ok ==> final(self)@.log == old(self)@.log.push(final(self)@.log.last())
                && is_log_line_for(
                final(self)@.log.last(),
                if direction is Buy {
                    "Manual BUY requested"@
                } else {
                    "Manual SELL requested"@
                },
            ),
    {
        if volume_centilots <= 0 || stop_loss_points < 0 || take_profit_points < 0 {
            return Err(DispatchError::InvalidArgument);
        }
        match direction {
            TradeDirection::Buy => self.log("Manual BUY requested"),
            TradeDirection::Sell => self.log("Manual SELL requested"),
        }
        Ok(())
    }

    /// One poll cycle: take whatever the engine's status and chart reads
    /// yielded and publish it. A delivered status replaces the status
    /// snapshot whole; a delivered chart table replaces the chart snapshot
    /// after shape validation and timestamp normalization, and a malformed
    /// table is discarded for this cycle. "No data yet" on either read
    /// retains the last-known-good snapshot. Session, configuration and log
    /// are untouched.
    pub fn poll(&mut self, status_reading: Option<BotStatus>, chart_reading: Option<ChartReading>)
        requires
            old(self).inv(),
        ensures
            final(self).inv(),
            final(self)@.session == old(self)@.session,
            final(self)@.config == old(self)@.config,
            final(self)@.log == old(self)@.log,
            final(self)@.status == snapshot_step(old(self)@.status, status_reading),
            (match chart_reading {
                None => final(self)@.chart == old(self)@.chart,
                Some(rc) => {
                    if rc.time_ns@.len() == rc.close_bits@.len() {
                        &&& final(self)@.chart is Some
                        &&& chart_matches_reading(final(self)@.chart.unwrap(), rc)
                    } else {
                        final(self)@.chart == old(self)@.chart
                    }
                },
            }),
    {
        if let Some(s) = status_reading {
            self.latest_status = Some(s);
        }
        if let Some(rc) = chart_reading {
            match ChartData::from_reading(&rc) {
                Ok(d) => {
                    self.latest_data = Some(d);
                },
                Err(_) => {},
            }
        }
    }

    /// Non-blocking read of the latest status snapshot: `None` until a poll
    /// cycle has delivered one, afterwards exactly the last delivered value.
    pub fn get_status(&self) -> (r: Option<&BotStatus>)
        ensures
            (match r {
                None => self@.status is None,
                Some(s) => self@.status == Some(*s),
            }),
    {
        self.latest_status.as_ref()
    }

    /// Non-blocking read of the latest chart snapshot: `None` until a poll
    /// cycle has delivered a well-shaped table, afterwards exactly the last
    /// one published — always with one close price per timestamp.
    pub fn get_latest_data(&self) -> (r: Option<&ChartData>)
        requires
            self.inv(),
        ensures
            (match r {
                None => self@.chart is None,
                Some(d) => self@.chart == Some(*d) && d.wf(),
            }),
    {
        self.latest_data.as_ref()
    }
}

} // verus!
