use supertrade_rust::BotBridge;
use supertrade_rust::BotStatus;
use supertrade_rust::DispatchError;
use supertrade_rust::SessionState;
use supertrade_rust::StartError;
use supertrade_rust::TradeConfig;
use supertrade_rust::TradeDirection;

fn default_start_config() -> TradeConfig {
    TradeConfig {
        symbol: "XAUUSD.m".to_string(),
        timeframe: "H4".to_string(),
        poll_interval_seconds: 300,
    }
}

fn count_lines_ending(bridge: &BotBridge, suffix: &str) -> usize {
    bridge.get_logs().iter().filter(|l| l.ends_with(suffix)).count()
}

#[test]
fn new_bridge_is_stopped_with_defaults() {
    let b = BotBridge::new();
    assert_eq!(b.get_session_state(), SessionState::Stopped);
    let cfg = b.get_config();
    assert_eq!(cfg.symbol, "XAUUSD.m");
    assert_eq!(cfg.timeframe, "H4");
    assert_eq!(cfg.poll_interval_seconds, 300);
    assert_eq!(b.get_logs().len(), 1);
    assert_eq!(b.get_logs()[0], "Application started");
}

#[test]
fn scenario_start_runs_and_logs() {
    let mut b = BotBridge::new();
    let r = b.start(default_start_config());
    assert!(r.is_ok());
    assert_eq!(b.get_session_state(), SessionState::Running);
    assert_eq!(b.get_config().symbol, "XAUUSD.m");
    assert_eq!(b.get_config().timeframe, "H4");
    assert_eq!(b.get_config().poll_interval_seconds, 300);
    let last = b.get_logs().last().unwrap();
    assert!(last.ends_with("Bot started"));
}

#[test]
fn second_start_is_refused_and_spawns_no_second_worker() {
    let mut b = BotBridge::new();
    let mut workers = 0;
    if b.start(default_start_config()).is_ok() {
        workers += 1;
    }
    let r = b.start(TradeConfig {
        symbol: "EURUSD".to_string(),
        timeframe: "M5".to_string(),
        poll_interval_seconds: 60,
    });
    assert_eq!(r, Err(StartError::AlreadyRunning));
    if r.is_ok() {
        workers += 1;
    }
    assert_eq!(workers, 1);
    assert_eq!(b.get_session_state(), SessionState::Running);
    // a refused start leaves the stored configuration untouched
    assert_eq!(b.get_config().symbol, "XAUUSD.m");
    assert!(b.get_logs().last().unwrap().ends_with("Error starting bot: already running"));
}

#[test]
fn scenario_stop_is_idempotent() {
    let mut b = BotBridge::new();
    b.start(default_start_config()).unwrap();
    let r = b.stop();
    assert!(r.is_ok());
    assert_eq!(b.get_session_state(), SessionState::Stopped);
    assert!(b.get_logs().last().unwrap().ends_with("Bot stopped"));
    assert_eq!(count_lines_ending(&b, "Bot stopped"), 1);
    let log_len = b.get_logs().len();
    let r2 = b.stop();
    assert!(r2.is_ok());
    assert_eq!(b.get_session_state(), SessionState::Stopped);
    assert_eq!(count_lines_ending(&b, "Bot stopped"), 1);
    assert_eq!(b.get_logs().len(), log_len);
}

#[test]
fn session_state_follows_start_and_stop_sequences() {
    let mut b = BotBridge::new();
    assert_eq!(b.get_session_state(), SessionState::Stopped);
    b.stop().unwrap();
    assert_eq!(b.get_session_state(), SessionState::Stopped);
    b.start(default_start_config()).unwrap();
    assert_eq!(b.get_session_state(), SessionState::Running);
    let _ = b.start(default_start_config());
    assert_eq!(b.get_session_state(), SessionState::Running);
    b.stop().unwrap();
    assert_eq!(b.get_session_state(), SessionState::Stopped);
    b.start(default_start_config()).unwrap();
    assert_eq!(b.get_session_state(), SessionState::Running);
}

#[test]
fn scenario_manual_trade_dispatch_accepted() {
    let mut b = BotBridge::new();
    // volume 0.01 lots = 1 hundredth of a lot
    let r = b.manual_trade(TradeDirection::Buy, 1, 200, 1000);
    assert!(r.is_ok());
    assert!(b.get_logs().last().unwrap().ends_with("Manual BUY requested"));
    let r2 = b.manual_trade(TradeDirection::Sell, 1, 200, 1000);
    assert!(r2.is_ok());
    assert!(b.get_logs().last().unwrap().ends_with("Manual SELL requested"));
}

#[test]
fn zero_volume_trade_is_refused_without_dispatch() {
    let mut b = BotBridge::new();
    let mut spawned = 0;
    let log_len = b.get_logs().len();
    let r = b.manual_trade(TradeDirection::Buy, 0, 200, 1000);
    if r.is_ok() {
        spawned += 1;
    }
    assert_eq!(r, Err(DispatchError::InvalidArgument));
    assert_eq!(spawned, 0);
    assert_eq!(b.get_logs().len(), log_len);
    assert_eq!(b.get_session_state(), SessionState::Stopped);
}

#[test]
fn negative_points_trades_are_refused() {
    let mut b = BotBridge::new();
    assert_eq!(
        b.manual_trade(TradeDirection::Sell, 1, -1, 1000),
        Err(DispatchError::InvalidArgument)
    );
    assert_eq!(
        b.manual_trade(TradeDirection::Sell, 1, 200, -7),
        Err(DispatchError::InvalidArgument)
    );
    assert_eq!(
        b.manual_trade(TradeDirection::Buy, -3, 200, 1000),
        Err(DispatchError::InvalidArgument)
    );
    assert_eq!(b.get_logs().len(), 1);
}

#[test]
fn status_is_none_before_first_successful_poll() {
    let mut b = BotBridge::new();
    assert!(b.get_status().is_none());
    b.poll(None, None);
    assert!(b.get_status().is_none());
    let status = BotStatus {
        timestamp: "2024-01-02 03:04:05".to_string(),
        symbol: "XAUUSD.m".to_string(),
        signal: "BUY".to_string(),
        confidence: "HIGH".to_string(),
        price_bits: 1900.5f64.to_bits(),
    };
    b.poll(Some(status.clone()), None);
    let got = b.get_status().unwrap();
    assert_eq!(got.timestamp, "2024-01-02 03:04:05");
    assert_eq!(got.symbol, "XAUUSD.m");
    assert_eq!(got.signal, "BUY");
    assert_eq!(got.confidence, "HIGH");
    assert_eq!(f64::from_bits(got.price_bits), 1900.5);
}

#[test]
fn stale_status_is_retained_when_poll_delivers_nothing() {
    let mut b = BotBridge::new();
    let status = BotStatus {
        timestamp: "t1".to_string(),
        symbol: "S".to_string(),
        signal: "SELL".to_string(),
        confidence: "LOW".to_string(),
        price_bits: 7,
    };
    b.poll(Some(status), None);
    b.poll(None, None);
    assert_eq!(b.get_status().unwrap().timestamp, "t1");
}

#[test]
fn updated_config_is_one_caller_value_whole() {
    let mut b = BotBridge::new();
    // two simulated callers whose updates interleave
    let caller_a = [("XAUUSD.m", "H4", 300), ("XAGUSD", "H1", 120)];
    let caller_b = [("EURUSD", "M5", 60), ("GBPUSD", "M15", 90)];
    let interleaved = [caller_a[0], caller_b[0], caller_a[1], caller_b[1], caller_a[0]];
    for (symbol, timeframe, interval) in interleaved {
        b.update_config(symbol.to_string(), timeframe.to_string(), interval);
        let got = b.get_config();
        let whole = [&caller_a[..], &caller_b[..]].concat();
        assert!(whole.iter().any(|(s, t, i)| {
            got.symbol == *s && got.timeframe == *t && got.poll_interval_seconds == *i
        }));
        assert_eq!((got.symbol.as_str(), got.timeframe.as_str(), got.poll_interval_seconds),
                   (symbol, timeframe, interval));
    }
}

#[test]
fn update_config_touches_nothing_else() {
    let mut b = BotBridge::new();
    b.start(default_start_config()).unwrap();
    let log_len = b.get_logs().len();
    b.update_config("EURUSD".to_string(), "M1".to_string(), 15);
    assert_eq!(b.get_session_state(), SessionState::Running);
    assert_eq!(b.get_logs().len(), log_len);
    assert!(b.get_status().is_none());
    assert!(b.get_latest_data().is_none());
}

#[test]
fn log_lines_carry_a_wall_clock_stamp() {
    let mut b = BotBridge::new();
    b.log("engine unavailable");
    let line = b.get_logs().last().unwrap();
    assert_eq!(line.len(), "engine unavailable".len() + 11);
    assert!(line.starts_with('['));
    assert_eq!(&line[9..11], "] ");
    assert!(line.ends_with("engine unavailable"));
}

#[test]
fn poll_cadence_gate() {
    assert!(supertrade_rust::refresh_due(5, 5));
    assert!(supertrade_rust::refresh_due(6, 5));
    assert!(!supertrade_rust::refresh_due(4, 5));
    assert!(supertrade_rust::refresh_due(0, 0));
}
