use signalflow_bot::orderflow::{expired_count, is_cvd_diverging, TradeRaw, TradeSide};
use signalflow_bot::sync::{closed_coins, is_status_tick, SignalCadence, TradeLog};
use signalflow_bot::candles::{extends_last_candle, five_minute_runs, minute_start, CandleRun};
use signalflow_bot::ws::{frame_action, is_all_mids, FrameAction, WsFrame, WsSubscription};

#[test]
fn cadence_syncs_every_fifth_and_logs_every_tenth_signal() {
    let mut c = SignalCadence::new();
    let steps: Vec<(bool, bool)> = (0..10).map(|_| {
        let s = c.on_signal();
        (s.sync_positions, s.log_lesson_stats)
    }).collect();
    assert_eq!(steps[3], (false, false));
    assert_eq!(steps[4], (true, false));
    assert_eq!(steps[9], (true, true));
    assert!(is_status_tick(120));
    assert!(!is_status_tick(61));
}

#[test]
fn closed_positions_are_the_tracked_coins_no_longer_held() {
    let known: Vec<String> = ["BTC", "ETH", "SOL"].iter().map(|s| s.to_string()).collect();
    let current: Vec<String> = ["ETH"].iter().map(|s| s.to_string()).collect();
    assert_eq!(closed_coins(&known, &current), vec!["BTC".to_string(), "SOL".to_string()]);
    assert!(closed_coins(&known, &known).is_empty());
}

#[test]
fn trade_log_and_trade_sides() {
    let log = TradeLog::new("trades.jsonl".to_string());
    assert_eq!(log.path(), "trades.jsonl");
    assert_eq!(TradeSide::from_code("B"), Some(TradeSide::Buy));
    assert_eq!(TradeSide::from_code("A"), Some(TradeSide::Sell));
    assert_eq!(TradeSide::from_code("b"), None);
}

#[test]
fn subscriptions_and_frames() {
    let l2 = WsSubscription::L2Book { coin: "BTC".to_string() };
    assert_eq!(l2.kind(), "l2Book");
    assert_eq!(l2.coin(), Some(&"BTC".to_string()));
    assert_eq!(WsSubscription::Trades { coin: "ETH".to_string() }.kind(), "trades");
    assert_eq!(WsSubscription::AllMids.kind(), "allMids");
    assert_eq!(WsSubscription::AllMids.coin(), None);
    assert_eq!(frame_action(WsFrame::Text { channel: Some("trades".to_string()) }), FrameAction::Forward("trades".to_string()));
    assert_eq!(frame_action(WsFrame::Text { channel: Some("subscriptionResponse".to_string()) }), FrameAction::Ignore);
    assert_eq!(frame_action(WsFrame::Text { channel: None }), FrameAction::Ignore);
    assert_eq!(frame_action(WsFrame::Ping), FrameAction::SendPong);
    assert_eq!(frame_action(WsFrame::Binary), FrameAction::Ignore);
    assert_eq!(frame_action(WsFrame::Close), FrameAction::Reconnect);
    assert_eq!(frame_action(WsFrame::ReadError), FrameAction::Reconnect);
    assert!(is_all_mids("allMids"));
    assert!(!is_all_mids("l2Book"));
}

#[test]
fn raw_trades_read_their_side() {
    let t = TradeRaw {
        coin: "BTC".to_string(),
        side: "A".to_string(),
        px: "100.5".to_string(),
        sz: "0.1".to_string(),
        time: 1,
        hash: None,
    };
    assert_eq!(t.trade_side(), Some(TradeSide::Sell));
}

#[test]
fn rolling_window_evicts_only_the_leading_old_entries() {
    let stamps = vec![1_000u64, 2_000, 70_000, 3_000];
    assert_eq!(expired_count(&stamps, 65_000, 60_000), 2);
    assert_eq!(expired_count(&stamps, 30_000, 60_000), 0);
    assert_eq!(expired_count(&stamps, 200_000, 60_000), 4);
    assert_eq!(expired_count(&vec![], 200_000, 60_000), 0);
}

#[test]
fn divergence_needs_five_trades_and_opposite_directions() {
    assert!(is_cvd_diverging(5, true, false, true));
    assert!(is_cvd_diverging(9, false, true, false));
    assert!(!is_cvd_diverging(4, true, false, true));
    assert!(!is_cvd_diverging(5, true, true, false));
    assert!(!is_cvd_diverging(5, false, false, false));
}

#[test]
fn candles_bucket_by_minute_and_five_minutes() {
    assert_eq!(minute_start(125_999), 120_000);
    assert!(extends_last_candle(Some(120_000), 179_999));
    assert!(!extends_last_candle(Some(120_000), 180_000));
    assert!(!extends_last_candle(None, 0));
    let starts = vec![0u64, 60_000, 240_000, 300_000, 360_000, 600_000];
    assert_eq!(
        five_minute_runs(&starts),
        vec![
            CandleRun { bucket: 0, first: 0, end: 3 },
            CandleRun { bucket: 300_000, first: 3, end: 5 },
            CandleRun { bucket: 600_000, first: 5, end: 6 },
        ]
    );
    assert!(five_minute_runs(&vec![]).is_empty());
}
