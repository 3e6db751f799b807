use signalflow_bot::order::Side;
use signalflow_bot::signal::{
    fill_effect, parse_signal_item, parse_signals, FillEffect, PositionSide, Signal, SignalAction, SignalItem,
    SignalScreen, SignalSource,
};

fn make_signal(action: SignalAction) -> Signal {
    Signal {
        source: SignalSource::Sodex,
        coin: "BTC".to_string(),
        action,
        confidence: 0.8f64.to_bits(),
        entry_price: Some(100000.0f64.to_bits()),
        stop_loss: Some(98000.0f64.to_bits()),
        take_profit: Some(105000.0f64.to_bits()),
        timestamp: 1000,
    }
}

#[test]
fn test_open_long_to_side() {
    let signal = make_signal(SignalAction::OpenLong);
    assert_eq!(signal.to_side(), Side::Buy);
    assert!(signal.is_open());
    assert!(!signal.is_close());
}

#[test]
fn test_open_short_to_side() {
    let signal = make_signal(SignalAction::OpenShort);
    assert_eq!(signal.to_side(), Side::Sell);
    assert!(signal.is_open());
    assert!(!signal.is_close());
}

#[test]
fn test_close_long_to_side() {
    let signal = make_signal(SignalAction::CloseLong);
    assert_eq!(signal.to_side(), Side::Sell);
    assert!(!signal.is_open());
    assert!(signal.is_close());
}

#[test]
fn test_close_short_to_side() {
    let signal = make_signal(SignalAction::CloseShort);
    assert_eq!(signal.to_side(), Side::Buy);
    assert!(!signal.is_open());
    assert!(signal.is_close());
}

#[test]
fn test_signal_source_equality() {
    assert_eq!(SignalSource::Sodex, SignalSource::Sodex);
    assert_ne!(SignalSource::Sodex, SignalSource::Hyperliquid);
}

#[test]
fn closing_takes_the_opposite_side_of_opening() {
    for (open, close) in [(SignalAction::OpenLong, SignalAction::CloseLong), (SignalAction::OpenShort, SignalAction::CloseShort)] {
        assert_ne!(make_signal(open).to_side(), make_signal(close).to_side());
    }
}

#[test]
fn position_side_of_fills() {
    assert_eq!(PositionSide::for_fill(Side::Buy), PositionSide::Long);
    assert_eq!(PositionSide::for_fill(Side::Sell), PositionSide::Short);
    assert!(PositionSide::Long.is_added_to_by(Side::Buy));
    assert!(!PositionSide::Long.is_added_to_by(Side::Sell));
    assert!(PositionSide::Short.is_added_to_by(Side::Sell));
}

fn item(coin: Option<&str>, action: Option<&str>) -> SignalItem {
    SignalItem {
        coin: coin.map(String::from),
        action: action.map(String::from),
        confidence: None,
        target_price: None,
        entry_price: None,
        stop_loss: None,
        take_profit: None,
        timestamp: None,
    }
}

#[test]
fn provider_items_are_read_with_defaults() {
    let mut it = item(Some("ETH"), Some("BUY"));
    it.entry_price = Some(Some(3000.0f64.to_bits()));
    let s = parse_signal_item(&it, 42).unwrap();
    assert_eq!(s.action, SignalAction::OpenLong);
    assert_eq!(s.coin, "ETH");
    assert_eq!(f64::from_bits(s.confidence), 0.5);
    assert_eq!(s.entry_price.map(f64::from_bits), Some(3000.0));
    assert_eq!(s.timestamp, 42);
    assert_eq!(s.source, SignalSource::Sodex);

    let mut it = item(Some("ETH"), Some("close_sell"));
    it.target_price = Some(None);
    it.entry_price = Some(Some(1.0f64.to_bits()));
    it.timestamp = Some(7);
    let s = parse_signal_item(&it, 42).unwrap();
    assert_eq!(s.action, SignalAction::CloseShort);
    assert_eq!(s.entry_price, None);
    assert_eq!(s.timestamp, 7);

    assert!(parse_signal_item(&item(Some("ETH"), Some("hold")), 0).is_none());
    assert!(parse_signal_item(&item(None, Some("buy")), 0).is_none());
    assert!(parse_signal_item(&item(Some("ETH"), None), 0).is_none());
}

#[test]
fn provider_replies_keep_readable_items_in_order() {
    let items = vec![item(Some("A"), Some("long")), item(Some("B"), Some("wait")), item(Some("C"), Some("Short"))];
    let out = parse_signals(&items, 1);
    assert_eq!(out.len(), 2);
    assert_eq!(out[0].coin, "A");
    assert_eq!(out[1].coin, "C");
    assert_eq!(out[1].action, SignalAction::OpenShort);
}

#[test]
fn one_order_per_coin_and_no_pointless_opens_or_closes() {
    let mut screen = SignalScreen::new();
    let open_btc = make_signal(SignalAction::OpenLong);
    let close_btc = make_signal(SignalAction::CloseLong);
    assert!(screen.admits(&open_btc, false));
    assert!(!screen.admits(&open_btc, true));
    assert!(!screen.admits(&close_btc, false));
    assert!(screen.admits(&close_btc, true));
    screen.record("BTC");
    assert!(!screen.admits(&open_btc, false));
    assert!(!screen.admits(&close_btc, true));
}

#[test]
fn fills_open_increase_reduce_close_or_flip() {
    assert_eq!(fill_effect(None, Side::Buy, false, false), FillEffect::Open);
    assert_eq!(fill_effect(Some(PositionSide::Long), Side::Buy, true, true), FillEffect::Increase);
    assert_eq!(fill_effect(Some(PositionSide::Short), Side::Sell, false, false), FillEffect::Increase);
    assert_eq!(fill_effect(Some(PositionSide::Long), Side::Sell, false, false), FillEffect::Reduce);
    assert_eq!(fill_effect(Some(PositionSide::Long), Side::Sell, true, false), FillEffect::Close);
    assert_eq!(fill_effect(Some(PositionSide::Short), Side::Buy, true, true), FillEffect::Flip);
}
