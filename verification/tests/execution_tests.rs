use signalflow_bot::error::BotError;
use signalflow_bot::execution::{
    after_cancel, cancel_target, is_buy, limit_price_for, read_order_reply, start_limit_order, AfterReply, OrderResult, OrderStart,
    SignalDirection,
};
use signalflow_bot::order::{FillReport, StatusEntry};

fn finish(s: OrderStart) -> OrderResult {
    match s {
        OrderStart::Finish(r) => r,
        other => panic!("unexpected {:?}", other),
    }
}

#[test]
fn unknown_asset_and_bad_size_are_refused_before_sending() {
    let r = finish(start_limit_order(SignalDirection::Long, "XYZ", None, false, "NaN", None, false, 0, 0, 0));
    assert!(!r.success);
    assert_eq!(r.message, "Unknown asset: XYZ");
    assert!(!r.filled());
    let r = finish(start_limit_order(SignalDirection::Long, "BTC", Some(0), false, "-1", None, false, 0, 0, 0));
    assert_eq!(r.message, "Invalid size: -1");
    assert_eq!(r.oid, None);
}

#[test]
fn dry_run_reports_a_fill_at_the_limit_price() {
    let bid = 100.5f64.to_bits();
    let ask = 101.0f64.to_bits();
    let sz = 0.25f64.to_bits();
    // a short sells at the best ask
    let r = finish(start_limit_order(SignalDirection::Short, "ETH", Some(1), true, "0.25", Some(4), true, bid, ask, sz));
    assert!(r.success && r.filled());
    assert_eq!(r.oid, Some(0));
    assert_eq!(r.message, "Dry run");
    assert_eq!(r.fill_price.map(f64::from_bits), Some(101.0));
    assert_eq!(r.filled_size.map(f64::from_bits), Some(0.25));
    // a long buys at the best bid
    let r = finish(start_limit_order(SignalDirection::Long, "ETH", Some(1), true, "0.25", Some(4), true, bid, ask, sz));
    assert_eq!(r.fill_price.map(f64::from_bits), Some(100.5));
}

#[test]
fn limit_price_is_the_bid_for_a_long_and_the_ask_for_a_short() {
    let bid = 100.0f64.to_bits();
    let ask = 101.0f64.to_bits();
    assert_eq!(f64::from_bits(limit_price_for(SignalDirection::Long, bid, ask)), 100.0);
    assert_eq!(f64::from_bits(limit_price_for(SignalDirection::Short, bid, ask)), 101.0);
}

#[test]
fn live_orders_are_sent_on_the_right_side() {
    match start_limit_order(SignalDirection::Short, "ETH", Some(1), true, "0.25", None, false, 7, 9, 0) {
        OrderStart::Send { asset_id, is_buy, limit_price, size_decimals } => {
            assert_eq!((asset_id, is_buy, limit_price, size_decimals), (1, false, 9, 2));
        }
        other => panic!("unexpected {:?}", other),
    }
    match start_limit_order(SignalDirection::Long, "BTC", Some(0), true, "1", Some(5), false, 7, 9, 0) {
        OrderStart::Send { is_buy, limit_price, size_decimals, .. } => {
            assert_eq!((is_buy, limit_price, size_decimals), (true, 7, 5))
        }
        other => panic!("unexpected {:?}", other),
    }
    assert!(is_buy(SignalDirection::Long));
    assert!(!is_buy(SignalDirection::Short));
}

#[test]
fn replies_fill_rest_or_are_unclear() {
    let filled = StatusEntry {
        filled: Some(FillReport { total_sz: Some(1.5f64.to_bits()), avg_px: Some(99.0f64.to_bits()), oid: Some(12) }),
        resting: Some(Some(3)),
        error: None,
    };
    match read_order_reply(&filled) {
        AfterReply::Finish(r) => {
            assert!(r.filled());
            assert_eq!(r.oid, Some(12));
            assert_eq!(r.message, "Filled");
            assert_eq!(r.fill_price.map(f64::from_bits), Some(99.0));
        }
        other => panic!("unexpected {:?}", other),
    }
    let resting = StatusEntry { filled: None, resting: Some(Some(3)), error: None };
    match read_order_reply(&resting) {
        AfterReply::CancelAfter { oid, wait_ms } => assert_eq!((oid, wait_ms), (3, 200)),
        other => panic!("unexpected {:?}", other),
    }
    let err = StatusEntry { filled: None, resting: Some(None), error: Some(Some("Price too far".to_string())) };
    match read_order_reply(&err) {
        AfterReply::Finish(r) => {
            assert!(!r.success);
            assert_eq!(r.message, "Unclear: Price too far");
        }
        other => panic!("unexpected {:?}", other),
    }
    let nothing = StatusEntry { filled: None, resting: None, error: None };
    match read_order_reply(&nothing) {
        AfterReply::Finish(r) => assert_eq!(r.message, "Unclear: unknown response"),
        other => panic!("unexpected {:?}", other),
    }
}

#[test]
fn cancels_report_their_outcome() {
    let r = after_cancel(3, &Ok(()));
    assert_eq!((r.success, r.oid, r.message.as_str()), (false, Some(3), "Cancelled after 200ms timeout"));
    let r = after_cancel(3, &Err(BotError::Order("boom".to_string())));
    assert_eq!(r.message, "Cancel failed (fill unknown): Order error: boom");
    assert!(!r.filled());
    assert_eq!(cancel_target("BTC", Some(0)).unwrap(), 0);
    match cancel_target("XYZ", None) {
        Err(BotError::Order(m)) => assert_eq!(m, "Unknown asset for cancel: XYZ"),
        other => panic!("unexpected {:?}", other),
    }
}
