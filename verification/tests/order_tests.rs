use signalflow_bot::order::{parse_order_status, status_record, FillReport, OrderStatus, OrderType, Side, StatusEntry, TimeInForce};

#[test]
fn test_side_equality() {
    assert_eq!(Side::Buy, Side::Buy);
    assert_ne!(Side::Buy, Side::Sell);
}

#[test]
fn test_order_type_equality() {
    assert_eq!(OrderType::Limit, OrderType::Limit);
    assert_ne!(OrderType::Limit, OrderType::Market);
}

#[test]
fn order_type_wire_forms() {
    assert_eq!(OrderType::Market.tif(), Some(TimeInForce::Ioc));
    assert_eq!(OrderType::Limit.tif(), Some(TimeInForce::Gtc));
    assert_eq!(OrderType::StopLoss.tif(), None);
    assert_eq!(OrderType::StopLoss.tpsl(), Some("sl"));
    assert_eq!(OrderType::TakeProfit.tpsl(), Some("tp"));
    assert_eq!(TimeInForce::Alo.as_str(), "Alo");
    assert_eq!(Side::Sell.as_str(), "sell");
}

#[test]
fn trigger_orders_are_grouped_as_normal_tpsl() {
    assert_eq!(OrderType::StopLoss.grouping(), "normalTpsl");
    assert_eq!(OrderType::TakeProfit.grouping(), "normalTpsl");
    assert_eq!(OrderType::Limit.grouping(), "na");
    assert_eq!(OrderType::Market.grouping(), "na");
}

fn entry(filled: Option<FillReport>, resting: Option<Option<u64>>, error: Option<Option<String>>) -> Option<StatusEntry> {
    Some(StatusEntry { filled, resting, error })
}

#[test]
fn order_status_prefers_resting_then_fill_then_error() {
    let fill = FillReport { total_sz: Some(0.5f64.to_bits()), avg_px: Some(3000.0f64.to_bits()), oid: Some(7) };
    match parse_order_status(&entry(Some(fill.clone()), Some(Some(9)), None)) {
        OrderStatus::Resting { oid } => assert_eq!(oid, 9),
        other => panic!("unexpected {:?}", other),
    }
    match parse_order_status(&entry(Some(fill), None, Some(Some("x".to_string())))) {
        OrderStatus::Filled { total_sz, avg_px, oid } => {
            assert_eq!(f64::from_bits(total_sz), 0.5);
            assert_eq!(f64::from_bits(avg_px), 3000.0);
            assert_eq!(oid, 7);
        }
        other => panic!("unexpected {:?}", other),
    }
    match parse_order_status(&entry(None, Some(None), None)) {
        OrderStatus::Resting { oid } => assert_eq!(oid, 0),
        other => panic!("unexpected {:?}", other),
    }
    let empty_fill = FillReport { total_sz: None, avg_px: None, oid: None };
    match parse_order_status(&entry(Some(empty_fill), None, None)) {
        OrderStatus::Filled { total_sz, avg_px, oid } => {
            assert_eq!(f64::from_bits(total_sz), 0.0);
            assert_eq!(f64::from_bits(avg_px), 0.0);
            assert_eq!(oid, 0);
        }
        other => panic!("unexpected {:?}", other),
    }
}

fn error_text(s: OrderStatus) -> String {
    match s {
        OrderStatus::Error { message } => message,
        other => panic!("unexpected {:?}", other),
    }
}

#[test]
fn order_status_error_texts() {
    assert_eq!(error_text(parse_order_status(&entry(None, None, Some(Some("Insufficient margin".to_string()))))), "Insufficient margin");
    assert_eq!(error_text(parse_order_status(&entry(None, None, Some(None)))), "Unknown");
    assert_eq!(error_text(parse_order_status(&entry(None, None, None))), "Unknown format");
    assert_eq!(error_text(parse_order_status(&None)), "Empty status");
}

#[test]
fn status_records_for_the_log_and_the_database() {
    let e = OrderStatus::Error { message: "bad".to_string() };
    assert_eq!(status_record(&e, true).label, "error: bad");
    assert_eq!(status_record(&e, false).label, "error");
    let f = OrderStatus::Filled { total_sz: 2.0f64.to_bits(), avg_px: 10.0f64.to_bits(), oid: 5 };
    let r = status_record(&f, true);
    assert_eq!(r.label, "filled");
    assert_eq!(r.order_id, 5);
    assert_eq!(f64::from_bits(r.avg_px), 10.0);
    assert_eq!(f64::from_bits(r.filled_size), 2.0);
    let c = status_record(&OrderStatus::Cancelled { oid: 3 }, false);
    assert_eq!((c.label.as_str(), c.order_id, c.avg_px, c.filled_size), ("cancelled", 3, 0, 0));
    assert_eq!(status_record(&OrderStatus::Pending, true).label, "pending");
}
