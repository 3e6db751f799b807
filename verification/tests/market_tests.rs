use signalflow_bot::market::MarketData;

#[test]
fn test_new_market_data_is_stale() {
    let data = MarketData::new();
    assert!(data.is_stale());
    assert_eq!(data.get_price("BTC"), None);
}

#[test]
fn test_fresh_data_not_stale() {
    let mut data = MarketData::new();
    data.update_mid("BTC".to_string(), 100000.0f64.to_bits());
    assert!(!data.is_stale());
    assert_eq!(data.get_price("BTC").map(f64::from_bits), Some(100000.0));
}

#[test]
fn test_get_price_unchecked() {
    let mut data = MarketData::new();
    data.update_mid("BTC".to_string(), 100000.0f64.to_bits());
    assert_eq!(data.get_price_unchecked("BTC").map(f64::from_bits), Some(100000.0));
}

#[test]
fn test_missing_coin() {
    let mut data = MarketData::new();
    data.update_mid("BTC".to_string(), 100000.0f64.to_bits());
    assert_eq!(data.get_price("ETH"), None);
}

#[test]
fn test_multiple_coins() {
    let mut data = MarketData::new();
    data.update_mid("BTC".to_string(), 100000.0f64.to_bits());
    data.update_mid("ETH".to_string(), 3000.0f64.to_bits());
    assert_eq!(data.get_price("BTC").map(f64::from_bits), Some(100000.0));
    assert_eq!(data.get_price("ETH").map(f64::from_bits), Some(3000.0));
}

#[test]
fn stale_after_sixty_seconds() {
    let mut data = MarketData::new();
    data.update_mid_at("BTC".to_string(), 1.0f64.to_bits(), 1_000);
    assert!(!data.is_stale_at(61_000));
    assert!(data.is_stale_at(61_001));
    assert_eq!(data.get_price_at("BTC", 61_000).map(f64::from_bits), Some(1.0));
    assert_eq!(data.get_price_at("BTC", 61_001), None);
    assert_eq!(data.age_ms_at(500), 0);
    assert_eq!(data.age_ms_at(1_250), 250);
    assert_eq!(MarketData::new().age_ms_at(5), u64::MAX);
}

#[test]
fn rewriting_a_coin_replaces_its_price_only() {
    let mut data = MarketData::new();
    data.update_mid_at("BTC".to_string(), 1.0f64.to_bits(), 10);
    data.update_mid_at("ETH".to_string(), 2.0f64.to_bits(), 10);
    data.update_mid_at("BTC".to_string(), 3.0f64.to_bits(), 20);
    assert_eq!(data.get_price_at("BTC", 20).map(f64::from_bits), Some(3.0));
    assert_eq!(data.get_price_at("ETH", 20).map(f64::from_bits), Some(2.0));
    let copy = data.snapshot();
    assert_eq!(copy.get_price_unchecked("ETH").map(f64::from_bits), Some(2.0));
}
