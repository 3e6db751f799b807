use signalflow_bot::assets::{cached_asset_id, fallback_asset_id, refetched_asset_id, AssetIndex, AssetInfo};

fn names(v: &[&str]) -> Vec<String> {
    v.iter().map(|s| s.to_string()).collect()
}

#[test]
fn asset_ids_are_universe_positions() {
    let idx = AssetIndex::from_universe(names(&["BTC", "ETH", "SOL", "ETH"]));
    assert_eq!(idx.len(), 4);
    assert_eq!(idx.id_of("BTC"), Some(0));
    assert_eq!(idx.id_of("SOL"), Some(2));
    assert_eq!(idx.id_of("ETH"), Some(3));
    assert_eq!(idx.id_of("eth"), None);
    assert_eq!(idx.id_of("XYZ"), None);
}

#[test]
fn asset_info_defaults() {
    let a = AssetInfo::from_meta("BTC".to_string(), 0, None, None);
    assert_eq!((a.sz_decimals, a.max_leverage), (2, 10));
    let b = AssetInfo::from_meta("ETH".to_string(), 1, Some(4), Some(50));
    assert_eq!((b.index, b.sz_decimals, b.max_leverage), (1, 4, 50));
}

#[test]
fn builtin_ids_are_looked_up_in_uppercase_and_unknown_coins_have_none() {
    assert_eq!(fallback_asset_id("btc"), Some(0));
    assert_eq!(fallback_asset_id("1000pepe"), Some(22));
    assert_eq!(fallback_asset_id("FLOKI"), Some(35));
    assert_eq!(fallback_asset_id("LDO"), Some(41));
    assert_eq!(fallback_asset_id("NOTACOIN"), None);
}

#[test]
fn lookups_through_cache_and_refetch() {
    let cache = Some(AssetIndex::from_universe(names(&["BTC", "ETH"])));
    assert_eq!(cached_asset_id(&cache, "eth"), Some(1));
    assert_eq!(cached_asset_id(&cache, "SOL"), None);
    assert_eq!(cached_asset_id(&None, "BTC"), None);
    let fresh = Some(AssetIndex::from_universe(names(&["BTC", "ETH", "SOL"])));
    assert_eq!(refetched_asset_id(&fresh, "sol"), Some(2));
    assert_eq!(refetched_asset_id(&fresh, "AVAX"), None);
    assert_eq!(refetched_asset_id(&None, "avax"), Some(5));
}
