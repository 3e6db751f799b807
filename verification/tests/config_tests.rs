use signalflow_bot::config::{
    default_block_hours_high, default_block_hours_medium, default_database_url, default_max_leverage,
    default_session_end, default_session_penalty, default_session_start, default_trade_log_path,
    override_from_env, validate_bot_config, validate_config, BotChecks, HyperliquidConfig, MacroNewsConfig,
    StrategyChecks, WalletConfig,
};
use signalflow_bot::error::BotError;

fn hl() -> HyperliquidConfig {
    HyperliquidConfig {
        base_url: "https://api.hyperliquid.xyz".to_string(),
        ws_url: "wss://api.hyperliquid.xyz/ws".to_string(),
    }
}

fn good_checks() -> StrategyChecks {
    StrategyChecks {
        max_position_size_ok: 100.0 > 0.0,
        max_leverage: 20,
        poll_interval_secs: 30,
        max_total_exposure_ok: 500.0 > 0.0,
        stop_loss_pct_ok: 1.5 > 0.0 && 1.5 <= 100.0,
        take_profit_pct_ok: 3.0 > 0.0 && 3.0 <= 100.0,
        max_daily_loss_ok: 50.0 > 0.0,
    }
}

fn config_message(r: Result<(), BotError>) -> String {
    match r {
        Err(BotError::Config(m)) => m,
        other => panic!("unexpected {:?}", other),
    }
}

#[test]
fn test_invalid_private_key_length() {
    let wallet = WalletConfig { private_key: "0x1234".to_string() };
    let result = validate_config(&wallet, &hl(), &good_checks());
    assert!(result.is_err());
}

#[test]
fn key_length_is_counted_without_prefix() {
    let key = "ab".repeat(32);
    assert!(validate_config(&WalletConfig { private_key: key.clone() }, &hl(), &good_checks()).is_ok());
    assert!(validate_config(&WalletConfig { private_key: format!("0x{}", key) }, &hl(), &good_checks()).is_ok());
    assert_eq!(
        config_message(validate_config(&WalletConfig { private_key: "0x1234".to_string() }, &hl(), &good_checks())),
        "Private key must be 32 bytes (64 hex chars), got 4 chars"
    );
}

#[test]
fn config_problems_in_order() {
    let wallet = WalletConfig { private_key: "cd".repeat(32) };
    let mut h = hl();
    h.base_url = String::new();
    h.ws_url = String::new();
    assert_eq!(config_message(validate_config(&wallet, &h, &good_checks())), "Hyperliquid base_url is empty");
    let mut h = hl();
    h.ws_url = String::new();
    assert_eq!(config_message(validate_config(&wallet, &h, &good_checks())), "Hyperliquid ws_url is empty");
    let mut c = good_checks();
    c.max_leverage = 0;
    c.poll_interval_secs = 0;
    assert_eq!(config_message(validate_config(&wallet, &hl(), &c)), "max_leverage must be > 0");
    let mut c = good_checks();
    c.poll_interval_secs = 0;
    assert_eq!(config_message(validate_config(&wallet, &hl(), &c)), "poll_interval_secs must be > 0");
    let mut c = good_checks();
    c.take_profit_pct_ok = false;
    c.max_daily_loss_ok = false;
    assert_eq!(config_message(validate_config(&wallet, &hl(), &c)), "take_profit_pct must be between 0 and 100");
}

fn good_bot_checks() -> BotChecks {
    BotChecks {
        risk_per_trade_ok: true,
        max_leverage: 8,
        atr_range_ok: true,
        account_size_ok: true,
        min_position_ok: true,
        funding_poll_secs: 60,
        max_open_positions: 1,
        max_daily_loss_ok: true,
        max_weekly_loss_ok: true,
        dd_threshold_ok: true,
        session_penalty: 10,
        block_hours_high: 2,
        block_hours_medium: 1,
    }
}

#[test]
fn bot_config_problems_in_order() {
    assert!(validate_bot_config(&good_bot_checks()).is_ok());
    let mut c = good_bot_checks();
    c.max_leverage = 51;
    assert_eq!(config_message(validate_bot_config(&c)), "max_leverage seems dangerously high (>50)");
    c.max_leverage = 50;
    assert!(validate_bot_config(&c).is_ok());
    let mut c = good_bot_checks();
    c.session_penalty = 31;
    assert_eq!(config_message(validate_bot_config(&c)), "session_penalty must be <= 30");
    c.session_penalty = 30;
    assert!(validate_bot_config(&c).is_ok());
    let mut c = good_bot_checks();
    c.block_hours_high = 1;
    c.block_hours_medium = 2;
    assert_eq!(config_message(validate_bot_config(&c)), "block_hours_high must be >= block_hours_medium");
    let mut c = good_bot_checks();
    c.max_open_positions = 0;
    c.funding_poll_secs = 0;
    assert_eq!(config_message(validate_bot_config(&c)), "funding_poll_secs must be > 0");
}

#[test]
fn defaults() {
    assert_eq!(default_trade_log_path(), "trades.jsonl");
    assert_eq!(default_database_url(), "sqlite:signalflow.db?mode=rwc");
    assert_eq!(default_block_hours_high(), 2);
    assert_eq!(default_block_hours_medium(), 1);
    assert_eq!(default_max_leverage(), 10);
    assert_eq!(default_session_penalty(), 10);
    assert_eq!(default_session_start(), 13);
    assert_eq!(default_session_end(), 21);
    let m = MacroNewsConfig::default();
    assert!(!m.enabled);
    assert!(m.finnhub_api_key.is_empty());
    assert_eq!((m.block_hours_high, m.block_hours_medium), (2, 1));
}

#[test]
fn environment_overrides_only_when_set_and_non_empty() {
    assert_eq!(override_from_env("a".to_string(), Some("b".to_string())), "b");
    assert_eq!(override_from_env("a".to_string(), Some(String::new())), "a");
    assert_eq!(override_from_env("a".to_string(), None), "a");
}
