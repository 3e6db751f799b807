//! Configuration: its sections, their defaults, and the checks a loaded
//! configuration must pass.
//!
//! Reading the file and parsing TOML happen outside the library. The
//! checks that compare floating-point settings arrive here as their
//! outcome; every other check is made here, in the order the bot makes
//! them, and the first that fails is reported.

use vstd::prelude::*;
use crate::error::BotError;
use crate::text::text;
use crate::signing::strip_0x;
use crate::text::{push_decimal, decimal};
use vstd::utf8::encode_utf8;

verus! {

#[derive(Debug, Clone)]
pub struct WalletConfig {
    /// Hex private key (with or without 0x prefix)
    pub private_key: String,
}

#[derive(Debug, Clone)]
pub struct HyperliquidConfig {
    pub base_url: String,
    pub ws_url: String,
}

#[derive(Debug, Clone)]
pub struct SodexConfig {
    pub api_url: String,
    pub api_key: String,
}

/// Macro news filter config (Finnhub Economic Calendar)
#[derive(Debug, Clone)]
pub struct MacroNewsConfig {
    /// Enable macro news filter
    pub enabled: bool,
    /// Finnhub API key
    pub finnhub_api_key: String,
    /// Block trading N hours before/after HIGH impact events
    pub block_hours_high: i64,
    /// Block trading N hours before/after MEDIUM impact events
    pub block_hours_medium: i64,
}

impl Default for MacroNewsConfig {
    fn default() -> (c: MacroNewsConfig)
        ensures
            !c.enabled,
            c.finnhub_api_key@ == Seq::<char>::empty(),
            c.block_hours_high == 2,
            c.block_hours_medium == 1,
    {
        MacroNewsConfig {
            enabled: false,
            finnhub_api_key: String::new(),
            block_hours_high: default_block_hours_high(),
            block_hours_medium: default_block_hours_medium(),
        }
    }
}

/// Where trades are logged when the configuration does not say.
pub fn default_trade_log_path() -> (s: String)
    ensures
        s@ == "trades.jsonl"@,
{
    text("trades.jsonl")
}

/// The trade database when the configuration does not say.
pub fn default_database_url() -> (s: String)
    ensures
        s@ == "sqlite:signalflow.db?mode=rwc"@,
{
    text("sqlite:signalflow.db?mode=rwc")
}

pub fn default_block_hours_high() -> (h: i64)
    ensures
        h == 2,
{
    2
}

pub fn default_block_hours_medium() -> (h: i64)
    ensures
        h == 1,
{
    1
}

pub fn default_max_leverage() -> (l: u32)
    ensures
        l == 10,
{
    10
}

/// Confidence penalty for trades outside the preferred session.
pub fn default_session_penalty() -> (p: u32)
    ensures
        p == 10,
{
    10
}

/// Start of the preferred session (UTC hour, inclusive).
pub fn default_session_start() -> (h: u32)
    ensures
        h == 13,
{
    13
}

/// End of the preferred session (UTC hour, inclusive).
pub fn default_session_end() -> (h: u32)
    ensures
        h == 21,
{
    21
}

/// A setting the environment may override: a set, non-empty value wins.
pub open spec fn overridden(current: Seq<char>, env: Option<Seq<char>>) -> Seq<char> {
    match env {
        Some(v) => if v.len() > 0 { v } else { current },
        None => current,
    }
}

/// Apply an environment override (the value of the variable, if set).
pub fn override_from_env(current: String, env: Option<String>) -> (r: String)
    ensures
        r@ == overridden(current@, match env {
            Some(v) => Some(v@),
            None => None,
        }),
{
    match env {
        Some(v) => if !v.as_str().is_empty() {
            v
        } else {
            current
        },
        None => current,
    }
}

/// Outcomes of the floating-point checks of the strategy and risk
/// sections, and the integer settings checked with them.
#[derive(Debug, Clone, Copy)]
pub struct StrategyChecks {
    /// max_position_size > 0
    pub max_position_size_ok: bool,
    pub max_leverage: u32,
    pub poll_interval_secs: u64,
    /// max_total_exposure > 0
    pub max_total_exposure_ok: bool,
    /// 0 < stop_loss_pct <= 100
    pub stop_loss_pct_ok: bool,
    /// 0 < take_profit_pct <= 100
    pub take_profit_pct_ok: bool,
    /// max_daily_loss > 0
    pub max_daily_loss_ok: bool,
}

/// The first problem of a configuration, if any: a private key that is not
/// 64 bytes once "0x" is removed, an empty REST or WebSocket URL, then the
/// strategy and risk settings.
pub open spec fn config_problem(wallet: WalletConfig, hl: HyperliquidConfig, c: StrategyChecks) -> Option<Seq<char>> {
    let key_len = encode_utf8(strip_0x(wallet.private_key@)).len();
    if key_len != 64 {
        Some("Private key must be 32 bytes (64 hex chars), got "@ + decimal(key_len) + " chars"@)
    } else if hl.base_url@.len() == 0 {
        Some("Hyperliquid base_url is empty"@)
    } else if hl.ws_url@.len() == 0 {
        Some("Hyperliquid ws_url is empty"@)
    } else if !c.max_position_size_ok {
        Some("max_position_size must be > 0"@)
    } else if c.max_leverage == 0 {
        Some("max_leverage must be > 0"@)
    } else if c.poll_interval_secs == 0 {
        Some("poll_interval_secs must be > 0"@)
    } else if !c.max_total_exposure_ok {
        Some("max_total_exposure must be > 0"@)
    } else if !c.stop_loss_pct_ok {
        Some("stop_loss_pct must be between 0 and 100"@)
    } else if !c.take_profit_pct_ok {
        Some("take_profit_pct must be between 0 and 100"@)
    } else if !c.max_daily_loss_ok {
        Some("max_daily_loss must be > 0"@)
    } else {
        None
    }
}

/// The result a check reports for a problem: none passes, one is a
/// configuration error with its text.
pub open spec fn reports(r: Result<(), BotError>, problem: Option<Seq<char>>) -> bool {
    match problem {
        None => r is Ok,
        Some(m) => r matches Err(BotError::Config(e)) && e@ == m,
    }
}

fn config_error(m: &str) -> (r: Result<(), BotError>)
    ensures
        r matches Err(BotError::Config(e)) && e@ == m@,
{
    Err(BotError::Config(text(m)))
}

/// Check a loaded configuration (after the environment overrides).
pub fn validate_config(wallet: &WalletConfig, hl: &HyperliquidConfig, c: &StrategyChecks) -> (r: Result<(), BotError>)
    ensures
        reports(r, config_problem(*wallet, *hl, *c)),
{
    let key = crate::signing::strip_hex_prefix(wallet.private_key.as_str());
    let n = key.as_bytes().len();
    if n != 64 {
        let mut m = text("Private key must be 32 bytes (64 hex chars), got ");
        push_decimal(&mut m, n as u64);
        m.append(" chars");
        return Err(BotError::Config(m));
    }
    if hl.base_url.as_str().is_empty() {
        return config_error("Hyperliquid base_url is empty");
    }
    if hl.ws_url.as_str().is_empty() {
        return config_error("Hyperliquid ws_url is empty");
    }
    if !c.max_position_size_ok {
        return config_error("max_position_size must be > 0");
    }
    if c.max_leverage == 0 {
        return config_error("max_leverage must be > 0");
    }
    if c.poll_interval_secs == 0 {
        return config_error("poll_interval_secs must be > 0");
    }
    if !c.max_total_exposure_ok {
        return config_error("max_total_exposure must be > 0");
    }
    if !c.stop_loss_pct_ok {
        return config_error("stop_loss_pct must be between 0 and 100");
    }
    if !c.take_profit_pct_ok {
        return config_error("take_profit_pct must be between 0 and 100");
    }
    if !c.max_daily_loss_ok {
        return config_error("max_daily_loss must be > 0");
    }
    Ok(())
}

/// Outcomes of the floating-point checks of the market-data bot's
/// configuration, and the integer settings checked with them.
#[derive(Debug, Clone, Copy)]
pub struct BotChecks {
    /// 0 < risk_per_trade <= 0.05
    pub risk_per_trade_ok: bool,
    pub max_leverage: u32,
    /// max_atr_pct > min_atr_pct
    pub atr_range_ok: bool,
    /// account_size_usd > 0
    pub account_size_ok: bool,
    /// min_position_usd > 0
    pub min_position_ok: bool,
    pub funding_poll_secs: u64,
    pub max_open_positions: usize,
    /// max_daily_loss_usd > 0
    pub max_daily_loss_ok: bool,
    /// max_weekly_loss_usd > 0
    pub max_weekly_loss_ok: bool,
    /// 0 < equity_dd_threshold_pct <= 100
    pub dd_threshold_ok: bool,
    pub session_penalty: u32,
    pub block_hours_high: i64,
    pub block_hours_medium: i64,
}

/// Highest leverage the bot accepts.
pub const MAX_SANE_LEVERAGE: u32 = 50;

/// Highest session penalty the bot accepts.
pub const MAX_SESSION_PENALTY: u32 = 30;

/// The first problem of the market-data bot's configuration, if any.
pub open spec fn bot_config_problem(c: BotChecks) -> Option<Seq<char>> {
    if !c.risk_per_trade_ok {
        Some("risk_per_trade must be > 0 and <= 0.05 (5%)"@)
    } else if c.max_leverage > MAX_SANE_LEVERAGE {
        Some("max_leverage seems dangerously high (>50)"@)
    } else if !c.atr_range_ok {
        Some("max_atr_pct must be greater than min_atr_pct"@)
    } else if !c.account_size_ok {
        Some("account_size_usd must be > 0"@)
    } else if !c.min_position_ok {
        Some("min_position_usd must be > 0"@)
    } else if c.funding_poll_secs == 0 {
        Some("funding_poll_secs must be > 0"@)
    } else if c.max_open_positions == 0 {
        Some("max_open_positions must be > 0"@)
    } else if !c.max_daily_loss_ok {
        Some("max_daily_loss_usd must be > 0"@)
    } else if !c.max_weekly_loss_ok {
        Some("max_weekly_loss_usd must be > 0"@)
    } else if !c.dd_threshold_ok {
        Some("equity_dd_threshold_pct must be between 0 and 100"@)
    } else if c.session_penalty > MAX_SESSION_PENALTY {
        Some("session_penalty must be <= 30"@)
    } else if c.block_hours_high < c.block_hours_medium {
        Some("block_hours_high must be >= block_hours_medium"@)
    } else {
        None
    }
}

/// Check the market-data bot's configuration.
pub fn validate_bot_config(c: &BotChecks) -> (r: Result<(), BotError>)
    ensures
        reports(r, bot_config_problem(*c)),
{
    if !c.risk_per_trade_ok {
        return config_error("risk_per_trade must be > 0 and <= 0.05 (5%)");
    }
    if c.max_leverage > MAX_SANE_LEVERAGE {
        return config_error("max_leverage seems dangerously high (>50)");
    }
    if !c.atr_range_ok {
        return config_error("max_atr_pct must be greater than min_atr_pct");
    }
    if !c.account_size_ok {
        return config_error("account_size_usd must be > 0");
    }
    if !c.min_position_ok {
        return config_error("min_position_usd must be > 0");
    }
    if c.funding_poll_secs == 0 {
        return config_error("funding_poll_secs must be > 0");
    }
    if c.max_open_positions == 0 {
        return config_error("max_open_positions must be > 0");
    }
    if !c.max_daily_loss_ok {
        return config_error("max_daily_loss_usd must be > 0");
    }
    if !c.max_weekly_loss_ok {
        return config_error("max_weekly_loss_usd must be > 0");
    }
    if !c.dd_threshold_ok {
        return config_error("equity_dd_threshold_pct must be between 0 and 100");
    }
    if c.session_penalty > MAX_SESSION_PENALTY {
        return config_error("session_penalty must be <= 30");
    }
    if c.block_hours_high < c.block_hours_medium {
        return config_error("block_hours_high must be >= block_hours_medium");
    }
    Ok(())
}

} // verus!
