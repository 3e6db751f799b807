use signalflow_bot::backoff::{reconnect_backoff_secs, ReconnectBackoff};
use signalflow_bot::error::BotError;
use signalflow_bot::exchange::{ExchangeReply, ExchangeRetry, ExchangeStep, StatusError};

fn order_error(step: ExchangeStep) -> String {
    match step {
        ExchangeStep::Fail(BotError::Order(m)) => m,
        other => panic!("unexpected {:?}", other),
    }
}

#[test]
fn rate_limits_are_retried_three_times_with_doubling_pauses() {
    let mut retry = ExchangeRetry::new();
    let mut waits = Vec::new();
    for _ in 0..3 {
        match retry.on_reply(&ExchangeReply::TooManyRequests) {
            ExchangeStep::Retry { delay_ms } => waits.push(delay_ms),
            other => panic!("unexpected {:?}", other),
        }
    }
    assert_eq!(waits, vec![1000, 2000, 4000]);
    assert_eq!(order_error(retry.on_reply(&ExchangeReply::TooManyRequests)), "Rate limited after max retries");
}

#[test]
fn a_rate_limit_status_counts_as_a_rate_limit() {
    let mut retry = ExchangeRetry::new();
    let reply = ExchangeReply::Parsed { status: "rate_limit".to_string(), statuses: vec![] };
    assert!(matches!(retry.on_reply(&reply), ExchangeStep::Retry { delay_ms: 1000 }));
    let mut order_retry = ExchangeRetry::new();
    let reply = ExchangeReply::Parsed { status: "ratelimited".to_string(), statuses: vec![] };
    assert!(matches!(order_retry.on_order_reply(&reply), ExchangeStep::Retry { delay_ms: 1000 }));
}

#[test]
fn failures_end_with_their_reason() {
    let mut retry = ExchangeRetry::new();
    let body = "x".repeat(250);
    let msg = order_error(retry.on_reply(&ExchangeReply::HttpFailure { status: "500 Internal Server Error".to_string(), body }));
    assert_eq!(msg, format!("Exchange failed: HTTP 500 Internal Server Error — {}", "x".repeat(200)));
    let msg = order_error(retry.on_reply(&ExchangeReply::Unparsable { detail: "eof".to_string() }));
    assert_eq!(msg, "Exchange parse failed: eof");
    let msg = order_error(retry.on_reply(&ExchangeReply::Parsed { status: "err".to_string(), statuses: vec![] }));
    assert_eq!(msg, "Exchange rejected: err");
    let statuses = vec![
        StatusError::Text("bad price".to_string()),
        StatusError::Absent,
        StatusError::NotText,
        StatusError::Text("too small".to_string()),
    ];
    let msg = order_error(retry.on_reply(&ExchangeReply::Parsed { status: "ok".to_string(), statuses }));
    assert_eq!(msg, "Order errors: [0] bad price; [3] too small");
    let ok = ExchangeReply::Parsed { status: "ok".to_string(), statuses: vec![StatusError::Absent] };
    assert!(matches!(retry.on_reply(&ok), ExchangeStep::Done));
}

#[test]
fn order_client_reads_only_the_first_status() {
    let mut retry = ExchangeRetry::new();
    let reply = ExchangeReply::Parsed {
        status: "ok".to_string(),
        statuses: vec![StatusError::Absent, StatusError::Text("late".to_string())],
    };
    assert!(matches!(retry.on_order_reply(&reply), ExchangeStep::Done));
    let reply = ExchangeReply::Parsed { status: "ok".to_string(), statuses: vec![StatusError::NotText] };
    assert_eq!(order_error(retry.on_order_reply(&reply)), "Order error: Unknown error");
    let reply = ExchangeReply::HttpFailure { status: "502 Bad Gateway".to_string(), body: "oops".to_string() };
    assert_eq!(order_error(retry.on_order_reply(&reply)), "Exchange failed: HTTP 502 Bad Gateway");
}

#[test]
fn reconnect_delays_double_up_to_thirty_seconds() {
    let mut b = ReconnectBackoff::new();
    let waits: Vec<u64> = (0..7).map(|_| b.after_subscribe_failure()).collect();
    assert_eq!(waits, vec![1, 2, 4, 8, 16, 30, 30]);
    assert_eq!(b.after_disconnect(61), 1);
    assert_eq!(b.delay_secs(), 2);
    assert_eq!(b.after_disconnect(60), 2);
}

#[test]
fn all_mids_stream_gives_up_after_ten_attempts() {
    let waits: Vec<Option<u64>> = (1..=11).map(reconnect_backoff_secs).collect();
    assert_eq!(
        waits,
        vec![Some(1), Some(2), Some(4), Some(8), Some(16), Some(30), Some(30), Some(30), Some(30), Some(30), None]
    );
}

#[test]
fn error_messages_carry_their_kind() {
    assert_eq!(BotError::Config("x".to_string()).message(), "Config error: x");
    assert_eq!(BotError::Api("x".to_string()).message(), "API error: x");
    assert_eq!(BotError::WebSocket("x".to_string()).message(), "WebSocket error: x");
    assert_eq!(BotError::Signing("x".to_string()).message(), "Signing error: x");
    assert_eq!(BotError::Network("x".to_string()).message(), "Network error: x");
    assert_eq!(BotError::Json("x".to_string()).message(), "JSON error: x");
    assert_eq!(BotError::Io("x".to_string()).message(), "IO error: x");
}
