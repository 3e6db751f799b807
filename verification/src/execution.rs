//! The limit-order executor's decisions.
//!
//! Placing an order alternates work outside the library (signing, sending,
//! waiting, cancelling) with decisions. Each decision is a function here:
//! what to do with a position plan before anything is sent, what the
//! exchange's first order status means, and what a cancel's result means.
//! Prices and sizes are carried as the bit patterns of their `f64` values.

use vstd::prelude::*;
use crate::error::BotError;
use crate::text::text;
use crate::order::StatusEntry;

verus! {

/// Direction of a planned position.
#[derive(Debug, Clone, Copy, PartialEq, Eq, Structural)]
pub enum SignalDirection {
    Long,
    Short,
}

/// Size decimals used when the asset's metadata does not give them.
pub const DEFAULT_SIZE_DECIMALS: u32 = 2;

/// How long a resting IOC order is left before it is cancelled (ms).
pub const CANCEL_AFTER_MS: u64 = 200;

/// Result of an order attempt
#[derive(Debug, Clone)]
pub struct OrderResult {
    pub success: bool,
    pub oid: Option<u64>,
    pub message: String,
    /// Average fill price (None if not filled), as `f64` bits
    pub fill_price: Option<u64>,
    /// Filled size in units (None if not filled), as `f64` bits
    pub filled_size: Option<u64>,
}

impl OrderResult {
    /// An order filled: it succeeded and reported a fill price.
    pub fn filled(&self) -> (b: bool)
        ensures
            b == (self.success && self.fill_price is Some),
    {
        self.success && self.fill_price.is_some()
    }
}

/// What to do with a plan before anything is sent.
#[derive(Debug, Clone)]
pub enum OrderStart {
    /// Report this result without sending anything (unknown asset,
    /// invalid size, or a dry run).
    Finish(OrderResult),
    /// Send an IOC limit order for this asset, on this side, at this limit
    /// price (`f64` bits), with the size written with this many decimals.
    Send { asset_id: u32, is_buy: bool, limit_price: u64, size_decimals: u32 },
}

/// A buy opens a long, a sell a short; a buy is placed at the best bid and a
/// sell at the best ask.
pub open spec fn is_buy_spec(direction: SignalDirection) -> bool {
    direction == SignalDirection::Long
}

/// The limit price of an order in this direction: the best bid for a long,
/// the best ask for a short.
pub open spec fn limit_price_spec(direction: SignalDirection, best_bid: u64, best_ask: u64) -> u64 {
    if is_buy_spec(direction) {
        best_bid
    } else {
        best_ask
    }
}

/// A result that reports a failure with this message and nothing else.
pub open spec fn failed_with(r: OrderResult, oid: Option<u64>, message: Seq<char>) -> bool {
    &&& !r.success
    &&& r.oid == oid
    &&& r.message@ == message
    &&& r.fill_price is None
    &&& r.filled_size is None
}

/// The decision made before sending, in order: an unknown asset is
/// refused, then a size that is not a positive finite number, then a dry
/// run reports a fill at the limit price (the best bid for a long, the best
/// ask for a short) for the planned size; otherwise the order is sent at
/// that limit price.
pub open spec fn start_matches(
    s: OrderStart,
    direction: SignalDirection,
    pair: Seq<char>,
    asset_id: Option<u32>,
    size_ok: bool,
    size_text: Seq<char>,
    size_decimals: Option<u32>,
    dry_run: bool,
    best_bid: u64,
    best_ask: u64,
    size: u64,
) -> bool {
    if asset_id is None {
        s matches OrderStart::Finish(r) && failed_with(r, None, "Unknown asset: "@ + pair)
    } else if !size_ok {
        s matches OrderStart::Finish(r) && failed_with(r, None, "Invalid size: "@ + size_text)
    } else if dry_run {
        &&& s matches OrderStart::Finish(r)
        &&& r.success
        &&& r.oid == Some(0u64)
        &&& r.message@ == "Dry run"@
        &&& r.fill_price == Some(limit_price_spec(direction, best_bid, best_ask))
        &&& r.filled_size == Some(size)
    } else {
        &&& s matches OrderStart::Send { asset_id: a, is_buy, limit_price: p, size_decimals: d }
        &&& Some(a) == asset_id
        &&& is_buy == is_buy_spec(direction)
        &&& p == limit_price_spec(direction, best_bid, best_ask)
        &&& d == match size_decimals {
            Some(k) => k,
            None => DEFAULT_SIZE_DECIMALS,
        }
    }
}

/// Whether the order for this direction is a buy.
pub fn is_buy(direction: SignalDirection) -> (b: bool)
    ensures
        b == is_buy_spec(direction),
{
    match direction {
        SignalDirection::Long => true,
        SignalDirection::Short => false,
    }
}

/// The limit price for this direction (`f64` bits): the best bid for a
/// long, the best ask for a short.
pub fn limit_price_for(direction: SignalDirection, best_bid: u64, best_ask: u64) -> (p: u64)
    ensures
        p == limit_price_spec(direction, best_bid, best_ask),
{
    if is_buy(direction) {
        best_bid
    } else {
        best_ask
    }
}

fn failure(oid: Option<u64>, message: String) -> (r: OrderResult)
    ensures
        failed_with(r, oid, message@),
{
    OrderResult { success: false, oid, message, fill_price: None, filled_size: None }
}

/// Decide what to do with a position plan before anything is sent.
///
/// `asset_id` is the pair's asset id, if known; `size_ok` says whether the
/// planned size is a positive finite number and `size_text` is how it is
/// displayed; `size_decimals` comes from the asset's metadata;
/// `best_bid`, `best_ask` and `size` are the bits of the best bid, the best
/// ask and the size.
pub fn start_limit_order(
    direction: SignalDirection,
    pair: &str,
    asset_id: Option<u32>,
    size_ok: bool,
    size_text: &str,
    size_decimals: Option<u32>,
    dry_run: bool,
    best_bid: u64,
    best_ask: u64,
    size: u64,
) -> (s: OrderStart)
    ensures
        start_matches(s, direction, pair@, asset_id, size_ok, size_text@, size_decimals, dry_run, best_bid, best_ask, size),
{
    let id = match asset_id {
        Some(id) => id,
        None => {
            let mut m = text("Unknown asset: ");
            m.append(pair);
            return OrderStart::Finish(failure(None, m));
        },
    };
    if !size_ok {
        let mut m = text("Invalid size: ");
        m.append(size_text);
        return OrderStart::Finish(failure(None, m));
    }
    let decimals = match size_decimals {
        Some(k) => k,
        None => DEFAULT_SIZE_DECIMALS,
    };
    let limit_price = limit_price_for(direction, best_bid, best_ask);
    if dry_run {
        return OrderStart::Finish(
            OrderResult {
                success: true,
                oid: Some(0),
                message: text("Dry run"),
                fill_price: Some(limit_price),
                filled_size: Some(size),
            },
        );
    }
    OrderStart::Send { asset_id: id, is_buy: is_buy(direction), limit_price, size_decimals: decimals }
}

/// What the exchange's reply to an order means.
#[derive(Debug, Clone)]
pub enum AfterReply {
    /// The order is done with this result.
    Finish(OrderResult),
    /// The order rests: wait this many milliseconds, then cancel it.
    CancelAfter { oid: u64, wait_ms: u64 },
}

/// A fill is reported as such whatever else the status holds; a resting
/// order is waited for and cancelled; anything else is unclear, quoting
/// the status's error or "unknown response".
pub open spec fn reply_matches(a: AfterReply, status: StatusEntry) -> bool {
    match status.filled {
        Some(f) => {
            &&& a matches AfterReply::Finish(r)
            &&& r.success
            &&& r.oid == f.oid
            &&& r.message@ == "Filled"@
            &&& r.fill_price == f.avg_px
            &&& r.filled_size == f.total_sz
        },
        None => match status.resting {
            Some(Some(oid)) => a == AfterReply::CancelAfter { oid, wait_ms: CANCEL_AFTER_MS },
            _ => a matches AfterReply::Finish(r) && failed_with(
                r,
                None,
                "Unclear: "@ + match status.error {
                    Some(Some(e)) => e@,
                    _ => "unknown response"@,
                },
            ),
        },
    }
}

/// Read the first entry of the exchange's `statuses` (all parts absent when
/// there is none).
pub fn read_order_reply(status: &StatusEntry) -> (a: AfterReply)
    ensures
        reply_matches(a, *status),
{
    match &status.filled {
        Some(f) => AfterReply::Finish(
            OrderResult {
                success: true,
                oid: f.oid,
                message: text("Filled"),
                fill_price: f.avg_px,
                filled_size: f.total_sz,
            },
        ),
        None => match status.resting {
            Some(Some(oid)) => AfterReply::CancelAfter { oid, wait_ms: CANCEL_AFTER_MS },
            _ => {
                let mut m = text("Unclear: ");
                match &status.error {
                    Some(Some(e)) => m.append(e.as_str()),
                    _ => m.append("unknown response"),
                }
                AfterReply::Finish(failure(None, m))
            },
        },
    }
}

/// The result once a resting order's cancel came back: cancelled, or, when
/// the cancel failed, a failure whose fill status is unknown.
pub open spec fn cancel_result_matches(r: OrderResult, oid: u64, cancel: Result<(), BotError>) -> bool {
    match cancel {
        Ok(_) => failed_with(r, Some(oid), "Cancelled after 200ms timeout"@),
        Err(e) => failed_with(r, Some(oid), "Cancel failed (fill unknown): "@ + e.message_spec()),
    }
}

/// Report a resting order once its cancel came back.
pub fn after_cancel(oid: u64, cancel: &Result<(), BotError>) -> (r: OrderResult)
    ensures
        cancel_result_matches(r, oid, *cancel),
{
    match cancel {
        Ok(_) => failure(Some(oid), text("Cancelled after 200ms timeout")),
        Err(e) => {
            let mut m = text("Cancel failed (fill unknown): ");
            let detail = e.message();
            m.append(detail.as_str());
            failure(Some(oid), m)
        },
    }
}

/// The asset a cancel is sent for: the pair's asset id, or an order error
/// when the pair is unknown.
pub fn cancel_target(pair: &str, asset_id: Option<u32>) -> (r: Result<u32, BotError>)
    ensures
        match asset_id {
            Some(id) => r == Ok::<u32, BotError>(id),
            None => r matches Err(BotError::Order(m)) && m@ == "Unknown asset for cancel: "@ + pair@,
        },
{
    match asset_id {
        Some(id) => Ok(id),
        None => {
            let mut m = text("Unknown asset for cancel: ");
            m.append(pair);
            Err(BotError::Order(m))
        },
    }
}

/// An order that was cancelled, or whose cancel failed, is never reported
/// as filled; nor is a refused or unclear one.
pub proof fn lemma_failures_never_filled(r: OrderResult, oid: Option<u64>, message: Seq<char>)
    requires
        failed_with(r, oid, message),
    ensures
        !(r.success && r.fill_price is Some),
{
}

} // verus!
