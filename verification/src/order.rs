//! Orders: sides, types, statuses the exchange reports, the labels under
//! which trades are logged, and the asset ids orders are sent for.
//! Prices and sizes are carried as the bit patterns of their `f64` values.

use vstd::prelude::*;
use crate::text::text;

verus! {

/// Order side
#[derive(Debug, Clone, Copy, PartialEq, Eq, Structural)]
pub enum Side {
    Buy,
    Sell,
}

/// Order type
#[derive(Debug, Clone, Copy, PartialEq, Eq, Structural)]
pub enum OrderType {
    Limit,
    Market,
    StopLoss,
    TakeProfit,
}

/// Time in force
#[derive(Debug, Clone, Copy, PartialEq, Eq, Structural)]
pub enum TimeInForce {
    /// Good til canceled
    Gtc,
    /// Immediate or cancel
    Ioc,
    /// Add liquidity only (post-only)
    Alo,
}

impl Side {
    /// The label a side is logged under.
    pub open spec fn label(self) -> Seq<char> {
        match self {
            Side::Buy => "buy"@,
            Side::Sell => "sell"@,
        }
    }

    pub fn as_str(&self) -> (s: &'static str)
        ensures
            s@ == self.label(),
    {
        match self {
            Side::Buy => "buy",
            Side::Sell => "sell",
        }
    }
}

impl OrderType {
    /// The time-in-force an order of this type is sent with, for the plain
    /// limit kinds; trigger orders have none.
    pub open spec fn tif_spec(self) -> Option<TimeInForce> {
        match self {
            OrderType::Market => Some(TimeInForce::Ioc),
            OrderType::Limit => Some(TimeInForce::Gtc),
            _ => None,
        }
    }

    /// The time-in-force of a plain limit order of this type.
    pub fn tif(&self) -> (t: Option<TimeInForce>)
        ensures
            t == self.tif_spec(),
    {
        match self {
            OrderType::Market => Some(TimeInForce::Ioc),
            OrderType::Limit => Some(TimeInForce::Gtc),
            _ => None,
        }
    }

    /// The "tpsl" kind of a trigger order: "sl" for a stop loss, "tp" for a
    /// take profit.
    pub open spec fn tpsl_spec(self) -> Option<Seq<char>> {
        match self {
            OrderType::StopLoss => Some("sl"@),
            OrderType::TakeProfit => Some("tp"@),
            _ => None,
        }
    }

    pub fn tpsl(&self) -> (k: Option<&'static str>)
        ensures
            match k {
                Some(s) => self.tpsl_spec() == Some(s@),
                None => self.tpsl_spec() is None,
            },
    {
        match self {
            OrderType::StopLoss => Some("sl"),
            OrderType::TakeProfit => Some("tp"),
            _ => None,
        }
    }

    /// The "grouping" an order action of this type is sent with: trigger
    /// orders (stop loss, take profit) go as "normalTpsl", the plain kinds
    /// as "na".
    pub open spec fn grouping_spec(self) -> Seq<char> {
        match self {
            OrderType::StopLoss | OrderType::TakeProfit => "normalTpsl"@,
            _ => "na"@,
        }
    }

    pub fn grouping(&self) -> (g: &'static str)
        ensures
            g@ == self.grouping_spec(),
    {
        match self {
            OrderType::StopLoss | OrderType::TakeProfit => "normalTpsl",
            _ => "na",
        }
    }
}

impl TimeInForce {
    /// The name the exchange knows a time-in-force by.
    pub open spec fn label(self) -> Seq<char> {
        match self {
            TimeInForce::Gtc => "Gtc"@,
            TimeInForce::Ioc => "Ioc"@,
            TimeInForce::Alo => "Alo"@,
        }
    }

    pub fn as_str(&self) -> (s: &'static str)
        ensures
            s@ == self.label(),
    {
        match self {
            TimeInForce::Gtc => "Gtc",
            TimeInForce::Ioc => "Ioc",
            TimeInForce::Alo => "Alo",
        }
    }
}

/// Order status from exchange
#[derive(Debug, Clone)]
pub enum OrderStatus {
    Pending,
    Resting { oid: u64 },
    /// size and price as `f64` bits
    Filled { total_sz: u64, avg_px: u64, oid: u64 },
    Cancelled { oid: u64 },
    Error { message: String },
}

/// The "filled" part of an order status: its total size and average price
/// (as `f64` bits, when present and numeric) and its order id.
#[derive(Debug, Clone)]
pub struct FillReport {
    pub total_sz: Option<u64>,
    pub avg_px: Option<u64>,
    pub oid: Option<u64>,
}

/// One entry of an exchange reply's `statuses`, as plain values.
#[derive(Debug, Clone)]
pub struct StatusEntry {
    /// the "filled" object, if there is one
    pub filled: Option<FillReport>,
    /// whether there is a "resting" object, with its "oid" when that is an
    /// unsigned integer
    pub resting: Option<Option<u64>>,
    /// whether there is an "error" field, with its text when it is a string
    pub error: Option<Option<String>>,
}

/// The bits of the `f64` zero.
pub const ZERO_BITS: u64 = 0;

/// An order status as the contracts speak of it.
pub enum StatusView {
    Pending,
    Resting(u64),
    /// total size, average price, order id
    Filled(u64, u64, u64),
    Cancelled(u64),
    Error(Seq<char>),
}

impl View for OrderStatus {
    type V = StatusView;

    open spec fn view(&self) -> StatusView {
        match self {
            OrderStatus::Pending => StatusView::Pending,
            OrderStatus::Resting { oid } => StatusView::Resting(*oid),
            OrderStatus::Filled { total_sz, avg_px, oid } => StatusView::Filled(*total_sz, *avg_px, *oid),
            OrderStatus::Cancelled { oid } => StatusView::Cancelled(*oid),
            OrderStatus::Error { message } => StatusView::Error(message@),
        }
    }
}

/// The order status a reply's first status entry reports: a resting order
/// first, then a fill (missing numbers read as zero), then an error (its
/// text, or "Unknown"); an entry with none of these has an unknown format,
/// and a reply without entries an empty status.
pub open spec fn order_status_of(entry: Option<StatusEntry>) -> StatusView {
    match entry {
        None => StatusView::Error("Empty status"@),
        Some(e) => match e.resting {
            Some(oid) => StatusView::Resting(or_zero(oid)),
            None => match e.filled {
                Some(f) => StatusView::Filled(or_zero(f.total_sz), or_zero(f.avg_px), or_zero(f.oid)),
                None => match e.error {
                    Some(Some(m)) => StatusView::Error(m@),
                    Some(None) => StatusView::Error("Unknown"@),
                    None => StatusView::Error("Unknown format"@),
                },
            },
        },
    }
}

/// The value, or zero when absent.
pub open spec fn or_zero(x: Option<u64>) -> u64 {
    match x {
        Some(v) => v,
        None => 0,
    }
}

/// Read the order status from the first entry of a reply's `statuses`.
pub fn parse_order_status(entry: &Option<StatusEntry>) -> (s: OrderStatus)
    ensures
        s@ == order_status_of(*entry),
{
    match entry {
        None => OrderStatus::Error { message: text("Empty status") },
        Some(e) => match e.resting {
            Some(oid) => OrderStatus::Resting { oid: zero_if_absent(oid) },
            None => match &e.filled {
                Some(f) => OrderStatus::Filled {
                    total_sz: zero_if_absent(f.total_sz),
                    avg_px: zero_if_absent(f.avg_px),
                    oid: zero_if_absent(f.oid),
                },
                None => match &e.error {
                    Some(Some(m)) => OrderStatus::Error { message: m.clone() },
                    Some(None) => OrderStatus::Error { message: text("Unknown") },
                    None => OrderStatus::Error { message: text("Unknown format") },
                },
            },
        },
    }
}

fn zero_if_absent(x: Option<u64>) -> (v: u64)
    ensures
        v == or_zero(x),
{
    match x {
        Some(v) => v,
        None => ZERO_BITS,
    }
}

/// How an order status is logged: its label, order id, average price and
/// filled size (prices and sizes as `f64` bits, zero when not filled).
pub struct StatusRecord {
    pub label: String,
    pub order_id: u64,
    pub avg_px: u64,
    pub filled_size: u64,
}

/// The label of a status in the trade database; an error is just "error".
pub open spec fn db_status_label(s: StatusView) -> Seq<char> {
    match s {
        StatusView::Filled(..) => "filled"@,
        StatusView::Resting(..) => "resting"@,
        StatusView::Cancelled(..) => "cancelled"@,
        StatusView::Error(..) => "error"@,
        StatusView::Pending => "pending"@,
    }
}

/// The label of a status in the trade log file; an error carries its
/// message.
pub open spec fn log_status_label(s: StatusView) -> Seq<char> {
    match s {
        StatusView::Error(message) => "error: "@ + message,
        _ => db_status_label(s),
    }
}

/// The order id, price and size a status is logged with.
pub open spec fn status_numbers(s: StatusView) -> (u64, u64, u64) {
    match s {
        StatusView::Filled(total_sz, avg_px, oid) => (oid, avg_px, total_sz),
        StatusView::Resting(oid) => (oid, 0u64, 0u64),
        StatusView::Cancelled(oid) => (oid, 0u64, 0u64),
        _ => (0u64, 0u64, 0u64),
    }
}

/// The record a status is logged with; `with_message` keeps an error's
/// message in its label (trade log file) or drops it (trade database).
pub fn status_record(s: &OrderStatus, with_message: bool) -> (r: StatusRecord)
    ensures
        r.label@ == if with_message { log_status_label(s@) } else { db_status_label(s@) },
        (r.order_id, r.avg_px, r.filled_size) == status_numbers(s@),
{
    match s {
        OrderStatus::Filled { total_sz, avg_px, oid } => StatusRecord {
            label: text("filled"),
            order_id: *oid,
            avg_px: *avg_px,
            filled_size: *total_sz,
        },
        OrderStatus::Resting { oid } => StatusRecord {
            label: text("resting"),
            order_id: *oid,
            avg_px: 0,
            filled_size: 0,
        },
        OrderStatus::Cancelled { oid } => StatusRecord {
            label: text("cancelled"),
            order_id: *oid,
            avg_px: 0,
            filled_size: 0,
        },
        OrderStatus::Error { message } => {
            let label = if with_message {
                let mut m = text("error: ");
                m.append(message.as_str());
                m
            } else {
                text("error")
            };
            StatusRecord { label, order_id: 0, avg_px: 0, filled_size: 0 }
        },
        OrderStatus::Pending => StatusRecord {
            label: text("pending"),
            order_id: 0,
            avg_px: 0,
            filled_size: 0,
        },
    }
}

} // verus!
