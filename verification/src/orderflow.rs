//! Order flow of the trades channel: trade sides, and the rolling window
//! of the cumulative volume delta (whose `f64` sums the caller keeps).

use vstd::prelude::*;
use crate::text::str_eq;

verus! {

/// Side of a trade on the trades channel.
#[derive(Debug, Clone, Copy, PartialEq, Eq, Structural)]
pub enum TradeSide {
    Buy,
    Sell,
}

/// The side a trades-channel code stands for: "B" a buy, "A" a sell.
pub open spec fn trade_side_of(code: Seq<char>) -> Option<TradeSide> {
    if code == "B"@ {
        Some(TradeSide::Buy)
    } else if code == "A"@ {
        Some(TradeSide::Sell)
    } else {
        None
    }
}

impl TradeSide {
    /// Read a trades-channel side code; other codes are skipped.
    pub fn from_code(code: &str) -> (s: Option<TradeSide>)
        ensures
            s == trade_side_of(code@),
    {
        if str_eq(code, "B") {
            Some(TradeSide::Buy)
        } else if str_eq(code, "A") {
            Some(TradeSide::Sell)
        } else {
            None
        }
    }
}

/// A trade as the recent-trades endpoint reports it.
#[derive(Debug, Clone)]
pub struct TradeRaw {
    pub coin: String,
    /// "B" for a buy, "A" for a sell
    pub side: String,
    /// price, as decimal text
    pub px: String,
    /// size, as decimal text
    pub sz: String,
    pub time: u64,
    pub hash: Option<String>,
}

impl TradeRaw {
    /// The trade's side, if its code is one the bot knows.
    pub fn trade_side(&self) -> (s: Option<TradeSide>)
        ensures
            s == trade_side_of(self.side@),
    {
        TradeSide::from_code(self.side.as_str())
    }
}

/// How many entries at the front of a rolling window have left it at time
/// `now`: the longest run of leading entries stamped before the cutoff,
/// `now - window_ms` (zero when that would be negative).
pub open spec fn expired_prefix_len(stamps: Seq<u64>, cutoff: u64, n: int) -> bool {
    &&& 0 <= n <= stamps.len()
    &&& forall|i: int| 0 <= i < n ==> #[trigger] stamps[i] < cutoff
    &&& (n < stamps.len() ==> stamps[n] >= cutoff)
}

/// The cutoff of a window of `window_ms` milliseconds at time `now`.
pub open spec fn window_cutoff(now: u64, window_ms: u64) -> u64 {
    if now >= window_ms { (now - window_ms) as u64 } else { 0 }
}

/// How many of the oldest window entries (timestamps in milliseconds, in
/// the order they were added) to evict at time `now`.
pub fn expired_count(stamps: &Vec<u64>, now: u64, window_ms: u64) -> (n: usize)
    ensures
        expired_prefix_len(stamps@, window_cutoff(now, window_ms), n as int),
{
    let cutoff = now.saturating_sub(window_ms);
    let mut i: usize = 0;
    while i < stamps.len() && stamps[i] < cutoff
        invariant
            i <= stamps@.len(),
            cutoff == window_cutoff(now, window_ms),
            forall|k: int| 0 <= k < i ==> #[trigger] stamps@[k] < cutoff,
        decreases stamps.len() - i,
    {
        i = i + 1;
    }
    i
}

/// Trades a window needs before divergence is judged.
pub const MIN_TRADES_FOR_DIVERGENCE: usize = 5;

/// Whether the cumulative volume delta diverges from the price trend: with
/// at least five trades in the window, the price rising while the delta is
/// negative, or falling while it is positive.
pub fn is_cvd_diverging(trade_count: usize, price_trend_up: bool, cvd_positive: bool, cvd_negative: bool) -> (b: bool)
    ensures
        b == (trade_count >= 5 && ((price_trend_up && cvd_negative) || (!price_trend_up && cvd_positive))),
{
    if trade_count < MIN_TRADES_FOR_DIVERGENCE {
        return false;
    }
    (price_trend_up && cvd_negative) || (!price_trend_up && cvd_positive)
}

} // verus!
