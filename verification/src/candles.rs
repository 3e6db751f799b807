//! Candle bookkeeping of the technical-analysis engine: which time bucket
//! a trade or a candle belongs to, and how one-minute candles group into
//! five-minute candles. The prices and volumes are `f64` values the caller
//! combines.

use vstd::prelude::*;

verus! {

/// Length of a one-minute candle, in milliseconds.
pub const MINUTE_MS: u64 = 60_000;

/// Length of a five-minute candle, in milliseconds.
pub const FIVE_MINUTES_MS: u64 = 300_000;

/// The start of the bucket of width `width` that holds time `ts`.
pub open spec fn bucket_start(ts: u64, width: u64) -> u64 {
    ((ts / width) * width) as u64
}

/// The start of the one-minute candle a trade at `ts` belongs to.
pub fn minute_start(ts: u64) -> (s: u64)
    ensures
        s == bucket_start(ts, MINUTE_MS),
        s <= ts,
{
    let q = ts / MINUTE_MS;
    assert(q * MINUTE_MS <= ts) by (nonlinear_arith)
        requires
            q == ts / 60_000,
    ;
    q * MINUTE_MS
}

/// A trade at `ts` updates the last one-minute candle when it falls in
/// the same minute; otherwise it opens a new candle.
pub fn extends_last_candle(last_start: Option<u64>, ts: u64) -> (b: bool)
    ensures
        b == (last_start == Some(bucket_start(ts, MINUTE_MS))),
{
    match last_start {
        Some(s) => s == minute_start(ts),
        None => false,
    }
}

/// A run of consecutive one-minute candles that form one five-minute
/// candle: its bucket start and the range [first, end) of candles.
#[derive(Debug, Clone, Copy, PartialEq, Eq, Structural)]
pub struct CandleRun {
    pub bucket: u64,
    pub first: usize,
    pub end: usize,
}

/// `runs` split the candles with these start times into maximal runs of
/// consecutive candles in the same five-minute bucket, in order.
pub open spec fn runs_split(starts: Seq<u64>, runs: Seq<CandleRun>) -> bool {
    &&& (starts.len() == 0 <==> runs.len() == 0)
    &&& runs.len() > 0 ==> runs[0].first == 0 && runs[runs.len() - 1].end == starts.len()
    &&& forall|k: int| 0 <= k < runs.len() ==> (#[trigger] runs[k]).first < runs[k].end
    &&& forall|k: int| 0 <= k < runs.len() - 1 ==> (#[trigger] runs[k]).end == runs[k + 1].first
    &&& forall|k: int, i: int|
        0 <= k < runs.len() && runs[k].first <= i < runs[k].end ==> bucket_start(#[trigger] starts[i], FIVE_MINUTES_MS)
            == (#[trigger] runs[k]).bucket
    &&& forall|k: int| 0 <= k < runs.len() - 1 ==> bucket_start(starts[(#[trigger] runs[k]).end as int], FIVE_MINUTES_MS) != runs[k].bucket
}

fn five_minute_start(ts: u64) -> (s: u64)
    ensures
        s == bucket_start(ts, FIVE_MINUTES_MS),
{
    let q = ts / FIVE_MINUTES_MS;
    assert(q * FIVE_MINUTES_MS <= ts) by (nonlinear_arith)
        requires
            q == ts / 300_000,
    ;
    q * FIVE_MINUTES_MS
}

/// Group one-minute candles (by their start times, in order) into
/// five-minute candles.
pub fn five_minute_runs(starts: &Vec<u64>) -> (runs: Vec<CandleRun>)
    ensures
        runs_split(starts@, runs@),
{
    let mut runs: Vec<CandleRun> = Vec::new();
    let n = starts.len();
    let mut i: usize = 0;
    while i < n
        invariant
            n == starts@.len(),
            i <= n,
            (i == 0 <==> runs@.len() == 0),
            runs@.len() > 0 ==> runs@[0].first == 0 && runs@[runs@.len() - 1].end == i,
            forall|k: int| 0 <= k < runs@.len() ==> (#[trigger] runs@[k]).first < runs@[k].end,
            forall|k: int| 0 <= k < runs@.len() - 1 ==> (#[trigger] runs@[k]).end == runs@[k + 1].first,
            forall|k: int, j: int|
                0 <= k < runs@.len() && runs@[k].first <= j < runs@[k].end ==> bucket_start(
                    #[trigger] starts@[j],
                    FIVE_MINUTES_MS,
                ) == (#[trigger] runs@[k]).bucket,
            forall|k: int| 0 <= k < runs@.len() - 1 ==> bucket_start(starts@[(#[trigger] runs@[k]).end as int], FIVE_MINUTES_MS) != runs@[k].bucket,
            runs@.len() > 0 && i < n ==> bucket_start(starts@[i as int], FIVE_MINUTES_MS) != runs@[runs@.len() - 1].bucket,
        decreases n - i,
    {
        let bucket = five_minute_start(starts[i]);
        let first = i;
        i = i + 1;
        while i < n && five_minute_start(starts[i]) == bucket
            invariant
                n == starts@.len(),
                first < i <= n,
                bucket == bucket_start(starts@[first as int], FIVE_MINUTES_MS),
                forall|j: int| first <= j < i ==> bucket_start(#[trigger] starts@[j], FIVE_MINUTES_MS) == bucket,
            decreases n - i,
        {
            i = i + 1;
        }
        let ghost before = runs@;
        runs.push(CandleRun { bucket, first, end: i });
        proof {
            assert forall|k: int, j: int|
                0 <= k < runs@.len() && runs@[k].first <= j < runs@[k].end implies bucket_start(
                    #[trigger] starts@[j],
                    FIVE_MINUTES_MS,
                ) == (#[trigger] runs@[k]).bucket by {
                if k < before.len() {
                    assert(runs@[k] == before[k]);
                }
            }
            assert forall|k: int| 0 <= k < runs@.len() - 1 implies bucket_start(starts@[(#[trigger] runs@[k]).end as int], FIVE_MINUTES_MS) != runs@[k].bucket by {
                assert(runs@[k] == before[k]);
            }
        }
    }
    runs
}

} // verus!
