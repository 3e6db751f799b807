//! The bot loop's bookkeeping: how often positions are synced and stats
//! logged, which tracked positions closed, and where trades are logged.

use vstd::prelude::*;
use crate::rules::{names_of, name_taken};

verus! {

/// Positions are synced from the exchange every this many signals.
pub const POSITION_SYNC_INTERVAL: u64 = 5;

/// Lesson statistics are logged every this many signals.
pub const LESSON_STATS_INTERVAL: u64 = 10;

/// A status line is logged every this many ticks.
pub const STATUS_TICK_INTERVAL: u64 = 60;

/// What the loop does besides trading after a signal.
#[derive(Debug, Clone, Copy, PartialEq, Eq, Structural)]
pub struct CadenceStep {
    pub sync_positions: bool,
    pub log_lesson_stats: bool,
}

/// Counts signals to pace the loop's periodic work.
pub struct SignalCadence {
    count: u64,
}

impl SignalCadence {
    pub closed spec fn count(self) -> u64 {
        self.count
    }

    pub fn new() -> (c: SignalCadence)
        ensures
            c.count() == 0,
    {
        SignalCadence { count: 0 }
    }

    /// Count a signal: positions are synced on every fifth signal and
    /// lesson statistics logged on every tenth.
    pub fn on_signal(&mut self) -> (step: CadenceStep)
        requires
            old(self).count() < u64::MAX,
        ensures
            final(self).count() == old(self).count() + 1,
            step.sync_positions == (final(self).count() % 5 == 0),
            step.log_lesson_stats == (final(self).count() % 10 == 0),
    {
        self.count = self.count + 1;
        CadenceStep {
            sync_positions: self.count % POSITION_SYNC_INTERVAL == 0,
            log_lesson_stats: self.count % LESSON_STATS_INTERVAL == 0,
        }
    }
}

/// Whether tick number `tick` logs a status line.
pub fn is_status_tick(tick: u64) -> (b: bool)
    ensures
        b == (tick % 60 == 0),
{
    tick % STATUS_TICK_INTERVAL == 0
}

/// The tracked coins that no longer have a position, in tracking order.
pub open spec fn closed_in(known: Seq<Seq<char>>, current: Seq<Seq<char>>) -> Seq<Seq<char>> {
    known.filter(|c: Seq<char>| !current.contains(c))
}

/// The tracked coins whose positions disappeared from the exchange.
pub fn closed_coins(known: &Vec<String>, current: &Vec<String>) -> (r: Vec<String>)
    ensures
        names_of(r@) == closed_in(names_of(known@), names_of(current@)),
{
    let ghost k = names_of(known@);
    let ghost c = names_of(current@);
    let mut out: Vec<String> = Vec::new();
    let mut i: usize = 0;
    assert(k.take(0) =~= Seq::<Seq<char>>::empty());
    while i < known.len()
        invariant
            i <= known@.len(),
            k == names_of(known@),
            c == names_of(current@),
            names_of(out@) == closed_in(k.take(i as int), c),
        decreases known.len() - i,
    {
        let ghost before = out@;
        assert(k.take(i + 1) =~= k.take(i as int).push(k[i as int]));
        proof {
            reveal(Seq::filter);
            assert(k.take(i + 1).drop_last() =~= k.take(i as int));
        }
        if !name_taken(current, known[i].as_str()) {
            let name = known[i].clone();
            out.push(name);
            assert(names_of(out@) =~= names_of(before).push(k[i as int]));
        } else {
            assert(names_of(out@) =~= names_of(before));
        }
        i = i + 1;
    }
    assert(k.take(i as int) =~= k);
    out
}

/// JSONL trade logger: one JSON line per trade, appended to a file.
pub struct TradeLog {
    path: String,
}

impl TradeLog {
    pub closed spec fn path_spec(self) -> Seq<char> {
        self.path@
    }

    pub fn new(path: String) -> (t: TradeLog)
        ensures
            t.path_spec() == path@,
    {
        TradeLog { path }
    }

    /// The file the log appends to.
    pub fn path(&self) -> (p: &str)
        ensures
            p@ == self.path_spec(),
    {
        self.path.as_str()
    }
}

} // verus!
