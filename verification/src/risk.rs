//! The risk manager's gate: how many positions are open, which loss limits
//! have halted trading, and when a new day, a new week or the end of a
//! drawdown cooldown lifts a halt.
//!
//! The profit and loss sums are floating-point and stay with the caller,
//! which reports here whether a limit was hit.

use vstd::prelude::*;
use chrono::Datelike;

verus! {

/// How long a drawdown halt lasts at least, in seconds.
pub const DD_COOLDOWN_SECS: i64 = 3600;

/// A UTC day as the risk manager tells days and weeks apart.
#[derive(Debug, Clone, Copy, PartialEq, Eq, Structural)]
pub struct CalendarMark {
    /// day of the year (1-366)
    pub day: u32,
    pub year: i32,
    /// ISO week number
    pub week: u32,
    /// year the ISO week belongs to
    pub week_year: i32,
}

/// The calendar mark of a UTC time in milliseconds, as chrono reads it
/// (`ordinal`, `year`, `iso_week().week()`, `iso_week().year()`), or none
/// when the time is out of chrono's range.
pub uninterp spec fn utc_calendar(ms: i64) -> Option<(u32, i32, u32, i32)>;

/// Calls `chrono::DateTime::from_timestamp_millis` and reads the day of
/// the year, the year, and the ISO week and its year; the result is named
/// `utc_calendar`.
#[verifier::external_body]
fn calendar_of(ms: i64) -> (r: Option<CalendarMark>)
    ensures
        match r {
            Some(c) => utc_calendar(ms) == Some((c.day, c.year, c.week, c.week_year)),
            None => utc_calendar(ms) is None,
        },
{
    let t = chrono::DateTime::from_timestamp_millis(ms)?;
    Some(CalendarMark { day: t.ordinal(), year: t.year(), week: t.iso_week().week(), week_year: t.iso_week().year() })
}

/// The calendar mark of a UTC time in milliseconds, when chrono can
/// represent the time.
pub fn calendar_mark(ms: i64) -> (r: Option<CalendarMark>)
    ensures
        match r {
            Some(c) => utc_calendar(ms) == Some((c.day, c.year, c.week, c.week_year)),
            None => utc_calendar(ms) is None,
        },
{
    calendar_of(ms)
}

/// Why a new position is refused, the first that applies.
#[derive(Debug, Clone, Copy, PartialEq, Eq, Structural)]
pub enum BlockReason {
    DailyLossLimit,
    WeeklyLossLimit,
    EquityDrawdown,
    MaxPositions,
}

/// What a trade's calendar check found: a new day (the daily sum starts
/// over), a new week (the weekly sum starts over), and whether a drawdown
/// halt's cooldown ended.
#[derive(Debug, Clone, Copy, PartialEq, Eq, Structural)]
pub struct Rollover {
    pub new_day: bool,
    pub new_week: bool,
    pub drawdown_cleared: bool,
}

/// The risk manager's gate.
pub struct RiskGate {
    max_open_positions: usize,
    open_positions: usize,
    mark: CalendarMark,
    daily_halt: bool,
    weekly_halt: bool,
    dd_halt: bool,
    dd_halt_time: Option<i64>,
}

/// Whether a drawdown halt set at `since` has run its cooldown by `now`:
/// more than 3600 whole seconds (the millisecond difference divided by
/// 1000, rounded toward zero).
pub open spec fn cooldown_over(since: i64, now: i64) -> bool {
    now - since >= 3_601_000
}

impl RiskGate {
    pub closed spec fn limit(self) -> usize {
        self.max_open_positions
    }

    pub closed spec fn open(self) -> usize {
        self.open_positions
    }

    pub closed spec fn mark_spec(self) -> CalendarMark {
        self.mark
    }

    pub closed spec fn halts(self) -> (bool, bool, bool) {
        (self.daily_halt, self.weekly_halt, self.dd_halt)
    }

    pub closed spec fn halted_since(self) -> Option<i64> {
        self.dd_halt_time
    }

    /// A new position may be opened: below the position limit and no halt.
    pub open spec fn may_open(self) -> bool {
        &&& self.open() < self.limit()
        &&& !self.halts().0
        &&& !self.halts().1
        &&& !self.halts().2
    }

    /// The reason a position is refused, if it is.
    pub open spec fn block_reason_spec(self) -> Option<BlockReason> {
        if self.may_open() {
            None
        } else if self.halts().0 {
            Some(BlockReason::DailyLossLimit)
        } else if self.halts().1 {
            Some(BlockReason::WeeklyLossLimit)
        } else if self.halts().2 {
            Some(BlockReason::EquityDrawdown)
        } else {
            Some(BlockReason::MaxPositions)
        }
    }

    /// A gate with no position open and no halt, on the day of `now`.
    pub fn new(max_open_positions: usize, now: CalendarMark) -> (g: RiskGate)
        ensures
            g.limit() == max_open_positions,
            g.open() == 0,
            g.mark_spec() == now,
            g.halts() == (false, false, false),
            g.halted_since() is None,
    {
        RiskGate {
            max_open_positions,
            open_positions: 0,
            mark: now,
            daily_halt: false,
            weekly_halt: false,
            dd_halt: false,
            dd_halt_time: None,
        }
    }

    /// Update open position count
    pub fn set_open_positions(&mut self, count: usize)
        ensures
            final(self).open() == count,
            final(self).limit() == old(self).limit(),
            final(self).mark_spec() == old(self).mark_spec(),
            final(self).halts() == old(self).halts(),
            final(self).halted_since() == old(self).halted_since(),
    {
        self.open_positions = count;
    }

    /// Check if we can open another position (considers all limits)
    pub fn can_open(&self) -> (b: bool)
        ensures
            b == self.may_open(),
    {
        self.open_positions < self.max_open_positions && !self.daily_halt && !self.weekly_halt && !self.dd_halt
    }

    /// Why a new position would be refused now, if it would.
    pub fn block_reason(&self) -> (r: Option<BlockReason>)
        ensures
            r == self.block_reason_spec(),
    {
        if self.can_open() {
            None
        } else if self.daily_halt {
            Some(BlockReason::DailyLossLimit)
        } else if self.weekly_halt {
            Some(BlockReason::WeeklyLossLimit)
        } else if self.dd_halt {
            Some(BlockReason::EquityDrawdown)
        } else {
            Some(BlockReason::MaxPositions)
        }
    }

    /// Before a trade is recorded at `now_ms` on the day `today`: a new day
    /// (another day of the year, or another year) lifts the daily halt, a
    /// new ISO week lifts the weekly halt, and a drawdown halt whose
    /// cooldown has run is lifted.
    pub fn roll_over(&mut self, today: CalendarMark, now_ms: i64) -> (r: Rollover)
        ensures
            r.new_day == (today.day != old(self).mark_spec().day || today.year != old(self).mark_spec().year),
            r.new_week == (today.week != old(self).mark_spec().week || today.week_year != old(
                self,
            ).mark_spec().week_year),
            r.drawdown_cleared == (old(self).halts().2 && match old(self).halted_since() {
                Some(t) => cooldown_over(t, now_ms),
                None => false,
            }),
            final(self).mark_spec().day == if r.new_day { today.day } else { old(self).mark_spec().day },
            final(self).mark_spec().year == if r.new_day { today.year } else { old(self).mark_spec().year },
            final(self).mark_spec().week == if r.new_week { today.week } else { old(self).mark_spec().week },
            final(self).mark_spec().week_year == if r.new_week {
                today.week_year
            } else {
                old(self).mark_spec().week_year
            },
            final(self).halts().0 == (old(self).halts().0 && !r.new_day),
            final(self).halts().1 == (old(self).halts().1 && !r.new_week),
            final(self).halts().2 == (old(self).halts().2 && !r.drawdown_cleared),
            final(self).halted_since() == if r.drawdown_cleared {
                None
            } else {
                old(self).halted_since()
            },
            final(self).open() == old(self).open(),
            final(self).limit() == old(self).limit(),
    {
        let new_day = today.day != self.mark.day || today.year != self.mark.year;
        if new_day {
            self.daily_halt = false;
            self.mark.day = today.day;
            self.mark.year = today.year;
        }
        let new_week = today.week != self.mark.week || today.week_year != self.mark.week_year;
        if new_week {
            self.weekly_halt = false;
            self.mark.week = today.week;
            self.mark.week_year = today.week_year;
        }
        let mut drawdown_cleared = false;
        if self.dd_halt {
            if let Some(since) = self.dd_halt_time {
                let elapsed_ms: i128 = now_ms as i128 - since as i128;
                // more than 3600 whole seconds
                if elapsed_ms >= (DD_COOLDOWN_SECS as i128 + 1) * 1000 {
                    self.dd_halt = false;
                    self.dd_halt_time = None;
                    drawdown_cleared = true;
                }
            }
        }
        Rollover { new_day, new_week, drawdown_cleared }
    }

    /// After a trade's profit or loss was added: a daily or weekly sum at or
    /// below its limit halts trading until the next day or week. No halt is
    /// lifted here.
    pub fn apply_loss_limits(&mut self, daily_limit_hit: bool, weekly_limit_hit: bool)
        ensures
            final(self).halts().0 == (old(self).halts().0 || daily_limit_hit),
            final(self).halts().1 == (old(self).halts().1 || weekly_limit_hit),
            final(self).halts().2 == old(self).halts().2,
            final(self).halted_since() == old(self).halted_since(),
            final(self).mark_spec() == old(self).mark_spec(),
            final(self).open() == old(self).open(),
            final(self).limit() == old(self).limit(),
    {
        if daily_limit_hit {
            self.daily_halt = true;
        }
        if weekly_limit_hit {
            self.weekly_halt = true;
        }
    }

    /// The equity drawdown passed its threshold at `now_ms`: halt, and
    /// start the cooldown.
    pub fn halt_for_drawdown(&mut self, now_ms: i64)
        ensures
            final(self).halts() == (old(self).halts().0, old(self).halts().1, true),
            final(self).halted_since() == Some(now_ms),
            final(self).mark_spec() == old(self).mark_spec(),
            final(self).open() == old(self).open(),
            final(self).limit() == old(self).limit(),
    {
        self.dd_halt = true;
        self.dd_halt_time = Some(now_ms);
    }

    /// The halts, for status reports: daily, weekly, drawdown.
    pub fn halt_flags(&self) -> (h: (bool, bool, bool))
        ensures
            h == self.halts(),
    {
        (self.daily_halt, self.weekly_halt, self.dd_halt)
    }

    /// Open positions and the limit, for status reports.
    pub fn position_counts(&self) -> (c: (usize, usize))
        ensures
            c == (self.open(), self.limit()),
    {
        (self.open_positions, self.max_open_positions)
    }
}

/// While any halt holds, no position is opened; a halt is lifted only by a
/// new day (daily), a new week (weekly) or the end of the cooldown
/// (drawdown).
pub proof fn lemma_halt_blocks(g: RiskGate)
    ensures
        (g.halts().0 || g.halts().1 || g.halts().2) ==> !g.may_open(),
        g.block_reason_spec() is None <==> g.may_open(),
{
}

} // verus!
