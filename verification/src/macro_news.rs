//! Macro news filter: which economic-calendar events matter, when they
//! happen in UTC, and whether trading is blocked around them.
//!
//! Event dates and clock times come from the calendar in US Eastern time;
//! the UTC offset is approximated from the month, the day and whether the
//! day is a Sunday.

use vstd::prelude::*;
use chrono::{Datelike, Timelike};
use crate::text::{str_eq, push_decimal, push_signed_decimal, decimal, signed_decimal};

verus! {

/// Economic calendar event.
///
/// `actual`, `estimate` and `prev` are the calendar's figures, each carried
/// as the IEEE-754 bit pattern of an `f64` (`f64::to_bits`); the filter only
/// stores them.
#[derive(Debug, Clone)]
pub struct EconomicEvent {
    pub country: Option<String>,
    pub event: Option<String>,
    pub impact: Option<String>,
    /// Calendar date, e.g. "2026-06-05"
    pub date: Option<String>,
    /// Eastern clock time, e.g. "12:30 PM", or "All Day"
    pub time: Option<String>,
    pub actual: Option<u64>,
    pub estimate: Option<u64>,
    pub prev: Option<u64>,
}

/// The text of an optional field, empty when absent.
pub open spec fn opt_text(o: Option<String>) -> Seq<char> {
    match o {
        Some(s) => s@,
        None => Seq::empty(),
    }
}

/// An event matters when it is US or global and of high or medium impact.
pub open spec fn is_relevant(ev: EconomicEvent) -> bool {
    let country = opt_text(ev.country);
    let impact = opt_text(ev.impact);
    (country == "US"@ || country == "GLOBAL"@) && (impact == "High"@ || impact == "Medium"@)
}

/// The relevance test as a predicate over events.
pub open spec fn relevance() -> spec_fn(EconomicEvent) -> bool {
    |e: EconomicEvent| is_relevant(e)
}

fn opt_str(o: &Option<String>) -> (r: &str)
    ensures
        r@ == opt_text(*o),
{
    match o {
        Some(s) => s.as_str(),
        None => {
            proof { reveal_strlit(""); }
            ""
        },
    }
}

fn event_is_relevant(ev: &EconomicEvent) -> (r: bool)
    ensures
        r == is_relevant(*ev),
{
    let country = opt_str(&ev.country);
    let impact = opt_str(&ev.impact);
    (str_eq(country, "US") || str_eq(country, "GLOBAL")) && (str_eq(impact, "High") || str_eq(
        impact,
        "Medium",
    ))
}

/// Keep the relevant events, in their calendar order.
pub fn relevant_events(all: Vec<EconomicEvent>) -> (r: Vec<EconomicEvent>)
    ensures
        r@ == all@.filter(relevance()),
{
    let ghost orig = all@;
    let mut rest = all;
    let mut out: Vec<EconomicEvent> = Vec::new();
    let ghost mut k: int = 0;
    assert(orig.take(0) =~= Seq::<EconomicEvent>::empty());
    while rest.len() > 0
        invariant
            0 <= k <= orig.len(),
            rest@ == orig.skip(k),
            out@ == orig.take(k).filter(relevance()),
        decreases rest.len(),
    {
        let ev = rest.remove(0);
        let ghost prev = out@;
        proof {
            assert(ev == orig[k]);
            assert(orig.take(k + 1) =~= orig.take(k).push(orig[k]));
            orig.take(k).lemma_filter_push(orig[k], relevance());
        }
        let keep = event_is_relevant(&ev);
        assert(keep == relevance()(orig[k]));
        if keep {
            out.push(ev);
            assert(out@ == prev.push(orig[k]));
        }
        proof {
            assert(out@ == orig.take(k + 1).filter(relevance()));
            k = k + 1;
            assert(rest@ =~= orig.skip(k));
        }
    }
    assert(orig.take(k) =~= orig);
    out
}

// ---------------------------------------------------------------------
// Calendar arithmetic, read from chrono
// ---------------------------------------------------------------------

/// What `chrono::NaiveDate::parse_from_str(s, "%Y-%m-%d")` reads from `s`,
/// as (year, month, day).
pub uninterp spec fn parsed_calendar_date(s: Seq<char>) -> Option<(i32, u32, u32)>;

/// What `chrono::NaiveTime::parse_from_str(s, format)` reads from `s`, as
/// (hour, minute, second).
pub uninterp spec fn parsed_clock_time(s: Seq<char>, format: Seq<char>) -> Option<(u32, u32, u32)>;

/// The weekday chrono gives the date (0 = Monday .. 6 = Sunday), when the
/// date exists.
pub uninterp spec fn calendar_weekday(year: i32, month: u32, day: u32) -> Option<u32>;

/// The Unix timestamp chrono gives the date and time read as UTC, when they
/// exist.
pub uninterp spec fn utc_timestamp(year: i32, month: u32, day: u32, hour: u32, minute: u32, second: u32) -> Option<i64>;

/// What `str::trim` leaves of `s`.
pub uninterp spec fn trimmed_text(s: Seq<char>) -> Seq<char>;

/// Calls `chrono::NaiveDate::parse_from_str(s, "%Y-%m-%d")` and returns the
/// year, month and day of the date read; the result is named, not stated.
#[verifier::external_body]
fn parse_calendar_date(s: &str) -> (r: Option<(i32, u32, u32)>)
    ensures
        r == parsed_calendar_date(s@),
{
    match chrono::NaiveDate::parse_from_str(s, "%Y-%m-%d") {
        Ok(d) => Some((d.year(), d.month(), d.day())),
        Err(_) => None,
    }
}

/// Calls `chrono::NaiveTime::parse_from_str(s, format)` and returns the
/// hour, minute and second read; the result is named, not stated.
#[verifier::external_body]
fn parse_clock_time(s: &str, format: &str) -> (r: Option<(u32, u32, u32)>)
    ensures
        r == parsed_clock_time(s@, format@),
{
    match chrono::NaiveTime::parse_from_str(s, format) {
        Ok(t) => Some((t.hour(), t.minute(), t.second())),
        Err(_) => None,
    }
}

/// Calls `chrono::Datelike::weekday` on the date with these parts (built by
/// `NaiveDate::from_ymd_opt`) and returns `num_days_from_monday`; `None`
/// when no such date exists. The weekday itself is named, not stated; that
/// it is below 7 is stated, as chrono documents `num_days_from_monday`.
#[verifier::external_body]
fn weekday_from_monday(year: i32, month: u32, day: u32) -> (r: Option<u32>)
    ensures
        r == calendar_weekday(year, month, day),
        r matches Some(w) ==> w < 7,
{
    match chrono::NaiveDate::from_ymd_opt(year, month, day) {
        Some(d) => Some(d.weekday().num_days_from_monday()),
        None => None,
    }
}

/// Calls `chrono::NaiveDateTime::and_utc(..).timestamp()` on the date and
/// time with these parts (built by `NaiveDate::from_ymd_opt` and
/// `and_hms_opt`); `None` when no such date or time exists. The timestamp
/// is named, not stated.
#[verifier::external_body]
fn utc_seconds(year: i32, month: u32, day: u32, hour: u32, minute: u32, second: u32) -> (r: Option<i64>)
    ensures
        r == utc_timestamp(year, month, day, hour, minute, second),
{
    match chrono::NaiveDate::from_ymd_opt(year, month, day) {
        Some(d) => match d.and_hms_opt(hour, minute, second) {
            Some(dt) => Some(dt.and_utc().timestamp()),
            None => None,
        },
        None => None,
    }
}

/// Calls `str::trim`; what it removes is named, not stated.
#[verifier::external_body]
fn trim_text(s: &str) -> (r: &str)
    ensures
        r@ == trimmed_text(s@),
{
    s.trim()
}

/// Day of the month of the Sunday among the days `first ..= first + 6`,
/// given that day `day` of the same month falls on `weekday`
/// (0 = Monday .. 6 = Sunday).
pub open spec fn sunday_from(first: int, day: int, weekday: int) -> int {
    first + (6 - (weekday - (day - first))) % 7
}

/// The day `sunday_from` picks is one of `first ..= first + 6`, and it is a
/// Sunday: counting on from `day`'s weekday to it lands on weekday 6. So
/// with `first` 8 it is the second Sunday of the month, with `first` 1 the
/// first.
pub proof fn lemma_sunday_from(first: int, day: int, weekday: int)
    requires
        0 <= weekday < 7,
    ensures
        first <= sunday_from(first, day, weekday) <= first + 6,
        (weekday + (sunday_from(first, day, weekday) - day)) % 7 == 6,
{
    let x = 6 - (weekday - (day - first));
    let k = x % 7;
    let q = x / 7;
    vstd::arithmetic::div_mod::lemma_fundamental_div_mod(x, 7);
    assert(weekday + (first + k - day) == (-q) * 7 + 6);
    vstd::arithmetic::div_mod::lemma_fundamental_div_mod_converse(weekday + (first + k - day), 7, -q, 6);
}

/// Hours to add to US Eastern clock time to get UTC: 4 in summer (EDT),
/// 5 in winter (EST). Summer time runs from the second Sunday of March (the
/// Sunday on the 8th to the 14th) up to the first Sunday of November (the
/// Sunday on the 1st to the 7th), on which winter time is back. `weekday`
/// is the day's weekday, 0 = Monday .. 6 = Sunday.
pub open spec fn eastern_offset_hours(month: int, day: int, weekday: int) -> int {
    if 4 <= month <= 10 {
        4
    } else if month == 3 {
        if day >= sunday_from(8, day, weekday) {
            4
        } else {
            5
        }
    } else if month == 11 {
        if day >= sunday_from(1, day, weekday) {
            5
        } else {
            4
        }
    } else {
        5
    }
}

/// The clock time read from a calendar time: 12-hour "8:30 AM" first,
/// else 24-hour "14:30", after trimming.
pub open spec fn clock_time_of(t: Seq<char>) -> Option<(u32, u32, u32)> {
    let trimmed = trimmed_text(t);
    match parsed_clock_time(trimmed, "%I:%M %P"@) {
        Some(x) => Some(x),
        None => parsed_clock_time(trimmed, "%H:%M"@),
    }
}

/// UTC timestamp of an event with this date and Eastern time. "All Day"
/// (or an empty time) stands for midnight UTC of the date.
pub open spec fn event_seconds_of(date: Seq<char>, time: Seq<char>) -> Option<int> {
    if time == "All Day"@ || time.len() == 0 {
        match parsed_calendar_date(date) {
            Some((y, m, d)) => match utc_timestamp(y, m, d, 0, 0, 0) {
                Some(t) => Some(t as int),
                None => None,
            },
            None => None,
        }
    } else {
        match parsed_calendar_date(date) {
            None => None,
            Some((y, m, d)) => match clock_time_of(time) {
                None => None,
                Some((h, mi, s)) => match (calendar_weekday(y, m, d), utc_timestamp(y, m, d, h, mi, s)) {
                    (Some(w), Some(t)) => Some(t as int + 3600 * eastern_offset_hours(m as int, d as int, w as int)),
                    _ => None,
                },
            },
        }
    }
}

/// UTC timestamp of an event, when it has a date and a time that read.
pub open spec fn event_seconds(ev: EconomicEvent) -> Option<int> {
    match (ev.date, ev.time) {
        (Some(d), Some(t)) => event_seconds_of(d@, t@),
        _ => None,
    }
}

fn sunday_on_or_after(first: u32, day: u32, weekday: u32) -> (r: u64)
    requires
        1 <= first <= 8,
        weekday < 7,
    ensures
        r == sunday_from(first as int, day as int, weekday as int),
{
    let x: u64 = day as u64 + 20 - weekday as u64 - first as u64;
    proof {
        let k = 6 - (weekday - (day - first));
        assert(x == k + 14);
        assert((k + 14) % 7 == k % 7) by (nonlinear_arith);
    }
    first as u64 + x % 7
}

fn eastern_offset(month: u32, day: u32, weekday: u32) -> (r: i64)
    requires
        weekday < 7,
    ensures
        r == eastern_offset_hours(month as int, day as int, weekday as int),
{
    if 4 <= month && month <= 10 {
        4
    } else if month == 3 {
        if day as u64 >= sunday_on_or_after(8, day, weekday) {
            4
        } else {
            5
        }
    } else if month == 11 {
        if day as u64 >= sunday_on_or_after(1, day, weekday) {
            5
        } else {
            4
        }
    } else {
        5
    }
}

fn clock_time(t: &str) -> (r: Option<(u32, u32, u32)>)
    ensures
        r == clock_time_of(t@),
{
    let trimmed = trim_text(t);
    match parse_clock_time(trimmed, "%I:%M %P") {
        Some(x) => Some(x),
        None => parse_clock_time(trimmed, "%H:%M"),
    }
}

/// UTC timestamp (seconds) of an event: its Eastern date and time shifted
/// by the Eastern offset, or midnight UTC of its date for all-day events.
pub fn event_utc_seconds(ev: &EconomicEvent) -> (r: Option<i128>)
    ensures
        match event_seconds(*ev) {
            Some(t) => r == Some(t as i128) && r->0 == t,
            None => r is None,
        },
{
    let date = match &ev.date {
        Some(d) => d.as_str(),
        None => return None,
    };
    let time = match &ev.time {
        Some(t) => t.as_str(),
        None => return None,
    };
    if str_eq(time, "All Day") || time.is_empty() {
        return match parse_calendar_date(date) {
            Some((y, m, d)) => match utc_seconds(y, m, d, 0, 0, 0) {
                Some(t) => Some(t as i128),
                None => None,
            },
            None => None,
        };
    }
    let (y, m, d) = match parse_calendar_date(date) {
        Some(x) => x,
        None => return None,
    };
    let (h, mi, s) = match clock_time(time) {
        Some(x) => x,
        None => return None,
    };
    let weekday = weekday_from_monday(y, m, d);
    match (weekday, utc_seconds(y, m, d, h, mi, s)) {
        (Some(w), Some(t)) => Some(t as i128 + 3600 * (eastern_offset(m, d, w) as i128)),
        _ => None,
    }
}


// ---------------------------------------------------------------------
// Blocking trading around events
// ---------------------------------------------------------------------

/// The calendar state of the macro news filter: the relevant events of the
/// last fetch, how many hours before and after high / medium impact events
/// trading is blocked, and the (year, month, day) of the last fetch.
pub struct MacroCalendar {
    pub events: Vec<EconomicEvent>,
    pub block_hours_high: i64,
    pub block_hours_medium: i64,
    pub last_fetch_date: Option<(i32, u32, u32)>,
}

/// Seconds in a window of `hours` hours, as the filter computes it: the
/// hours read as `u64` and multiplied by 3600 modulo 2^64.
pub open spec fn block_window(hours: i64) -> int {
    (((hours as u64) as nat * 3600nat) % 0x1_0000_0000_0000_0000nat) as int
}

/// Whole seconds from `t` to the instant `now_secs` + `now_nanos`
/// nanoseconds, truncated toward zero.
pub open spec fn whole_seconds_since(now_secs: int, now_nanos: int, t: int) -> int {
    let d = now_secs - t;
    if d < 0 && now_nanos > 0 {
        d + 1
    } else {
        d
    }
}

pub open spec fn abs_int(i: int) -> int {
    if i < 0 {
        -i
    } else {
        i
    }
}

/// The event's name, or "unknown event".
pub open spec fn event_name(ev: EconomicEvent) -> Seq<char> {
    match ev.event {
        Some(s) => s@,
        None => "unknown event"@,
    }
}

/// "{name} ({impact}) — {hours away}h away (block={block hours}h)"
pub open spec fn block_reason(name: Seq<char>, impact: Seq<char>, hours_away: nat, block_hours: int) -> Seq<char> {
    name + " ("@ + impact + ") — "@ + decimal(hours_away) + "h away (block="@ + signed_decimal(block_hours) + "h)"@
}

impl MacroCalendar {
    /// The block window, in hours, for an impact label: high and medium
    /// impact only.
    pub open spec fn impact_hours(self, impact: Seq<char>) -> Option<i64> {
        if impact == "High"@ {
            Some(self.block_hours_high)
        } else if impact == "Medium"@ {
            Some(self.block_hours_medium)
        } else {
            None
        }
    }

    /// Why one event blocks trading at the given instant, if it does.
    pub open spec fn event_block(self, ev: EconomicEvent, now_secs: int, now_nanos: int) -> Option<Seq<char>> {
        match event_seconds(ev) {
            None => None,
            Some(t) => match self.impact_hours(opt_text(ev.impact)) {
                None => None,
                Some(h) => {
                    let diff = abs_int(whole_seconds_since(now_secs, now_nanos, t));
                    if diff <= block_window(h) {
                        Some(block_reason(event_name(ev), opt_text(ev.impact), (diff / 3600) as nat, h as int))
                    } else {
                        None
                    }
                },
            },
        }
    }

    /// The reason given by the first event, in order, that blocks trading.
    pub open spec fn first_block(self, events: Seq<EconomicEvent>, now_secs: int, now_nanos: int) -> Option<Seq<char>>
        decreases events.len(),
    {
        if events.len() == 0 {
            None
        } else {
            match self.event_block(events[0], now_secs, now_nanos) {
                Some(r) => Some(r),
                None => self.first_block(events.drop_first(), now_secs, now_nanos),
            }
        }
    }

    pub fn new(block_hours_high: i64, block_hours_medium: i64) -> (c: MacroCalendar)
        ensures
            c.events@.len() == 0,
            c.block_hours_high == block_hours_high,
            c.block_hours_medium == block_hours_medium,
            c.last_fetch_date is None,
    {
        MacroCalendar { events: Vec::new(), block_hours_high, block_hours_medium, last_fetch_date: None }
    }

    /// A fetch is due unless the last one was made on `today`.
    pub fn needs_refresh(&self, today: (i32, u32, u32)) -> (r: bool)
        ensures
            r == (self.last_fetch_date != Some(today)),
    {
        match self.last_fetch_date {
            Some(d) => !(d.0 == today.0 && d.1 == today.1 && d.2 == today.2),
            None => true,
        }
    }

    /// Replace the cached events by the relevant ones of a fresh calendar
    /// fetched on `today`; returns how many were kept.
    pub fn load_events(&mut self, fetched: Vec<EconomicEvent>, today: (i32, u32, u32)) -> (n: usize)
        ensures
            final(self).events@ == fetched@.filter(relevance()),
            n == final(self).events@.len(),
            final(self).last_fetch_date == Some(today),
            final(self).block_hours_high == old(self).block_hours_high,
            final(self).block_hours_medium == old(self).block_hours_medium,
    {
        self.events = relevant_events(fetched);
        self.last_fetch_date = Some(today);
        self.events.len()
    }

    fn block_of(&self, ev: &EconomicEvent, now_secs: i64, now_nanos: u32) -> (r: Option<String>)
        ensures
            match r {
                Some(s) => self.event_block(*ev, now_secs as int, now_nanos as int) == Some(s@),
                None => self.event_block(*ev, now_secs as int, now_nanos as int) is None,
            },
    {
        let t = match event_utc_seconds(ev) {
            Some(t) => t,
            None => return None,
        };
        let impact = opt_str(&ev.impact);
        let hours = if str_eq(impact, "High") {
            self.block_hours_high
        } else if str_eq(impact, "Medium") {
            self.block_hours_medium
        } else {
            return None;
        };
        let mut d: i128 = now_secs as i128 - t;
        if d < 0 && now_nanos > 0 {
            d = d + 1;
        }
        let diff: i128 = if d < 0 { -d } else { d };
        let window: u64 = (hours as u64).wrapping_mul(3600);
        if diff <= window as i128 {
            let mut reason = String::new();
            match &ev.event {
                Some(name) => reason.append(name.as_str()),
                None => reason.append("unknown event"),
            }
            reason.append(" (");
            reason.append(impact);
            reason.append(") — ");
            push_decimal(&mut reason, (diff / 3600) as u64);
            reason.append("h away (block=");
            push_signed_decimal(&mut reason, hours);
            reason.append("h)");
            Some(reason)
        } else {
            None
        }
    }

    /// Whether trading is blocked at the instant `now_secs` (Unix seconds)
    /// plus `now_nanos` nanoseconds: the reason given by the first cached
    /// event of high or medium impact whose time is within its block window
    /// of now, or `None` when trading may go on.
    pub fn should_block_at(&self, now_secs: i64, now_nanos: u32) -> (r: Option<String>)
        ensures
            match r {
                Some(s) => self.first_block(self.events@, now_secs as int, now_nanos as int) == Some(s@),
                None => self.first_block(self.events@, now_secs as int, now_nanos as int) is None,
            },
    {
        let n = self.events.len();
        let mut i: usize = 0;
        assert(self.events@.skip(0) =~= self.events@);
        while i < n
            invariant
                n == self.events@.len(),
                i <= n,
                self.first_block(self.events@, now_secs as int, now_nanos as int)
                    == self.first_block(self.events@.skip(i as int), now_secs as int, now_nanos as int),
            decreases n - i,
        {
            let ghost rest = self.events@.skip(i as int);
            assert(rest[0] == self.events@[i as int]);
            assert(rest.drop_first() =~= self.events@.skip(i + 1));
            match self.block_of(&self.events[i], now_secs, now_nanos) {
                Some(reason) => return Some(reason),
                None => {},
            }
            i = i + 1;
        }
        None
    }
}

/// The current UTC time as chrono's clock reads it: Unix seconds and the
/// nanoseconds past them.
#[verifier::external_body]
fn utc_now() -> (t: (i64, u32)) {
    let now = chrono::Utc::now();
    (now.timestamp(), now.timestamp_subsec_nanos())
}

/// Today's UTC date as (year, month, day), by chrono's clock.
#[verifier::external_body]
fn utc_today() -> (d: (i32, u32, u32)) {
    let today = chrono::Utc::now().date_naive();
    (today.year(), today.month(), today.day())
}

impl MacroCalendar {
    /// `r` is what blocking looks like at the instant `secs` + `nanos`.
    pub open spec fn blocks_with(self, r: Option<String>, secs: i64, nanos: u32) -> bool {
        match r {
            Some(s) => self.first_block(self.events@, secs as int, nanos as int) == Some(s@),
            None => self.first_block(self.events@, secs as int, nanos as int) is None,
        }
    }

    /// Whether trading is blocked now, by the UTC clock: the answer of
    /// `should_block_at` for the instant the clock read.
    pub fn should_block(&self) -> (r: Option<String>)
        ensures
            exists|secs: i64, nanos: u32| #[trigger] self.blocks_with(r, secs, nanos),
    {
        let (secs, nanos) = utc_now();
        let r = self.should_block_at(secs, nanos);
        assert(self.blocks_with(r, secs, nanos));
        r
    }

    /// Whether the calendar should be fetched again: not yet fetched today
    /// (UTC).
    pub fn refresh_due(&self) -> (r: bool)
        ensures
            self.last_fetch_date is None ==> r,
            exists|today: (i32, u32, u32)| r == #[trigger] self.due_on(today),
    {
        let today = utc_today();
        let r = self.needs_refresh(today);
        assert(r == self.due_on(today));
        r
    }

    /// A fetch is due on `today` unless the last one was made that day.
    pub open spec fn due_on(self, today: (i32, u32, u32)) -> bool {
        self.last_fetch_date != Some(today)
    }
}

} // verus!
