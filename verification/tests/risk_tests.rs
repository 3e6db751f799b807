use signalflow_bot::risk::{calendar_mark, BlockReason, CalendarMark, RiskGate};

fn mark(day: u32, year: i32, week: u32, week_year: i32) -> CalendarMark {
    CalendarMark { day, year, week, week_year }
}

#[test]
fn gate_blocks_at_the_position_limit() {
    let mut g = RiskGate::new(2, mark(10, 2026, 2, 2026));
    assert!(g.can_open());
    g.set_open_positions(2);
    assert!(!g.can_open());
    assert_eq!(g.block_reason(), Some(BlockReason::MaxPositions));
    g.set_open_positions(1);
    assert_eq!(g.block_reason(), None);
}

#[test]
fn halts_hold_until_their_period_ends() {
    let mut g = RiskGate::new(5, mark(10, 2026, 2, 2026));
    g.apply_loss_limits(true, true);
    assert_eq!(g.block_reason(), Some(BlockReason::DailyLossLimit));
    // same day: nothing lifts
    let r = g.roll_over(mark(10, 2026, 2, 2026), 0);
    assert!(!r.new_day && !r.new_week);
    assert_eq!(g.halt_flags(), (true, true, false));
    // next day, same week: the daily halt lifts
    let r = g.roll_over(mark(11, 2026, 2, 2026), 0);
    assert!(r.new_day && !r.new_week);
    assert_eq!(g.block_reason(), Some(BlockReason::WeeklyLossLimit));
    // a new week lifts the weekly halt
    let r = g.roll_over(mark(15, 2026, 3, 2026), 0);
    assert!(r.new_day && r.new_week);
    assert!(g.can_open());
}

#[test]
fn drawdown_halt_lasts_more_than_an_hour() {
    let mut g = RiskGate::new(5, mark(10, 2026, 2, 2026));
    g.halt_for_drawdown(1_000_000);
    assert_eq!(g.block_reason(), Some(BlockReason::EquityDrawdown));
    let r = g.roll_over(mark(10, 2026, 2, 2026), 1_000_000 + 3_600_999);
    assert!(!r.drawdown_cleared);
    assert!(!g.can_open());
    let r = g.roll_over(mark(10, 2026, 2, 2026), 1_000_000 + 3_601_000);
    assert!(r.drawdown_cleared);
    assert!(g.can_open());
}

#[test]
fn calendar_marks_follow_the_utc_calendar() {
    // 2026-01-01T00:00:00Z is a Thursday in ISO week 1 of 2026
    let c = calendar_mark(1_767_225_600_000).unwrap();
    assert_eq!(c, mark(1, 2026, 1, 2026));
    // 2027-01-01 is a Friday in ISO week 53 of 2026
    let c = calendar_mark(1_798_761_600_000).unwrap();
    assert_eq!(c, mark(1, 2027, 53, 2026));
}
