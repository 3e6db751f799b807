use signalflow_bot::macro_news::{event_utc_seconds, relevant_events, EconomicEvent, MacroCalendar};

fn event(country: &str, name: &str, impact: &str, date: &str, time: &str) -> EconomicEvent {
    EconomicEvent {
        country: Some(country.into()),
        event: Some(name.into()),
        impact: Some(impact.into()),
        date: Some(date.into()),
        time: Some(time.into()),
        actual: None,
        estimate: None,
        prev: None,
    }
}

#[test]
fn test_parse_event_datetime() {
    let ev = EconomicEvent {
        country: Some("US".into()),
        event: Some("Non Farm Payrolls".into()),
        impact: Some("High".into()),
        date: Some("2026-06-05".into()),
        time: Some("8:30 AM".into()),
        actual: None,
        estimate: None,
        prev: None,
    };
    let secs = event_utc_seconds(&ev).unwrap();
    // June = EDT (UTC-4), 8:30 AM ET = 12:30 UTC
    let of_day = secs.rem_euclid(86_400);
    assert_eq!(of_day / 3600, 12);
    assert_eq!((of_day % 3600) / 60, 30);
}

#[test]
fn eastern_offset_follows_daylight_saving() {
    // 2026-01-15 is winter: 8:30 AM ET = 13:30 UTC
    let winter = event_utc_seconds(&event("US", "CPI", "High", "2026-01-15", "8:30 AM")).unwrap();
    assert_eq!(winter.rem_euclid(86_400), 13 * 3600 + 30 * 60);
    // 2026-03-08 is the second Sunday of March: summer time starts
    let start = event_utc_seconds(&event("US", "X", "High", "2026-03-08", "10:00")).unwrap();
    assert_eq!(start.rem_euclid(86_400), 14 * 3600);
    // all-day events sit at midnight UTC
    let all_day = event_utc_seconds(&event("US", "Holiday", "High", "2026-07-03", "All Day")).unwrap();
    assert_eq!(all_day.rem_euclid(86_400), 0);
    assert_eq!(event_utc_seconds(&event("US", "X", "High", "not a date", "8:30 AM")), None);
}

#[test]
fn summer_time_runs_from_second_sunday_of_march_to_first_sunday_of_november() {
    let at = |date: &str| event_utc_seconds(&event("US", "X", "High", date, "8:30 AM")).unwrap().rem_euclid(86_400);
    let summer = 12 * 3600 + 30 * 60;
    let winter = 13 * 3600 + 30 * 60;
    // 2026-03-08 is the second Sunday of March
    assert_eq!(at("2026-03-07"), winter);
    assert_eq!(at("2026-03-08"), summer);
    assert_eq!(at("2026-03-10"), summer);
    assert_eq!(at("2026-03-15"), summer);
    // 2026-11-01 is the first Sunday of November
    assert_eq!(at("2026-10-31"), summer);
    assert_eq!(at("2026-11-01"), winter);
    assert_eq!(at("2026-11-03"), winter);
    // 2027: second Sunday of March is the 14th, first Sunday of November the 7th
    assert_eq!(at("2027-03-13"), winter);
    assert_eq!(at("2027-03-14"), summer);
    assert_eq!(at("2027-11-06"), summer);
    assert_eq!(at("2027-11-07"), winter);
}

#[test]
fn only_us_and_global_high_or_medium_events_are_kept() {
    let kept = relevant_events(vec![
        event("US", "A", "High", "2026-06-05", "8:30 AM"),
        event("EU", "B", "High", "2026-06-05", "8:30 AM"),
        event("GLOBAL", "C", "Medium", "2026-06-05", "8:30 AM"),
        event("US", "D", "Low", "2026-06-05", "8:30 AM"),
    ]);
    let names: Vec<_> = kept.iter().map(|e| e.event.clone().unwrap()).collect();
    assert_eq!(names, vec!["A".to_string(), "C".to_string()]);
}

#[test]
fn trading_is_blocked_near_high_impact_events() {
    let mut cal = MacroCalendar::new(2, 1);
    let ev = event("US", "Non Farm Payrolls", "High", "2026-06-05", "8:30 AM");
    let t = event_utc_seconds(&ev).unwrap() as i64;
    assert_eq!(cal.load_events(vec![ev], (2026, 6, 5)), 1);
    assert!(!cal.needs_refresh((2026, 6, 5)));
    assert!(cal.needs_refresh((2026, 6, 6)));
    assert_eq!(
        cal.should_block_at(t - 3600, 0),
        Some("Non Farm Payrolls (High) — 1h away (block=2h)".to_string())
    );
    assert!(cal.should_block_at(t + 7200, 0).is_some());
    assert_eq!(cal.should_block_at(t + 7201, 0), None);
    assert_eq!(cal.should_block_at(t - 3 * 3600, 0), None);
}

#[test]
fn medium_impact_events_use_their_own_window() {
    let mut cal = MacroCalendar::new(2, 1);
    let ev = event("US", "PMI", "Medium", "2026-06-05", "10:00 AM");
    let t = event_utc_seconds(&ev).unwrap() as i64;
    cal.load_events(vec![ev], (2026, 6, 5));
    assert_eq!(cal.should_block_at(t + 3600, 0), Some("PMI (Medium) — 1h away (block=1h)".to_string()));
    assert_eq!(cal.should_block_at(t + 5400, 0), None);
}
