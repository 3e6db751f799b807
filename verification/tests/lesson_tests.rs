use signalflow_bot::lesson::{
    classify_loss, classify_win, describe_cause, lesson_plan, CauseInfo, LessonType, LossCause, Outcome, TradeFacts,
    WinCause,
};

#[test]
fn test_loss_cause_description() {
    let cause = LossCause::TightStopLoss;
    assert!(!cause.description().is_empty());
    assert_eq!(cause.as_str(), "tight_stop_loss");
}

#[test]
fn test_cause_info_loss() {
    let info = CauseInfo::loss(LossCause::HighVolatility, "ATR was 5%".to_string());
    assert!(info.loss_cause.is_some());
    assert!(info.win_cause.is_none());
}

#[test]
fn test_cause_info_win() {
    let info = CauseInfo::win(WinCause::StrongTrend, "Clear uptrend".to_string());
    assert!(info.win_cause.is_some());
    assert!(info.loss_cause.is_none());
}

#[test]
fn outcome_and_lesson_type_labels_read_back() {
    for o in [Outcome::Win, Outcome::Loss, Outcome::Breakeven] {
        assert_eq!(Outcome::from_label(o.as_str()), o);
    }
    for t in [LessonType::Pattern, LessonType::AntiPattern, LessonType::Observation] {
        assert_eq!(LessonType::from_label(t.as_str()), t);
    }
    assert_eq!(Outcome::from_label("draw"), Outcome::Breakeven);
    assert_eq!(LessonType::from_label("note"), LessonType::Observation);
    assert_eq!(LessonType::from_label("anti_pattern"), LessonType::AntiPattern);
}

#[test]
fn lesson_type_follows_outcome() {
    assert_eq!(LessonType::for_outcome(Outcome::Win), LessonType::Pattern);
    assert_eq!(LessonType::for_outcome(Outcome::Loss), LessonType::AntiPattern);
    assert_eq!(LessonType::for_outcome(Outcome::Breakeven), LessonType::Observation);
}

#[test]
fn cause_labels_and_descriptions() {
    assert_eq!(LossCause::WrongSession.as_str(), "wrong_session");
    assert_eq!(LossCause::Unknown.description(), "Cause could not be determined");
    assert_eq!(WinCause::GoodSignalQuality.as_str(), "good_signal_quality");
    assert_eq!(WinCause::RightSession.as_str(), "right_session");
}

fn facts(moved_little: bool, moved_far: bool, trended: bool, score: u32, in_session: bool, volatile: bool) -> TradeFacts {
    TradeFacts { moved_little, moved_far, trended, signal_score: score, in_session, volatile }
}

#[test]
fn loss_causes_in_order() {
    assert_eq!(classify_loss(facts(true, true, false, 10, false, true)), LossCause::TightStopLoss);
    assert_eq!(classify_loss(facts(false, true, false, 10, false, true)), LossCause::MarketReversal);
    assert_eq!(classify_loss(facts(false, false, false, 69, false, true)), LossCause::BadSignalQuality);
    assert_eq!(classify_loss(facts(false, false, false, 70, false, true)), LossCause::WrongSession);
    assert_eq!(classify_loss(facts(false, false, false, 70, true, true)), LossCause::HighVolatility);
    assert_eq!(classify_loss(facts(false, false, false, 70, true, false)), LossCause::Unknown);
}

#[test]
fn win_causes_in_order() {
    assert_eq!(classify_win(facts(false, false, true, 90, true, false)), WinCause::GoodSignalQuality);
    assert_eq!(classify_win(facts(false, false, true, 89, true, false)), WinCause::StrongTrend);
    assert_eq!(classify_win(facts(false, false, false, 89, true, false)), WinCause::RightSession);
    assert_eq!(classify_win(facts(false, false, false, 89, false, false)), WinCause::Unknown);
}

#[test]
fn lessons_are_planned_and_described() {
    let f = facts(true, false, false, 80, true, false);
    assert_eq!(lesson_plan(Outcome::Breakeven, true, f), None);
    assert_eq!(lesson_plan(Outcome::Loss, false, f), None);
    let loss = lesson_plan(Outcome::Loss, true, f).unwrap();
    assert_eq!(loss.lesson_type, LessonType::AntiPattern);
    let info = describe_cause(&loss, "0.25", 80, true);
    assert_eq!(info.loss_cause, Some(LossCause::TightStopLoss));
    assert_eq!(info.details, "Stop loss triggered by normal price wick: price_change=0.25%, score=80, session=true");
    let win = lesson_plan(Outcome::Win, true, facts(false, false, true, 95, false, false)).unwrap();
    assert_eq!(win.lesson_type, LessonType::Pattern);
    let info = describe_cause(&win, "2.10", 95, false);
    assert_eq!(info.win_cause, Some(WinCause::GoodSignalQuality));
    assert!(info.loss_cause.is_none());
    assert_eq!(info.details, "win: price_change=2.10%, score=95, session=false");
}
