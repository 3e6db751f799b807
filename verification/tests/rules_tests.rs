use signalflow_bot::lesson::{CauseInfo, LossCause, Outcome, WinCause};
use signalflow_bot::rules::{
    coin_rule_verdict, frequent_loss_coins, lesson_rule_targets, new_lesson_rule, new_pattern_rule, plan_lesson_rule,
    CoinVerdict, RuleAction, RuleType,
};

#[test]
fn lesson_rules_follow_their_cause() {
    let p = plan_lesson_rule(Outcome::Loss, &CauseInfo::loss(LossCause::TightStopLoss, String::new()), "BTC").unwrap();
    assert_eq!(p.name, "lesson_BTC_widen_sl");
    assert_eq!(p.rule_type, RuleType::LessonRule);
    assert_eq!(p.priority, 7);
    assert_eq!(p.action, RuleAction::Adjust { size_pct: None, sl_pct: Some(130), tp_pct: None });
    let p = plan_lesson_rule(Outcome::Loss, &CauseInfo::loss(LossCause::HighVolatility, String::new()), "ETH").unwrap();
    assert_eq!(p.name, "lesson_ETH_reduce_vol");
    assert_eq!(p.action, RuleAction::Adjust { size_pct: Some(50), sl_pct: Some(80), tp_pct: None });
    let p = plan_lesson_rule(Outcome::Win, &CauseInfo::win(WinCause::StrongTrend, String::new()), "SOL").unwrap();
    assert_eq!((p.name.as_str(), p.priority), ("lesson_SOL_trend_win", 5));
    assert!(plan_lesson_rule(Outcome::Loss, &CauseInfo::loss(LossCause::Unknown, String::new()), "SOL").is_none());
    assert!(plan_lesson_rule(Outcome::Win, &CauseInfo::loss(LossCause::TightStopLoss, String::new()), "SOL").is_none());
    assert!(plan_lesson_rule(Outcome::Breakeven, &CauseInfo::win(WinCause::StrongTrend, String::new()), "SOL").is_none());
}

#[test]
fn existing_rules_are_not_added_twice() {
    let cause = CauseInfo::loss(LossCause::WrongSession, String::new());
    let existing = vec!["lesson_BTC_bad_session".to_string()];
    assert!(new_lesson_rule(Outcome::Loss, &cause, "BTC", &existing).is_none());
    let p = new_lesson_rule(Outcome::Loss, &cause, "ETH", &existing).unwrap();
    assert_eq!(p.name, "lesson_ETH_bad_session");
    assert_eq!(p.priority, 4);
}

#[test]
fn frequent_losers_are_blacklisted_once() {
    let losses: Vec<String> = ["BTC", "ETH", "BTC", "SOL", "BTC", "ETH", "ETH", "BTC"].iter().map(|s| s.to_string()).collect();
    assert_eq!(frequent_loss_coins(&losses), vec!["BTC".to_string(), "ETH".to_string()]);
    let p = new_pattern_rule("BTC", &vec![], 0).unwrap();
    assert_eq!(p.name, "pattern_BTC_frequent_loss");
    assert_eq!((p.rule_type, p.priority, p.action), (RuleType::CoinFilter, 9, RuleAction::Blacklist));
    assert!(new_pattern_rule("BTC", &vec!["pattern_BTC_frequent_loss".to_string()], 0).is_none());
    assert!(new_pattern_rule("BTC", &vec![], 50).is_none());
    assert!(new_pattern_rule("BTC", &vec![], 49).is_some());
}

#[test]
fn coin_filters() {
    let coins = vec!["DOGE".to_string()];
    assert_eq!(coin_rule_verdict(None, &coins, "DOGE"), CoinVerdict::Skip("coin DOGE is blacklisted".to_string()));
    assert_eq!(coin_rule_verdict(Some("blacklist"), &coins, "BTC"), CoinVerdict::Pass);
    assert_eq!(coin_rule_verdict(Some("whitelist"), &coins, "BTC"), CoinVerdict::Skip("coin BTC not in whitelist".to_string()));
    assert_eq!(coin_rule_verdict(Some("whitelist"), &vec![], "BTC"), CoinVerdict::Pass);
    assert_eq!(coin_rule_verdict(Some("other"), &coins, "DOGE"), CoinVerdict::Pass);
    assert!(lesson_rule_targets(Some("BTC"), None, "BTC", "sodex"));
    assert!(!lesson_rule_targets(Some("BTC"), None, "ETH", "sodex"));
    assert!(!lesson_rule_targets(None, Some("hyperliquid"), "ETH", "sodex"));
    assert!(lesson_rule_targets(None, None, "ETH", "sodex"));
}
