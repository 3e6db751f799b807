//! Strategy rules the lesson engine derives from closed trades.
//!
//! A rule is planned here: its name, type, priority, the coin it is about
//! and what it changes. Multipliers are whole percentages (130 for 1.3).

use vstd::prelude::*;
use crate::lesson::{Outcome, CauseInfo, LossCause, WinCause};
use crate::text::{str_eq, text};

verus! {

/// Kind of strategy rule.
#[derive(Debug, Clone, Copy, PartialEq, Eq, Structural)]
pub enum RuleType {
    VolatilitySlTp,
    PositionSizing,
    ConfidenceFilter,
    CoinFilter,
    LeverageScale,
    SessionFilter,
    LessonRule,
}

/// What a rule does when it applies.
#[derive(Debug, Clone, Copy, PartialEq, Eq, Structural)]
pub enum RuleAction {
    /// scale position size, stop-loss and take-profit distance (percent)
    Adjust { size_pct: Option<u32>, sl_pct: Option<u32>, tp_pct: Option<u32> },
    /// never trade the coin
    Blacklist,
}

/// A rule to be saved, with source "lesson", active and never hit.
#[derive(Debug, Clone)]
pub struct RulePlan {
    pub name: String,
    pub rule_type: RuleType,
    pub priority: i32,
    /// The coin the rule is about.
    pub coin: String,
    pub action: RuleAction,
}

/// The parts of a lesson rule: name suffix, priority and action.
pub open spec fn lesson_rule_shape(outcome: Outcome, cause: CauseInfo) -> Option<(Seq<char>, i32, RuleAction)> {
    match outcome {
        Outcome::Loss => match cause.loss_cause {
            Some(LossCause::TightStopLoss) => Some(
                ("_widen_sl"@, 7i32, RuleAction::Adjust { size_pct: None, sl_pct: Some(130u32), tp_pct: None }),
            ),
            Some(LossCause::BadSignalQuality) => Some(
                ("_low_confidence"@, 6i32, RuleAction::Adjust { size_pct: Some(30u32), sl_pct: None, tp_pct: None }),
            ),
            Some(LossCause::HighVolatility) => Some(
                ("_reduce_vol"@, 8i32, RuleAction::Adjust { size_pct: Some(50u32), sl_pct: Some(80u32), tp_pct: None }),
            ),
            Some(LossCause::WrongSession) => Some(
                ("_bad_session"@, 4i32, RuleAction::Adjust { size_pct: Some(50u32), sl_pct: None, tp_pct: None }),
            ),
            _ => None,
        },
        Outcome::Win => match cause.win_cause {
            Some(WinCause::GoodSignalQuality) => Some(
                ("_good_source"@, 6i32, RuleAction::Adjust { size_pct: Some(130u32), sl_pct: None, tp_pct: None }),
            ),
            Some(WinCause::StrongTrend) => Some(
                ("_trend_win"@, 5i32, RuleAction::Adjust { size_pct: None, sl_pct: None, tp_pct: Some(150u32) }),
            ),
            _ => None,
        },
        Outcome::Breakeven => None,
    }
}

/// The rule a lesson plans: losses caused by a tight stop, a poor signal,
/// high volatility or a quiet session, and wins from a good signal or a
/// strong trend, each give one rule for the coin named
/// "lesson_{coin}{suffix}"; other lessons give none.
pub open spec fn lesson_rule_matches(plan: Option<RulePlan>, outcome: Outcome, cause: CauseInfo, coin: Seq<char>) -> bool {
    match lesson_rule_shape(outcome, cause) {
        None => plan is None,
        Some((suffix, priority, action)) => match plan {
            None => false,
            Some(p) => {
                &&& p.name@ == "lesson_"@ + coin + suffix
                &&& p.rule_type == RuleType::LessonRule
                &&& p.priority == priority
                &&& p.coin@ == coin
                &&& p.action == action
            },
        },
    }
}

fn named_rule(coin: &str, suffix: &str, rule_type: RuleType, priority: i32, action: RuleAction, prefix: &str) -> (p: RulePlan)
    ensures
        p.name@ == prefix@ + coin@ + suffix@,
        p.rule_type == rule_type,
        p.priority == priority,
        p.coin@ == coin@,
        p.action == action,
{
    let mut name = String::new();
    name.append(prefix);
    name.append(coin);
    name.append(suffix);
    let mut c = String::new();
    c.append(coin);
    assert(c@ =~= coin@);
    assert(name@ =~= prefix@ + coin@ + suffix@);
    RulePlan { name, rule_type, priority, coin: c, action }
}

/// Plan the rule a lesson calls for, if any.
pub fn plan_lesson_rule(outcome: Outcome, cause: &CauseInfo, coin: &str) -> (r: Option<RulePlan>)
    ensures
        lesson_rule_matches(r, outcome, *cause, coin@),
{
    match outcome {
        Outcome::Loss => match cause.loss_cause {
            Some(LossCause::TightStopLoss) => Some(
                named_rule(coin, "_widen_sl", RuleType::LessonRule, 7,
                    RuleAction::Adjust { size_pct: None, sl_pct: Some(130), tp_pct: None }, "lesson_"),
            ),
            Some(LossCause::BadSignalQuality) => Some(
                named_rule(coin, "_low_confidence", RuleType::LessonRule, 6,
                    RuleAction::Adjust { size_pct: Some(30), sl_pct: None, tp_pct: None }, "lesson_"),
            ),
            Some(LossCause::HighVolatility) => Some(
                named_rule(coin, "_reduce_vol", RuleType::LessonRule, 8,
                    RuleAction::Adjust { size_pct: Some(50), sl_pct: Some(80), tp_pct: None }, "lesson_"),
            ),
            Some(LossCause::WrongSession) => Some(
                named_rule(coin, "_bad_session", RuleType::LessonRule, 4,
                    RuleAction::Adjust { size_pct: Some(50), sl_pct: None, tp_pct: None }, "lesson_"),
            ),
            _ => None,
        },
        Outcome::Win => match cause.win_cause {
            Some(WinCause::GoodSignalQuality) => Some(
                named_rule(coin, "_good_source", RuleType::LessonRule, 6,
                    RuleAction::Adjust { size_pct: Some(130), sl_pct: None, tp_pct: None }, "lesson_"),
            ),
            Some(WinCause::StrongTrend) => Some(
                named_rule(coin, "_trend_win", RuleType::LessonRule, 5,
                    RuleAction::Adjust { size_pct: None, sl_pct: None, tp_pct: Some(150) }, "lesson_"),
            ),
            _ => None,
        },
        Outcome::Breakeven => None,
    }
}

/// What a loss teaches never makes later positions bigger: a rule planned
/// from a loss scales size by less than 100% when it scales it at all, never
/// widens the take-profit, and widens the stop only when the stop was what
/// cut the trade short; after a loss on a poor signal, size goes to 30%.
pub proof fn lemma_loss_rules_never_enlarge(plan: Option<RulePlan>, cause: CauseInfo, coin: Seq<char>)
    requires
        lesson_rule_matches(plan, Outcome::Loss, cause, coin),
    ensures
        plan matches Some(p) ==> (p.action matches RuleAction::Adjust { size_pct, sl_pct, tp_pct } && (
        size_pct matches Some(k) ==> k < 100) && tp_pct is None && (sl_pct matches Some(k) ==> (k <= 100
            || cause.loss_cause == Some(LossCause::TightStopLoss)))),
        cause.loss_cause == Some(LossCause::BadSignalQuality) ==> (plan matches Some(p) && p.action
            == RuleAction::Adjust { size_pct: Some(30), sl_pct: None, tp_pct: None } && p.priority == 6),
{
}

/// The names of a list of rules.
pub open spec fn names_of(rules: Seq<String>) -> Seq<Seq<char>> {
    rules.map_values(|s: String| s@)
}

/// Whether some existing rule already has this name.
pub fn name_taken(existing: &Vec<String>, name: &str) -> (r: bool)
    ensures
        r == names_of(existing@).contains(name@),
{
    let mut i: usize = 0;
    while i < existing.len()
        invariant
            i <= existing@.len(),
            forall|j: int| 0 <= j < i ==> existing@[j]@ != name@,
        decreases existing.len() - i,
    {
        if str_eq(existing[i].as_str(), name) {
            assert(names_of(existing@)[i as int] == name@);
            return true;
        }
        i = i + 1;
    }
    proof {
        if names_of(existing@).contains(name@) {
            let j = choose|j: int| 0 <= j < names_of(existing@).len() && names_of(existing@)[j] == name@;
            assert(existing@[j]@ == name@);
        }
    }
    false
}

/// How many times `c` occurs in `s`.
pub open spec fn count_of(s: Seq<Seq<char>>, c: Seq<char>) -> nat
    decreases s.len(),
{
    if s.len() == 0 {
        0
    } else {
        count_of(s.drop_last(), c) + if s.last() == c { 1nat } else { 0nat }
    }
}

proof fn lemma_count_of_take_step(s: Seq<Seq<char>>, c: Seq<char>, i: int)
    requires
        0 <= i < s.len(),
    ensures
        count_of(s.take(i + 1), c) == count_of(s.take(i), c) + if s[i] == c { 1nat } else { 0nat },
{
    assert(s.take(i + 1).drop_last() =~= s.take(i));
}

fn count_coin(coins: &Vec<String>, coin: &str) -> (n: usize)
    ensures
        n == count_of(names_of(coins@), coin@),
{
    let ghost all = names_of(coins@);
    let mut n: usize = 0;
    let mut i: usize = 0;
    assert(all.take(0) =~= Seq::<Seq<char>>::empty());
    while i < coins.len()
        invariant
            i <= coins@.len(),
            all == names_of(coins@),
            n == count_of(all.take(i as int), coin@),
            n <= i,
        decreases coins.len() - i,
    {
        proof { lemma_count_of_take_step(all, coin@, i as int); }
        if str_eq(coins[i].as_str(), coin) {
            n = n + 1;
        }
        i = i + 1;
    }
    assert(all.take(i as int) =~= all);
    n
}

/// Losses on a coin, among recent ones, that mark it as a frequent loser.
pub const FREQUENT_LOSS_COUNT: usize = 3;

/// The coins with at least three of the given recent losses, each once, in
/// the order in which they first appear.
pub fn frequent_loss_coins(loss_coins: &Vec<String>) -> (r: Vec<String>)
    ensures
        forall|j: int| 0 <= j < r@.len() ==> count_of(names_of(loss_coins@), #[trigger] r@[j]@) >= 3,
        forall|i: int|
            0 <= i < loss_coins@.len() && count_of(names_of(loss_coins@), #[trigger] loss_coins@[i]@) >= 3
                ==> names_of(r@).contains(loss_coins@[i]@),
        forall|j: int, k: int| 0 <= j < k < r@.len() ==> r@[j]@ != r@[k]@,
{
    let ghost all = names_of(loss_coins@);
    let mut out: Vec<String> = Vec::new();
    let mut i: usize = 0;
    while i < loss_coins.len()
        invariant
            i <= loss_coins@.len(),
            all == names_of(loss_coins@),
            forall|j: int| 0 <= j < out@.len() ==> count_of(all, #[trigger] out@[j]@) >= 3,
            forall|m: int|
                0 <= m < i && count_of(all, #[trigger] loss_coins@[m]@) >= 3 ==> names_of(out@).contains(
                    loss_coins@[m]@,
                ),
            forall|j: int, k: int| 0 <= j < k < out@.len() ==> out@[j]@ != out@[k]@,
        decreases loss_coins.len() - i,
    {
        let coin = loss_coins[i].as_str();
        let n = count_coin(loss_coins, coin);
        if n >= FREQUENT_LOSS_COUNT && !name_taken(&out, coin) {
            let mut c = String::new();
            c.append(coin);
            assert(c@ =~= coin@);
            let ghost before = out@;
            out.push(c);
            proof {
                assert forall|m: int|
                    0 <= m < i + 1 && count_of(all, #[trigger] loss_coins@[m]@) >= 3 implies names_of(
                        out@,
                    ).contains(loss_coins@[m]@) by {
                    if m < i {
                        let k = choose|k: int| 0 <= k < names_of(before).len() && names_of(before)[k] == loss_coins@[m]@;
                        assert(names_of(out@)[k] == loss_coins@[m]@);
                    } else {
                        assert(names_of(out@)[before.len() as int] == loss_coins@[m]@);
                    }
                }
                assert forall|j: int, k: int| 0 <= j < k < out@.len() implies out@[j]@ != out@[k]@ by {
                    if k == before.len() {
                        assert(names_of(before)[j] == before[j]@);
                    }
                }
            }
        }
        i = i + 1;
    }
    out
}

/// The blacklist rule planned for a coin with frequent losses:
/// "pattern_{coin}_frequent_loss", a coin filter of priority 9.
pub fn plan_pattern_rule(coin: &str) -> (p: RulePlan)
    ensures
        p.name@ == "pattern_"@ + coin@ + "_frequent_loss"@,
        p.rule_type == RuleType::CoinFilter,
        p.priority == 9,
        p.coin@ == coin@,
        p.action == RuleAction::Blacklist,
{
    named_rule(coin, "_frequent_loss", RuleType::CoinFilter, 9, RuleAction::Blacklist, "pattern_")
}

/// What a coin-filter rule does to a signal for `coin`.
#[derive(Debug, Clone, PartialEq, Eq)]
pub enum CoinVerdict {
    /// the rule does not apply
    Pass,
    /// the signal is skipped, for this reason
    Skip(String),
}

/// A blacklist (the default mode) skips the coins it lists; a whitelist
/// with coins skips every coin it does not list; other modes do nothing.
pub open spec fn coin_verdict_matches(v: CoinVerdict, mode: Option<Seq<char>>, coins: Seq<Seq<char>>, coin: Seq<char>) -> bool {
    let m = match mode {
        Some(m) => m,
        None => "blacklist"@,
    };
    if m == "blacklist"@ && coins.contains(coin) {
        v matches CoinVerdict::Skip(r) && r@ == "coin "@ + coin + " is blacklisted"@
    } else if m == "whitelist"@ && coins.len() > 0 && !coins.contains(coin) {
        v matches CoinVerdict::Skip(r) && r@ == "coin "@ + coin + " not in whitelist"@
    } else {
        v == CoinVerdict::Pass
    }
}

/// Apply a coin-filter rule (its "mode", if given, and its "coins").
pub fn coin_rule_verdict(mode: Option<&str>, coins: &Vec<String>, coin: &str) -> (v: CoinVerdict)
    ensures
        coin_verdict_matches(v, match mode {
            Some(m) => Some(m@),
            None => None,
        }, names_of(coins@), coin@),
{
    proof {
        reveal_strlit("blacklist");
        reveal_strlit("whitelist");
        assert("blacklist"@[0] != "whitelist"@[0]);
    }
    let m = match mode {
        Some(m) => m,
        None => "blacklist",
    };
    if str_eq(m, "blacklist") {
        if name_taken(coins, coin) {
            let mut r = text("coin ");
            r.append(coin);
            r.append(" is blacklisted");
            return CoinVerdict::Skip(r);
        }
    } else if str_eq(m, "whitelist") {
        if coins.len() > 0 && !name_taken(coins, coin) {
            let mut r = text("coin ");
            r.append(coin);
            r.append(" not in whitelist");
            return CoinVerdict::Skip(r);
        }
    }
    CoinVerdict::Pass
}

/// Whether a lesson rule is about this signal: a rule that names a coin
/// applies to that coin only, and one that names a signal source to that
/// source only.
pub fn lesson_rule_targets(target_coin: Option<&str>, target_source: Option<&str>, coin: &str, source_label: &str) -> (b: bool)
    ensures
        b == ((match target_coin {
            Some(c) => c@ == coin@,
            None => true,
        }) && (match target_source {
            Some(s) => s@ == source_label@,
            None => true,
        })),
{
    if let Some(c) = target_coin {
        if !str_eq(c, coin) {
            return false;
        }
    }
    if let Some(s) = target_source {
        if !str_eq(s, source_label) {
            return false;
        }
    }
    true
}

/// Lesson rules kept at most; past this, no pattern rule is added.
pub const MAX_LESSON_RULES: i64 = 50;

/// The rule a lesson adds: the rule it plans, unless an active rule already
/// has its name.
pub fn new_lesson_rule(outcome: Outcome, cause: &CauseInfo, coin: &str, active_names: &Vec<String>) -> (r: Option<RulePlan>)
    ensures
        match r {
            Some(p) => lesson_rule_matches(Some(p), outcome, *cause, coin@) && !names_of(active_names@).contains(p.name@),
            None => forall|p: RulePlan| #[trigger] lesson_rule_matches(Some(p), outcome, *cause, coin@)
                ==> names_of(active_names@).contains(p.name@),
        },
{
    match plan_lesson_rule(outcome, cause, coin) {
        Some(p) => if name_taken(active_names, p.name.as_str()) {
            None
        } else {
            Some(p)
        },
        None => None,
    }
}

/// The blacklist rule added for a coin with frequent losses, unless an
/// active rule already has its name or the lesson rules are at their cap.
pub fn new_pattern_rule(coin: &str, active_names: &Vec<String>, lesson_rule_count: i64) -> (r: Option<RulePlan>)
    ensures
        ({
            let name = "pattern_"@ + coin@ + "_frequent_loss"@;
            if names_of(active_names@).contains(name) || lesson_rule_count >= MAX_LESSON_RULES {
                r is None
            } else {
                r matches Some(p) && p.name@ == name && p.rule_type == RuleType::CoinFilter && p.priority == 9
                    && p.coin@ == coin@ && p.action == RuleAction::Blacklist
            }
        }),
{
    let p = plan_pattern_rule(coin);
    if name_taken(active_names, p.name.as_str()) || lesson_rule_count >= MAX_LESSON_RULES {
        None
    } else {
        Some(p)
    }
}

} // verus!
