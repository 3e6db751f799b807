//! Lessons learned from closed trades: outcome, type and cause labels.

use vstd::prelude::*;
use crate::text::{str_eq, text, push_decimal, decimal};

verus! {

/// Trade outcome
#[derive(Debug, Clone, Copy, PartialEq, Eq, Structural)]
pub enum Outcome {
    Win,
    Loss,
    Breakeven,
}

impl Outcome {
    /// The label under which an outcome is stored.
    pub open spec fn label(self) -> Seq<char> {
        match self {
            Outcome::Win => "win"@,
            Outcome::Loss => "loss"@,
            Outcome::Breakeven => "breakeven"@,
        }
    }

    /// The outcome read back from a stored label: anything that is not
    /// "win" or "loss" reads as breakeven.
    pub open spec fn from_label_spec(label: Seq<char>) -> Outcome {
        if label == "win"@ {
            Outcome::Win
        } else if label == "loss"@ {
            Outcome::Loss
        } else {
            Outcome::Breakeven
        }
    }

    pub fn as_str(&self) -> (s: &'static str)
        ensures
            s@ == self.label(),
    {
        match self {
            Outcome::Win => "win",
            Outcome::Loss => "loss",
            Outcome::Breakeven => "breakeven",
        }
    }

    /// Decode a stored outcome label.
    pub fn from_label(label: &str) -> (o: Outcome)
        ensures
            o == Outcome::from_label_spec(label@),
    {
        if str_eq(label, "win") {
            Outcome::Win
        } else if str_eq(label, "loss") {
            Outcome::Loss
        } else {
            Outcome::Breakeven
        }
    }
}

/// Storing an outcome under its label and reading the label back gives
/// the same outcome.
pub proof fn lemma_outcome_label_roundtrip(o: Outcome)
    ensures
        Outcome::from_label_spec(o.label()) == o,
{
    reveal_strlit("win");
    reveal_strlit("loss");
    reveal_strlit("breakeven");
    assert("loss"@.len() != "win"@.len());
    assert("breakeven"@.len() != "win"@.len());
    assert("breakeven"@.len() != "loss"@.len());
}

/// Lesson type
#[derive(Debug, Clone, Copy, PartialEq, Eq, Structural)]
pub enum LessonType {
    /// Positive pattern to repeat
    Pattern,
    /// Negative pattern to avoid
    AntiPattern,
    /// General observation
    Observation,
}

impl LessonType {
    /// The label under which a lesson type is stored.
    pub open spec fn label(self) -> Seq<char> {
        match self {
            LessonType::Pattern => "pattern"@,
            LessonType::AntiPattern => "anti_pattern"@,
            LessonType::Observation => "observation"@,
        }
    }

    /// The lesson type read back from a stored label: anything that is not
    /// "pattern" or "anti_pattern" reads as an observation.
    pub open spec fn from_label_spec(label: Seq<char>) -> LessonType {
        if label == "pattern"@ {
            LessonType::Pattern
        } else if label == "anti_pattern"@ {
            LessonType::AntiPattern
        } else {
            LessonType::Observation
        }
    }

    /// The lesson type a trade outcome teaches.
    pub open spec fn for_outcome_spec(outcome: Outcome) -> LessonType {
        match outcome {
            Outcome::Win => LessonType::Pattern,
            Outcome::Loss => LessonType::AntiPattern,
            Outcome::Breakeven => LessonType::Observation,
        }
    }

    pub fn as_str(&self) -> (s: &'static str)
        ensures
            s@ == self.label(),
    {
        match self {
            LessonType::Pattern => "pattern",
            LessonType::AntiPattern => "anti_pattern",
            LessonType::Observation => "observation",
        }
    }

    /// Decode a stored lesson-type label.
    pub fn from_label(label: &str) -> (t: LessonType)
        ensures
            t == LessonType::from_label_spec(label@),
    {
        if str_eq(label, "pattern") {
            LessonType::Pattern
        } else if str_eq(label, "anti_pattern") {
            LessonType::AntiPattern
        } else {
            LessonType::Observation
        }
    }

    /// A win teaches a pattern, a loss an anti-pattern, anything else an
    /// observation.
    pub fn for_outcome(outcome: Outcome) -> (t: LessonType)
        ensures
            t == LessonType::for_outcome_spec(outcome),
    {
        match outcome {
            Outcome::Win => LessonType::Pattern,
            Outcome::Loss => LessonType::AntiPattern,
            Outcome::Breakeven => LessonType::Observation,
        }
    }
}

/// Storing a lesson type under its label and reading the label back gives
/// the same lesson type.
pub proof fn lemma_lesson_type_label_roundtrip(t: LessonType)
    ensures
        LessonType::from_label_spec(t.label()) == t,
{
    reveal_strlit("pattern");
    reveal_strlit("anti_pattern");
    reveal_strlit("observation");
    assert("anti_pattern"@.len() != "pattern"@.len());
    assert("observation"@.len() != "pattern"@.len());
    assert("observation"@.len() != "anti_pattern"@.len());
}

/// Cause of a trade loss
#[derive(Debug, Clone, Copy, PartialEq, Eq, Structural)]
pub enum LossCause {
    /// Entry too far from support/resistance
    BadEntryTiming,
    /// Stop loss too tight, hit by a wick
    TightStopLoss,
    /// Stop loss too wide, large loss
    WideStopLoss,
    /// Poor signal source
    BadSignalQuality,
    /// Market turned against the position
    MarketReversal,
    /// High volatility hit the stop
    HighVolatility,
    /// Wide spread
    LowLiquidity,
    /// Traded in a quiet session
    WrongSession,
    /// Leverage too high
    OverLeverage,
    /// Major news
    NewsEvent,
    /// Could not be determined
    Unknown,
}

impl LossCause {
    /// The label under which a loss cause is stored.
    pub open spec fn label(self) -> Seq<char> {
        match self {
            LossCause::BadEntryTiming => "bad_entry_timing"@,
            LossCause::TightStopLoss => "tight_stop_loss"@,
            LossCause::WideStopLoss => "wide_stop_loss"@,
            LossCause::BadSignalQuality => "bad_signal_quality"@,
            LossCause::MarketReversal => "market_reversal"@,
            LossCause::HighVolatility => "high_volatility"@,
            LossCause::LowLiquidity => "low_liquidity"@,
            LossCause::WrongSession => "wrong_session"@,
            LossCause::OverLeverage => "over_leverage"@,
            LossCause::NewsEvent => "news_event"@,
            LossCause::Unknown => "unknown"@,
        }
    }

    /// The sentence that explains a loss cause in logs.
    pub open spec fn description_spec(self) -> Seq<char> {
        match self {
            LossCause::BadEntryTiming => "Entry price too far from support/resistance"@,
            LossCause::TightStopLoss => "Stop loss triggered by normal price wick"@,
            LossCause::WideStopLoss => "Stop loss too wide, large loss on reversal"@,
            LossCause::BadSignalQuality => "Signal from unreliable source"@,
            LossCause::MarketReversal => "Market reversed direction after entry"@,
            LossCause::HighVolatility => "High volatility triggered stop loss"@,
            LossCause::LowLiquidity => "Low liquidity caused bad fill/slippage"@,
            LossCause::WrongSession => "Traded during low-activity session"@,
            LossCause::OverLeverage => "Leverage too high for market conditions"@,
            LossCause::NewsEvent => "Unexpected news caused adverse move"@,
            LossCause::Unknown => "Cause could not be determined"@,
        }
    }

    pub fn as_str(&self) -> (s: &'static str)
        ensures
            s@ == self.label(),
    {
        match self {
            LossCause::BadEntryTiming => "bad_entry_timing",
            LossCause::TightStopLoss => "tight_stop_loss",
            LossCause::WideStopLoss => "wide_stop_loss",
            LossCause::BadSignalQuality => "bad_signal_quality",
            LossCause::MarketReversal => "market_reversal",
            LossCause::HighVolatility => "high_volatility",
            LossCause::LowLiquidity => "low_liquidity",
            LossCause::WrongSession => "wrong_session",
            LossCause::OverLeverage => "over_leverage",
            LossCause::NewsEvent => "news_event",
            LossCause::Unknown => "unknown",
        }
    }

    /// Description for logging
    pub fn description(&self) -> (s: &'static str)
        ensures
            s@ == self.description_spec(),
            s@.len() > 0,
    {
        proof {
            reveal_strlit("Entry price too far from support/resistance");
            reveal_strlit("Stop loss triggered by normal price wick");
            reveal_strlit("Stop loss too wide, large loss on reversal");
            reveal_strlit("Signal from unreliable source");
            reveal_strlit("Market reversed direction after entry");
            reveal_strlit("High volatility triggered stop loss");
            reveal_strlit("Low liquidity caused bad fill/slippage");
            reveal_strlit("Traded during low-activity session");
            reveal_strlit("Leverage too high for market conditions");
            reveal_strlit("Unexpected news caused adverse move");
            reveal_strlit("Cause could not be determined");
        }
        match self {
            LossCause::BadEntryTiming => "Entry price too far from support/resistance",
            LossCause::TightStopLoss => "Stop loss triggered by normal price wick",
            LossCause::WideStopLoss => "Stop loss too wide, large loss on reversal",
            LossCause::BadSignalQuality => "Signal from unreliable source",
            LossCause::MarketReversal => "Market reversed direction after entry",
            LossCause::HighVolatility => "High volatility triggered stop loss",
            LossCause::LowLiquidity => "Low liquidity caused bad fill/slippage",
            LossCause::WrongSession => "Traded during low-activity session",
            LossCause::OverLeverage => "Leverage too high for market conditions",
            LossCause::NewsEvent => "Unexpected news caused adverse move",
            LossCause::Unknown => "Cause could not be determined",
        }
    }
}

/// Cause of a trade win
#[derive(Debug, Clone, Copy, PartialEq, Eq, Structural)]
pub enum WinCause {
    /// Entry at a good support/resistance
    GoodEntryTiming,
    /// Strong trend, easy profit
    StrongTrend,
    /// Good signal source
    GoodSignalQuality,
    /// Right position size
    ProperSizing,
    /// Good stop-loss / take-profit ratio
    GoodRiskReward,
    /// Traded in an active session
    RightSession,
    /// Could not be determined
    Unknown,
}

impl WinCause {
    /// The label under which a win cause is stored.
    pub open spec fn label(self) -> Seq<char> {
        match self {
            WinCause::GoodEntryTiming => "good_entry_timing"@,
            WinCause::StrongTrend => "strong_trend"@,
            WinCause::GoodSignalQuality => "good_signal_quality"@,
            WinCause::ProperSizing => "proper_sizing"@,
            WinCause::GoodRiskReward => "good_risk_reward"@,
            WinCause::RightSession => "right_session"@,
            WinCause::Unknown => "unknown"@,
        }
    }

    pub fn as_str(&self) -> (s: &'static str)
        ensures
            s@ == self.label(),
    {
        match self {
            WinCause::GoodEntryTiming => "good_entry_timing",
            WinCause::StrongTrend => "strong_trend",
            WinCause::GoodSignalQuality => "good_signal_quality",
            WinCause::ProperSizing => "proper_sizing",
            WinCause::GoodRiskReward => "good_risk_reward",
            WinCause::RightSession => "right_session",
            WinCause::Unknown => "unknown",
        }
    }
}

/// Cause information
#[derive(Debug, Clone)]
pub struct CauseInfo {
    pub loss_cause: Option<LossCause>,
    pub win_cause: Option<WinCause>,
    pub details: String,
}

impl CauseInfo {
    pub fn loss(cause: LossCause, details: String) -> (c: CauseInfo)
        ensures
            c.loss_cause == Some(cause),
            c.win_cause is None,
            c.details == details,
    {
        CauseInfo { loss_cause: Some(cause), win_cause: None, details }
    }

    pub fn win(cause: WinCause, details: String) -> (c: CauseInfo)
        ensures
            c.loss_cause is None,
            c.win_cause == Some(cause),
            c.details == details,
    {
        CauseInfo { loss_cause: None, win_cause: Some(cause), details }
    }
}

/// What a closed trade looked like, as the cause analysis reads it: each
/// price comparison already made against its threshold.
#[derive(Debug, Clone, Copy, PartialEq, Eq, Structural)]
pub struct TradeFacts {
    /// the price moved less than the tight-stop threshold
    pub moved_little: bool,
    /// the price moved more than the reversal threshold
    pub moved_far: bool,
    /// the price moved more than the strong-trend threshold
    pub trended: bool,
    /// the signal's score, out of 100
    pub signal_score: u32,
    /// the trade was made in an active session
    pub in_session: bool,
    /// volatility (ATR) was above the high-volatility threshold
    pub volatile: bool,
}

/// Score below which a losing signal is judged poor.
pub const POOR_SIGNAL_SCORE: u32 = 70;
/// Score from which a winning signal is judged good.
pub const GOOD_SIGNAL_SCORE: u32 = 90;

/// The cause the analysis gives a loss, the first that applies: a small
/// move means the stop was too tight, a large one a reversal, then a poor
/// signal, a quiet session, high volatility; otherwise unknown.
pub open spec fn loss_cause_of(f: TradeFacts) -> LossCause {
    if f.moved_little {
        LossCause::TightStopLoss
    } else if f.moved_far {
        LossCause::MarketReversal
    } else if f.signal_score < POOR_SIGNAL_SCORE {
        LossCause::BadSignalQuality
    } else if !f.in_session {
        LossCause::WrongSession
    } else if f.volatile {
        LossCause::HighVolatility
    } else {
        LossCause::Unknown
    }
}

/// The cause the analysis gives a win, the first that applies: a good
/// signal, a strong trend, an active session; otherwise unknown.
pub open spec fn win_cause_of(f: TradeFacts) -> WinCause {
    if f.signal_score >= GOOD_SIGNAL_SCORE {
        WinCause::GoodSignalQuality
    } else if f.trended {
        WinCause::StrongTrend
    } else if f.in_session {
        WinCause::RightSession
    } else {
        WinCause::Unknown
    }
}

/// Judge the cause of a losing trade.
pub fn classify_loss(f: TradeFacts) -> (c: LossCause)
    ensures
        c == loss_cause_of(f),
{
    if f.moved_little {
        LossCause::TightStopLoss
    } else if f.moved_far {
        LossCause::MarketReversal
    } else if f.signal_score < POOR_SIGNAL_SCORE {
        LossCause::BadSignalQuality
    } else if !f.in_session {
        LossCause::WrongSession
    } else if f.volatile {
        LossCause::HighVolatility
    } else {
        LossCause::Unknown
    }
}

/// Judge the cause of a winning trade.
pub fn classify_win(f: TradeFacts) -> (c: WinCause)
    ensures
        c == win_cause_of(f),
{
    if f.signal_score >= GOOD_SIGNAL_SCORE {
        WinCause::GoodSignalQuality
    } else if f.trended {
        WinCause::StrongTrend
    } else if f.in_session {
        WinCause::RightSession
    } else {
        WinCause::Unknown
    }
}

/// What a closed trade teaches: its cause and the type of lesson.
#[derive(Debug, Clone, Copy, PartialEq, Eq, Structural)]
pub struct LessonPlan {
    pub loss_cause: Option<LossCause>,
    pub win_cause: Option<WinCause>,
    pub lesson_type: LessonType,
}

/// A trade teaches nothing when it broke even or its entry price is not
/// positive; a loss teaches an anti-pattern with its loss cause, a win a
/// pattern with its win cause.
pub open spec fn lesson_plan_spec(outcome: Outcome, entry_positive: bool, f: TradeFacts) -> Option<LessonPlan> {
    match outcome {
        Outcome::Breakeven => None,
        Outcome::Loss => if entry_positive {
            Some(LessonPlan { loss_cause: Some(loss_cause_of(f)), win_cause: None, lesson_type: LessonType::AntiPattern })
        } else {
            None
        },
        Outcome::Win => if entry_positive {
            Some(LessonPlan { loss_cause: None, win_cause: Some(win_cause_of(f)), lesson_type: LessonType::Pattern })
        } else {
            None
        },
    }
}

/// Decide what a closed trade teaches.
pub fn lesson_plan(outcome: Outcome, entry_positive: bool, f: TradeFacts) -> (p: Option<LessonPlan>)
    ensures
        p == lesson_plan_spec(outcome, entry_positive, f),
        p matches Some(l) ==> l.lesson_type == LessonType::for_outcome_spec(outcome),
{
    match outcome {
        Outcome::Breakeven => None,
        Outcome::Loss => if entry_positive {
            Some(LessonPlan { loss_cause: Some(classify_loss(f)), win_cause: None, lesson_type: LessonType::AntiPattern })
        } else {
            None
        },
        Outcome::Win => if entry_positive {
            Some(LessonPlan { loss_cause: None, win_cause: Some(classify_win(f)), lesson_type: LessonType::Pattern })
        } else {
            None
        },
    }
}

/// "true" or "false".
pub open spec fn bool_text(b: bool) -> Seq<char> {
    if b { "true"@ } else { "false"@ }
}

/// The details a lesson records of its cause: for a loss, the cause's
/// description, then the price change (already written with two decimals),
/// the signal score and whether the trade was in session; for a win the
/// same after "win".
pub open spec fn cause_details(loss_cause: Option<LossCause>, price_change: Seq<char>, score: u32, in_session: bool) -> Seq<char> {
    let head = match loss_cause {
        Some(c) => c.description_spec(),
        None => "win"@,
    };
    head + ": price_change="@ + price_change + "%, score="@ + decimal(score as nat) + ", session="@ + bool_text(in_session)
}

/// The cause a lesson plan records: its loss or win cause, with details.
pub fn describe_cause(plan: &LessonPlan, price_change: &str, score: u32, in_session: bool) -> (c: CauseInfo)
    ensures
        c.loss_cause == plan.loss_cause,
        c.win_cause == if plan.loss_cause is Some { None } else { plan.win_cause },
        c.details@ == cause_details(plan.loss_cause, price_change@, score, in_session),
{
    let mut details = match plan.loss_cause {
        Some(cause) => text(cause.description()),
        None => text("win"),
    };
    details.append(": price_change=");
    details.append(price_change);
    details.append("%, score=");
    push_decimal(&mut details, score as u64);
    details.append(", session=");
    details.append(if in_session { "true" } else { "false" });
    match plan.loss_cause {
        Some(cause) => CauseInfo::loss(cause, details),
        None => CauseInfo { loss_cause: None, win_cause: plan.win_cause, details },
    }
}

} // verus!
