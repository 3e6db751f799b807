//! Trading signals: where they come from, what they ask for, and how a
//! signal provider's items are read. Prices and the confidence are carried
//! as the bit patterns of their `f64` values.

use vstd::prelude::*;
use crate::order::Side;
use crate::text::str_eq;

verus! {

/// Signal source
#[derive(Debug, Clone, PartialEq, Eq)]
pub enum SignalSource {
    Sodex,
    Hyperliquid,
    SignalFlow,
    Custom(String),
}

/// Signal action
#[derive(Debug, Clone, Copy, PartialEq, Eq, Structural)]
pub enum SignalAction {
    OpenLong,
    OpenShort,
    CloseLong,
    CloseShort,
}

/// Trading signal - domain model
#[derive(Debug, Clone)]
pub struct Signal {
    pub source: SignalSource,
    pub coin: String,
    pub action: SignalAction,
    /// 0.0 - 1.0, as `f64` bits
    pub confidence: u64,
    pub entry_price: Option<u64>,
    pub stop_loss: Option<u64>,
    pub take_profit: Option<u64>,
    pub timestamp: u64,
}

/// The order side that carries out an action: opening a long and closing
/// a short buy; opening a short and closing a long sell.
pub open spec fn side_of(action: SignalAction) -> Side {
    match action {
        SignalAction::OpenLong => Side::Buy,
        SignalAction::OpenShort => Side::Sell,
        SignalAction::CloseLong => Side::Sell,
        SignalAction::CloseShort => Side::Buy,
    }
}

/// Whether an action opens a position.
pub open spec fn opens(action: SignalAction) -> bool {
    action == SignalAction::OpenLong || action == SignalAction::OpenShort
}

impl Signal {
    /// Convert signal action to order side
    pub fn to_side(&self) -> (s: Side)
        ensures
            s == side_of(self.action),
    {
        match self.action {
            SignalAction::OpenLong => Side::Buy,
            SignalAction::OpenShort => Side::Sell,
            SignalAction::CloseLong => Side::Sell,
            SignalAction::CloseShort => Side::Buy,
        }
    }

    /// Is this an open position signal?
    pub fn is_open(&self) -> (b: bool)
        ensures
            b == opens(self.action),
    {
        match self.action {
            SignalAction::OpenLong | SignalAction::OpenShort => true,
            _ => false,
        }
    }

    /// Is this a close position signal?
    pub fn is_close(&self) -> (b: bool)
        ensures
            b == !opens(self.action),
    {
        match self.action {
            SignalAction::CloseLong | SignalAction::CloseShort => true,
            _ => false,
        }
    }
}

/// Every signal either opens or closes a position, and closing a position
/// takes the side opposite to the one that opened it.
pub proof fn lemma_close_reverses_open()
    ensures
        side_of(SignalAction::CloseLong) != side_of(SignalAction::OpenLong),
        side_of(SignalAction::CloseShort) != side_of(SignalAction::OpenShort),
        side_of(SignalAction::OpenLong) != side_of(SignalAction::OpenShort),
        forall|a: SignalAction| opens(a) != (a == SignalAction::CloseLong || a == SignalAction::CloseShort),
{
}

/// Position side
#[derive(Debug, Clone, Copy, PartialEq, Eq, Structural)]
pub enum PositionSide {
    Long,
    Short,
}

/// The side of the position a fill on this order side opens.
pub open spec fn position_side_of(side: Side) -> PositionSide {
    match side {
        Side::Buy => PositionSide::Long,
        Side::Sell => PositionSide::Short,
    }
}

impl PositionSide {
    /// The side of the position a fill on this order side opens.
    pub fn for_fill(side: Side) -> (p: PositionSide)
        ensures
            p == position_side_of(side),
    {
        match side {
            Side::Buy => PositionSide::Long,
            Side::Sell => PositionSide::Short,
        }
    }

    /// A fill on this order side adds to a position on this side (rather
    /// than reducing or closing it).
    pub fn is_added_to_by(&self, side: Side) -> (b: bool)
        ensures
            b == (*self == position_side_of(side)),
    {
        match (self, side) {
            (PositionSide::Long, Side::Buy) => true,
            (PositionSide::Short, Side::Sell) => true,
            _ => false,
        }
    }
}

/// An item of a signal provider's reply, as plain values.
#[derive(Debug, Clone)]
pub struct SignalItem {
    /// "coin", when it is a string
    pub coin: Option<String>,
    /// "action", when it is a string
    pub action: Option<String>,
    /// "confidence", when it is a number (`f64` bits)
    pub confidence: Option<u64>,
    /// "target_price": whether present, and its value when a number
    pub target_price: Option<Option<u64>>,
    /// "entry_price": whether present, and its value when a number
    pub entry_price: Option<Option<u64>>,
    /// "stop_loss", when it is a number
    pub stop_loss: Option<u64>,
    /// "take_profit", when it is a number
    pub take_profit: Option<u64>,
    /// "timestamp", when it is an unsigned integer
    pub timestamp: Option<u64>,
}

/// The bits of the `f64` 0.5, the confidence of a signal that gives none.
pub const DEFAULT_CONFIDENCE_BITS: u64 = 0x3FE0_0000_0000_0000;

/// Lowercase form of a text, as `str::to_lowercase` gives it.
pub uninterp spec fn lowercase_of(s: Seq<char>) -> Seq<char>;

/// Calls `str::to_lowercase`; the result is named `lowercase_of` of the
/// argument, which is not further described here.
#[verifier::external_body]
fn to_lower(s: &str) -> (r: String)
    ensures
        r@ == lowercase_of(s@),
{
    s.to_lowercase()
}

/// The action a provider's (lowercased) action word asks for.
pub open spec fn action_of_word(w: Seq<char>) -> Option<SignalAction> {
    if w == "open_long"@ || w == "buy"@ || w == "long"@ {
        Some(SignalAction::OpenLong)
    } else if w == "open_short"@ || w == "sell"@ || w == "short"@ {
        Some(SignalAction::OpenShort)
    } else if w == "close_long"@ || w == "close_buy"@ {
        Some(SignalAction::CloseLong)
    } else if w == "close_short"@ || w == "close_sell"@ {
        Some(SignalAction::CloseShort)
    } else {
        None
    }
}

fn action_word(w: &str) -> (a: Option<SignalAction>)
    ensures
        a == action_of_word(w@),
{
    if str_eq(w, "open_long") || str_eq(w, "buy") || str_eq(w, "long") {
        Some(SignalAction::OpenLong)
    } else if str_eq(w, "open_short") || str_eq(w, "sell") || str_eq(w, "short") {
        Some(SignalAction::OpenShort)
    } else if str_eq(w, "close_long") || str_eq(w, "close_buy") {
        Some(SignalAction::CloseLong)
    } else if str_eq(w, "close_short") || str_eq(w, "close_sell") {
        Some(SignalAction::CloseShort)
    } else {
        None
    }
}

/// A buying word: "open_long", "buy" or "long".
pub open spec fn is_buy_word(w: Seq<char>) -> bool {
    w == "open_long"@ || w == "buy"@ || w == "long"@
}

/// A selling word: "open_short", "sell" or "short".
pub open spec fn is_sell_word(w: Seq<char>) -> bool {
    w == "open_short"@ || w == "sell"@ || w == "short"@
}

/// The words that open a position say which way: exactly the buying words
/// open a long, and an order for it buys; exactly the selling words open a
/// short, and an order for it sells; no other word opens anything.
pub proof fn lemma_action_words_open_the_named_side(w: Seq<char>)
    ensures
        is_buy_word(w) <==> action_of_word(w) == Some(SignalAction::OpenLong),
        is_sell_word(w) <==> action_of_word(w) == Some(SignalAction::OpenShort),
        is_buy_word(w) ==> side_of(action_of_word(w)->0) == Side::Buy,
        is_sell_word(w) ==> side_of(action_of_word(w)->0) == Side::Sell,
        (action_of_word(w) matches Some(a) && opens(a)) ==> is_buy_word(w) || is_sell_word(w),
{
    reveal_strlit("open_long");
    reveal_strlit("buy");
    reveal_strlit("long");
    reveal_strlit("open_short");
    reveal_strlit("sell");
    reveal_strlit("short");
    reveal_strlit("close_long");
    reveal_strlit("close_buy");
    reveal_strlit("close_short");
    reveal_strlit("close_sell");
    assert("sell"@[0] != "long"@[0]);
    assert("sell"@ != "long"@);
    assert("open_long"@.len() == 9 && "buy"@.len() == 3 && "long"@.len() == 4);
    assert("open_short"@.len() == 10 && "sell"@.len() == 4 && "short"@.len() == 5);
}

/// The signal an item stands for: it needs a coin and an action word the
/// bot knows (in any case); the confidence defaults to 0.5, the entry price
/// is the target price when one is given (else the entry price), and the
/// time defaults to `now`.
pub open spec fn signal_matches(r: Option<Signal>, item: SignalItem, now: u64) -> bool {
    match (item.coin, item.action) {
        (Some(coin), Some(word)) => match action_of_word(lowercase_of(word@)) {
            Some(action) => r matches Some(s) && {
                &&& s.source == SignalSource::Sodex
                &&& s.coin@ == coin@
                &&& s.action == action
                &&& s.confidence == match item.confidence {
                    Some(c) => c,
                    None => DEFAULT_CONFIDENCE_BITS,
                }
                &&& s.entry_price == match item.target_price {
                    Some(t) => t,
                    None => match item.entry_price {
                        Some(e) => e,
                        None => None,
                    },
                }
                &&& s.stop_loss == item.stop_loss
                &&& s.take_profit == item.take_profit
                &&& s.timestamp == match item.timestamp {
                    Some(t) => t,
                    None => now,
                }
            },
            None => r is None,
        },
        _ => r is None,
    }
}

/// An item with a coin whose action word is a selling word (in whatever
/// case) is read as a signal that opens a short and is carried out by a
/// sell; one with a buying word, as a signal that opens a long and is
/// carried out by a buy.
pub proof fn lemma_read_signal_side(r: Option<Signal>, item: SignalItem, now: u64)
    requires
        signal_matches(r, item, now),
    ensures
        item.coin is Some ==> (item.action matches Some(w) && is_sell_word(lowercase_of(w@)) ==> (r matches Some(
            s,
        ) && s.action == SignalAction::OpenShort && side_of(s.action) == Side::Sell)),
        item.coin is Some ==> (item.action matches Some(w) && is_buy_word(lowercase_of(w@)) ==> (r matches Some(
            s,
        ) && s.action == SignalAction::OpenLong && side_of(s.action) == Side::Buy)),
{
    if let Some(w) = item.action {
        lemma_action_words_open_the_named_side(lowercase_of(w@));
    }
}

/// Read one item of a signal provider's reply.
pub fn parse_signal_item(item: &SignalItem, now: u64) -> (r: Option<Signal>)
    ensures
        signal_matches(r, *item, now),
{
    let coin = match &item.coin {
        Some(c) => c.clone(),
        None => return None,
    };
    let word = match &item.action {
        Some(w) => to_lower(w.as_str()),
        None => return None,
    };
    let action = match action_word(word.as_str()) {
        Some(a) => a,
        None => return None,
    };
    let confidence = match item.confidence {
        Some(c) => c,
        None => DEFAULT_CONFIDENCE_BITS,
    };
    let entry_price = match item.target_price {
        Some(t) => t,
        None => match item.entry_price {
            Some(e) => e,
            None => None,
        },
    };
    let timestamp = match item.timestamp {
        Some(t) => t,
        None => now,
    };
    Some(Signal {
        source: SignalSource::Sodex,
        coin,
        action,
        confidence,
        entry_price,
        stop_loss: item.stop_loss,
        take_profit: item.take_profit,
        timestamp,
    })
}

/// `signals` are read from the items at the increasing positions `picked`,
/// and every other item stands for no signal.
pub open spec fn read_from(signals: Seq<Signal>, items: Seq<SignalItem>, now: u64, picked: Seq<int>) -> bool {
    &&& picked.len() == signals.len()
    &&& forall|k: int| 0 <= k < picked.len() ==> 0 <= #[trigger] picked[k] < items.len()
    &&& forall|k: int, l: int| 0 <= k < l < picked.len() ==> picked[k] < picked[l]
    &&& forall|k: int| 0 <= k < picked.len() ==> signal_matches(Some(#[trigger] signals[k]), items[picked[k]], now)
    &&& forall|i: int| 0 <= i < items.len() && !picked.contains(i) ==> signal_matches(None, #[trigger] items[i], now)
}

/// Read every item of a signal provider's reply, keeping those that stand
/// for a signal, in order.
pub fn parse_signals(items: &Vec<SignalItem>, now: u64) -> (r: Vec<Signal>)
    ensures
        r@.len() <= items@.len(),
        exists|picked: Seq<int>| #[trigger] read_from(r@, items@, now, picked),
{
    let mut out: Vec<Signal> = Vec::new();
    let ghost mut picked: Seq<int> = Seq::empty();
    let mut i: usize = 0;
    while i < items.len()
        invariant
            i <= items@.len(),
            picked.len() == out@.len(),
            out@.len() <= i,
            forall|k: int| 0 <= k < picked.len() ==> 0 <= #[trigger] picked[k] < i,
            forall|k: int, l: int| 0 <= k < l < picked.len() ==> picked[k] < picked[l],
            forall|k: int| 0 <= k < picked.len() ==> signal_matches(Some(#[trigger] out@[k]), items@[picked[k]], now),
            forall|j: int| 0 <= j < i && !picked.contains(j) ==> signal_matches(None, #[trigger] items@[j], now),
        decreases items.len() - i,
    {
        let r = parse_signal_item(&items[i], now);
        match r {
            Some(s) => {
                proof {
                    assert forall|j: int| 0 <= j < i + 1 && !picked.push(i as int).contains(j) implies signal_matches(
                        None,
                        #[trigger] items@[j],
                        now,
                    ) by {
                        assert(j != i as int ==> !picked.contains(j)) by {
                            if picked.contains(j) {
                                let k = choose|k: int| 0 <= k < picked.len() && picked[k] == j;
                                assert(picked.push(i as int)[k] == j);
                            }
                        }
                        if j == i as int {
                            assert(picked.push(i as int)[picked.len() as int] == j);
                        }
                    }
                    picked = picked.push(i as int);
                }
                out.push(s);
            },
            None => {
                proof {
                    assert forall|j: int| 0 <= j < i + 1 && !picked.contains(j) implies signal_matches(
                        None,
                        #[trigger] items@[j],
                        now,
                    ) by {}
                }
            },
        }
        i = i + 1;
    }
    assert(read_from(out@, items@, now, picked));
    out
}

/// Which signals of one tick may become orders: one order per coin, no
/// second position in a coin already held, and no close without a
/// position.
pub struct SignalScreen {
    ordered: Vec<String>,
}

impl SignalScreen {
    /// The coins already ordered this tick.
    pub closed spec fn ordered_coins(self) -> Seq<Seq<char>> {
        self.ordered@.map_values(|s: String| s@)
    }

    /// A signal may become an order when its coin was not ordered yet this
    /// tick, it does not open a coin already held, and it does not close a
    /// coin not held.
    pub open spec fn admits_spec(self, coin: Seq<char>, action: SignalAction, held: bool) -> bool {
        &&& !self.ordered_coins().contains(coin)
        &&& !(opens(action) && held)
        &&& !(!opens(action) && !held)
    }

    pub fn new() -> (s: SignalScreen)
        ensures
            s.ordered_coins() == Seq::<Seq<char>>::empty(),
    {
        let s = SignalScreen { ordered: Vec::new() };
        assert(s.ordered_coins() =~= Seq::<Seq<char>>::empty());
        s
    }

    /// Whether a signal may become an order (`held`: a position in its coin
    /// is open).
    pub fn admits(&self, signal: &Signal, held: bool) -> (b: bool)
        ensures
            b == self.admits_spec(signal.coin@, signal.action, held),
    {
        if crate::rules::name_taken(&self.ordered, signal.coin.as_str()) {
            return false;
        }
        if signal.is_open() && held {
            return false;
        }
        if signal.is_close() && !held {
            return false;
        }
        true
    }

    /// An order was made for this coin.
    pub fn record(&mut self, coin: &str)
        ensures
            final(self).ordered_coins() == old(self).ordered_coins().push(coin@),
    {
        let mut c = String::new();
        c.append(coin);
        assert(c@ =~= coin@);
        self.ordered.push(c);
        assert(self.ordered_coins() =~= old(self).ordered_coins().push(coin@));
    }
}

/// Once a coin has an order in a tick, no further signal for that coin
/// becomes an order in the same tick.
pub proof fn lemma_one_order_per_coin(before: SignalScreen, after: SignalScreen, coin: Seq<char>, action: SignalAction, held: bool)
    requires
        after.ordered_coins() == before.ordered_coins().push(coin),
    ensures
        !after.admits_spec(coin, action, held),
{
    assert(after.ordered_coins()[before.ordered_coins().len() as int] == coin);
}

/// What a fill does to the position in its coin.
#[derive(Debug, Clone, Copy, PartialEq, Eq, Structural)]
pub enum FillEffect {
    /// no position: open one on the fill's side
    Open,
    /// same side: add to the position (averaging the entry price)
    Increase,
    /// opposite side, smaller than the position: reduce it
    Reduce,
    /// opposite side, exactly the position's size: close it
    Close,
    /// opposite side, larger than the position: close it and open the rest
    /// on the fill's side
    Flip,
}

/// The effect of a fill on `side` given the position held in its coin (if
/// any): `covers` says the fill is at least as large as the position, and
/// `leaves_rest` that some of it is left once the position is closed.
pub open spec fn fill_effect_spec(held: Option<PositionSide>, side: Side, covers: bool, leaves_rest: bool) -> FillEffect {
    match held {
        None => FillEffect::Open,
        Some(p) => if p == position_side_of(side) {
            FillEffect::Increase
        } else if !covers {
            FillEffect::Reduce
        } else if leaves_rest {
            FillEffect::Flip
        } else {
            FillEffect::Close
        },
    }
}

/// The side of the position after a fill with this effect, if one is left.
pub open spec fn side_after(held: Option<PositionSide>, side: Side, effect: FillEffect) -> Option<PositionSide> {
    match effect {
        FillEffect::Open | FillEffect::Flip => Some(position_side_of(side)),
        FillEffect::Increase | FillEffect::Reduce => held,
        FillEffect::Close => None,
    }
}

/// Decide what a fill does to the position in its coin.
pub fn fill_effect(held: Option<PositionSide>, side: Side, covers: bool, leaves_rest: bool) -> (e: FillEffect)
    ensures
        e == fill_effect_spec(held, side, covers, leaves_rest),
{
    match held {
        None => FillEffect::Open,
        Some(p) => if p.is_added_to_by(side) {
            FillEffect::Increase
        } else if !covers {
            FillEffect::Reduce
        } else if leaves_rest {
            FillEffect::Flip
        } else {
            FillEffect::Close
        },
    }
}

/// A fill never leaves a position on the side opposite to both the one
/// held and its own; a buy never leaves a short it did not hold, nor a sell
/// a long.
pub proof fn lemma_fill_sides(held: Option<PositionSide>, side: Side, covers: bool, leaves_rest: bool)
    ensures
        ({
            let after = side_after(held, side, fill_effect_spec(held, side, covers, leaves_rest));
            after is None || after == held || after == Some(position_side_of(side))
        }),
        held is None ==> side_after(held, side, fill_effect_spec(held, side, covers, leaves_rest)) == Some(
            position_side_of(side),
        ),
{
}

} // verus!
