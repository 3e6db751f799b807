//! Latest mid prices with stale detection.
//!
//! Prices are carried as the bit patterns of their `f64` values. Every
//! method that reads the clock has a twin that takes the current time in
//! milliseconds since the Unix epoch; the twins carry the contracts.

use vstd::prelude::*;
use crate::text::str_eq;

verus! {

/// Maximum age for market data before considered stale (60 seconds)
pub const MAX_DATA_AGE_MS: u64 = 60_000;

/// Milliseconds since the Unix epoch by the system clock (0 when the clock
/// reads before the epoch).
#[verifier::external_body]
fn now_millis() -> (t: u64) {
    match std::time::SystemTime::now().duration_since(std::time::UNIX_EPOCH) {
        Ok(d) => d.as_millis() as u64,
        Err(_) => 0,
    }
}

/// Market data container with stale detection
#[derive(Debug)]
pub struct MarketData {
    mids: Vec<(String, u64)>,
    timestamp: u64,
}

/// The coins of a list of (coin, price) pairs.
pub open spec fn coins_of(mids: Seq<(String, u64)>) -> Seq<Seq<char>> {
    mids.map_values(|e: (String, u64)| e.0@)
}

/// The prices of a list of (coin, price) pairs, by coin.
pub open spec fn price_map(mids: Seq<(String, u64)>) -> Map<Seq<char>, u64>
    decreases mids.len(),
{
    if mids.len() == 0 {
        Map::empty()
    } else {
        price_map(mids.drop_last()).insert(mids.last().0@, mids.last().1)
    }
}

proof fn lemma_price_map(mids: Seq<(String, u64)>, coin: Seq<char>)
    requires
        forall|i: int, j: int| 0 <= i < j < mids.len() ==> mids[i].0@ != mids[j].0@,
    ensures
        price_map(mids).contains_key(coin) <==> exists|i: int| 0 <= i < mids.len() && mids[i].0@ == coin,
        forall|i: int| 0 <= i < mids.len() && #[trigger] mids[i].0@ == coin ==> price_map(mids)[coin] == mids[i].1,
    decreases mids.len(),
{
    if mids.len() > 0 {
        let rest = mids.drop_last();
        lemma_price_map(rest, coin);
        if price_map(mids).contains_key(coin) && mids.last().0@ != coin {
            let i = choose|i: int| 0 <= i < rest.len() && rest[i].0@ == coin;
            assert(mids[i].0@ == coin);
        }
        if exists|i: int| 0 <= i < mids.len() && mids[i].0@ == coin {
            let i = choose|i: int| 0 <= i < mids.len() && mids[i].0@ == coin;
            if i < mids.len() - 1 {
                assert(rest[i].0@ == coin);
            }
        }
        assert forall|i: int| 0 <= i < mids.len() && #[trigger] mids[i].0@ == coin implies price_map(
            mids,
        )[coin] == mids[i].1 by {
            if i < mids.len() - 1 {
                assert(rest[i] == mids[i]);
            }
        }
    }
}

/// Where a coin is in a list of (coin, price) pairs.
fn find_coin(mids: &Vec<(String, u64)>, coin: &str) -> (r: Option<usize>)
    ensures
        match r {
            Some(i) => i < mids@.len() && mids@[i as int].0@ == coin@,
            None => forall|i: int| 0 <= i < mids@.len() ==> mids@[i].0@ != coin@,
        },
{
    let mut i: usize = 0;
    while i < mids.len()
        invariant
            i <= mids@.len(),
            forall|k: int| 0 <= k < i ==> mids@[k].0@ != coin@,
        decreases mids.len() - i,
    {
        if str_eq(mids[i].0.as_str(), coin) {
            return Some(i);
        }
        i = i + 1;
    }
    None
}

/// The prices after an all-mids message's entries are recorded in order.
pub open spec fn apply_mids(prices: Map<Seq<char>, u64>, entries: Seq<(String, Option<u64>)>) -> Map<Seq<char>, u64>
    decreases entries.len(),
{
    if entries.len() == 0 {
        prices
    } else {
        let before = apply_mids(prices, entries.drop_last());
        match entries.last().1 {
            Some(p) => before.insert(entries.last().0@, p),
            None => before,
        }
    }
}

/// Whether any entry carries a price.
pub open spec fn has_price(entries: Seq<(String, Option<u64>)>) -> bool {
    exists|i: int| 0 <= i < entries.len() && (#[trigger] entries[i]).1 is Some
}

impl MarketData {
    #[verifier::type_invariant]
    closed spec fn coins_unique(self) -> bool {
        forall|i: int, j: int| 0 <= i < j < self.mids@.len() ==> self.mids@[i].0@ != self.mids@[j].0@
    }

    /// The latest mid price of each coin.
    pub closed spec fn prices(self) -> Map<Seq<char>, u64> {
        price_map(self.mids@)
    }

    /// When the prices were last updated (0: never).
    pub closed spec fn updated_at(self) -> u64 {
        self.timestamp
    }

    /// Data is stale when it was never updated or is more than 60 s old.
    pub open spec fn stale_at(self, now: u64) -> bool {
        self.updated_at() == 0 || (now - self.updated_at() > MAX_DATA_AGE_MS)
    }

    /// A coin's price when the data is fresh.
    pub open spec fn price_at(self, coin: Seq<char>, now: u64) -> Option<u64> {
        if self.stale_at(now) || !self.prices().contains_key(coin) {
            None
        } else {
            Some(self.prices()[coin])
        }
    }

    pub fn new() -> (m: MarketData)
        ensures
            m.prices() == Map::<Seq<char>, u64>::empty(),
            m.updated_at() == 0,
    {
        MarketData { mids: Vec::new(), timestamp: 0 }
    }

    /// Record a coin's mid price, read at time `now`. Once written, the
    /// price is what a read of the coin gives for the next 60 seconds
    /// (until it is written again).
    pub fn update_mid_at(&mut self, coin: String, price: u64, now: u64)
        ensures
            final(self).prices() == old(self).prices().insert(coin@, price),
            final(self).updated_at() == now,
            forall|later: u64|
                now > 0 && now <= later && later - now <= MAX_DATA_AGE_MS ==> #[trigger] final(self).price_at(
                    coin@,
                    later,
                ) == Some(price),
    {
        proof { use_type_invariant(&*self); }
        let ghost before = self.mids@;
        let mut mids = Vec::new();
        std::mem::swap(&mut mids, &mut self.mids);
        match find_coin(&mids, coin.as_str()) {
            Some(i) => {
                mids.set(i, (coin, price));
                proof {
                    lemma_price_map(before, coin@);
                    assert forall|j: int, k: int| 0 <= j < k < mids@.len() implies mids@[j].0@ != mids@[k].0@ by {
                        if j == i as int {
                            assert(before[i as int].0@ == mids@[j].0@);
                        }
                        if k == i as int {
                            assert(before[i as int].0@ == mids@[k].0@);
                        }
                    }
                    lemma_price_map(mids@, coin@);
                    let after = price_map(before).insert(coin@, price);
                    assert forall|c: Seq<char>| #[trigger] price_map(mids@).contains_key(c) == after.contains_key(c)
                        && (after.contains_key(c) ==> price_map(mids@)[c] == after[c]) by {
                        lemma_price_map(before, c);
                        lemma_price_map(mids@, c);
                        if c == coin@ {
                            assert(mids@[i as int].0@ == c);
                        } else {
                            if price_map(before).contains_key(c) {
                                let j = choose|j: int| 0 <= j < before.len() && before[j].0@ == c;
                                assert(mids@[j].0@ == c);
                                assert(mids@[j] == before[j]);
                            }
                            if price_map(mids@).contains_key(c) {
                                let j = choose|j: int| 0 <= j < mids@.len() && mids@[j].0@ == c;
                                assert(before[j].0@ == c);
                            }
                        }
                    }
                    assert(price_map(mids@) =~= price_map(before).insert(coin@, price));
                }
            },
            None => {
                let ghost c = coin@;
                mids.push((coin, price));
                proof {
                    assert(mids@.drop_last() =~= before);
                    assert forall|j: int, k: int| 0 <= j < k < mids@.len() implies mids@[j].0@ != mids@[k].0@ by {
                        if k == mids@.len() - 1 {
                            assert(before[j] == mids@[j]);
                        }
                    }
                }
            },
        }
        self.mids = mids;
        self.timestamp = now;
    }

    /// A copy of the data: the same prices, updated at the same time.
    pub fn snapshot(&self) -> (m: MarketData)
        ensures
            m.prices() == self.prices(),
            m.updated_at() == self.updated_at(),
    {
        proof { use_type_invariant(self); }
        let mut mids: Vec<(String, u64)> = Vec::new();
        let mut i: usize = 0;
        while i < self.mids.len()
            invariant
                i <= self.mids@.len(),
                mids@.len() == i,
                forall|k: int| 0 <= k < i ==> #[trigger] mids@[k] == self.mids@[k],
            decreases self.mids.len() - i,
        {
            let c = self.mids[i].0.clone();
            mids.push((c, self.mids[i].1));
            i = i + 1;
        }
        assert(mids@ =~= self.mids@);
        MarketData { mids, timestamp: self.timestamp }
    }

    /// Record every mid price of an all-mids message read at time `now`, in
    /// order; entries whose price did not parse (`None`) are skipped.
    pub fn update_mids_at(&mut self, entries: &Vec<(String, Option<u64>)>, now: u64)
        ensures
            final(self).prices() == apply_mids(old(self).prices(), entries@),
            final(self).updated_at() == if has_price(entries@) { now } else { old(self).updated_at() },
    {
        let ghost start = self.prices();
        let ghost stamp = self.updated_at();
        let ghost all = entries@;
        let mut i: usize = 0;
        assert(all.take(0) =~= Seq::<(String, Option<u64>)>::empty());
        while i < entries.len()
            invariant
                all == entries@,
                i <= all.len(),
                self.prices() == apply_mids(start, all.take(i as int)),
                self.updated_at() == if has_price(all.take(i as int)) { now } else { stamp },
            decreases entries.len() - i,
        {
            proof {
                assert(all.take(i + 1).drop_last() =~= all.take(i as int));
                assert(all.take(i + 1).last() == all[i as int]);
                if has_price(all.take(i as int)) {
                    let k = choose|k: int| 0 <= k < all.take(i as int).len() && (#[trigger] all.take(i as int)[k]).1 is Some;
                    assert(all.take(i + 1)[k] == all.take(i as int)[k]);
                }
                if all[i as int].1 is Some {
                    assert(all.take(i + 1)[i as int] == all[i as int]);
                }
                if has_price(all.take(i + 1)) && all[i as int].1 is None {
                    let k = choose|k: int| 0 <= k < all.take(i + 1).len() && (#[trigger] all.take(i + 1)[k]).1 is Some;
                    assert(k < i);
                    assert(all.take(i as int)[k] == all.take(i + 1)[k]);
                }
            }
            match entries[i].1 {
                Some(p) => {
                    let c = entries[i].0.clone();
                    self.update_mid_at(c, p, now);
                },
                None => {},
            }
            i = i + 1;
        }
        assert(all.take(i as int) =~= all);
    }

    /// Update mid price, stamped with the system clock.
    pub fn update_mid(&mut self, coin: String, price: u64)
        ensures
            final(self).prices() == old(self).prices().insert(coin@, price),
    {
        let now = now_millis();
        self.update_mid_at(coin, price, now);
    }

    /// Get price regardless of staleness (for logging/debugging)
    pub fn get_price_unchecked(&self, coin: &str) -> (r: Option<u64>)
        ensures
            r == if self.prices().contains_key(coin@) {
                Some(self.prices()[coin@])
            } else {
                None::<u64>
            },
    {
        proof {
            use_type_invariant(self);
            lemma_price_map(self.mids@, coin@);
        }
        match find_coin(&self.mids, coin) {
            Some(i) => Some(self.mids[i].1),
            None => None,
        }
    }

    /// Check if market data is stale at time `now`.
    pub fn is_stale_at(&self, now: u64) -> (b: bool)
        ensures
            b == self.stale_at(now),
    {
        if self.timestamp == 0 {
            return true;
        }
        now.saturating_sub(self.timestamp) > MAX_DATA_AGE_MS
    }

    /// Check if market data is stale
    pub fn is_stale(&self) -> (b: bool)
        ensures
            self.updated_at() == 0 ==> b,
            exists|now: u64| b == #[trigger] self.stale_at(now),
    {
        let now = now_millis();
        let b = self.is_stale_at(now);
        assert(b == self.stale_at(now));
        b
    }

    /// Get price if data is fresh (not stale) at time `now`.
    pub fn get_price_at(&self, coin: &str, now: u64) -> (r: Option<u64>)
        ensures
            r == self.price_at(coin@, now),
    {
        if self.is_stale_at(now) {
            return None;
        }
        self.get_price_unchecked(coin)
    }

    /// Get price if data is fresh (not stale)
    pub fn get_price(&self, coin: &str) -> (r: Option<u64>)
        ensures
            self.updated_at() == 0 ==> r is None,
            r matches Some(p) ==> self.prices().contains_key(coin@) && p == self.prices()[coin@],
            exists|now: u64| r == #[trigger] self.price_at(coin@, now),
    {
        let now = now_millis();
        let r = self.get_price_at(coin, now);
        assert(r == self.price_at(coin@, now));
        r
    }

    /// Data age in milliseconds at time `now` (the largest value when never
    /// updated).
    pub fn age_ms_at(&self, now: u64) -> (a: u64)
        ensures
            a == if self.updated_at() == 0 {
                u64::MAX
            } else if now >= self.updated_at() {
                (now - self.updated_at()) as u64
            } else {
                0
            },
    {
        if self.timestamp == 0 {
            return u64::MAX;
        }
        now.saturating_sub(self.timestamp)
    }

    /// Get data age in milliseconds
    pub fn age_ms(&self) -> (a: u64)
        ensures
            self.updated_at() == 0 ==> a == u64::MAX,
    {
        let now = now_millis();
        self.age_ms_at(now)
    }
}

/// Stale data gives no price, whatever it holds.
pub proof fn lemma_stale_gives_no_price(m: MarketData, coin: Seq<char>, now: u64)
    requires
        m.stale_at(now),
    ensures
        m.price_at(coin, now) is None,
{
}

} // verus!
