//! Asset ids and asset metadata of the exchange's universe.

use vstd::prelude::*;
use crate::text::str_eq;

verus! {

/// Size decimals of an asset whose metadata gives none.
pub const DEFAULT_SZ_DECIMALS: u32 = 2;

/// Maximum leverage of an asset whose metadata gives none.
pub const DEFAULT_MAX_LEVERAGE: u32 = 10;

/// Extended asset info (size decimals, max leverage)
#[derive(Debug, Clone)]
pub struct AssetInfo {
    pub name: String,
    pub index: u32,
    pub sz_decimals: u32,
    pub max_leverage: u32,
}

impl AssetInfo {
    /// The info of the universe's asset at `index`, with the defaults for
    /// what its metadata leaves out.
    pub fn from_meta(name: String, index: u32, sz_decimals: Option<u32>, max_leverage: Option<u32>) -> (a: AssetInfo)
        ensures
            a.name == name,
            a.index == index,
            a.sz_decimals == match sz_decimals {
                Some(d) => d,
                None => DEFAULT_SZ_DECIMALS,
            },
            a.max_leverage == match max_leverage {
                Some(l) => l,
                None => DEFAULT_MAX_LEVERAGE,
            },
    {
        let sz = match sz_decimals {
            Some(d) => d,
            None => DEFAULT_SZ_DECIMALS,
        };
        let lev = match max_leverage {
            Some(l) => l,
            None => DEFAULT_MAX_LEVERAGE,
        };
        AssetInfo { name, index, sz_decimals: sz, max_leverage: lev }
    }
}

/// The last position at which `name` occurs in `names`, if any.
pub open spec fn last_index_of(names: Seq<Seq<char>>, name: Seq<char>) -> Option<int>
    decreases names.len(),
{
    if names.len() == 0 {
        None
    } else if names.last() == name {
        Some(names.len() - 1)
    } else {
        last_index_of(names.drop_last(), name)
    }
}

proof fn lemma_last_index_of(names: Seq<Seq<char>>, name: Seq<char>)
    ensures
        match last_index_of(names, name) {
            Some(j) => 0 <= j < names.len() && names[j] == name && forall|k: int|
                j < k < names.len() ==> names[k] != name,
            None => forall|k: int| 0 <= k < names.len() ==> names[k] != name,
        },
    decreases names.len(),
{
    if names.len() > 0 {
        let rest = names.drop_last();
        lemma_last_index_of(rest, name);
        assert forall|k: int| 0 <= k < rest.len() implies rest[k] == names[k] by {}
        if names.last() != name {
            assert forall|k: int| 0 <= k < names.len() && names[k] == name implies k < rest.len() by {}
        }
    }
}

/// Asset ids by name: an asset's id is its position in the exchange's
/// universe; a name listed twice has the id of its last listing.
pub struct AssetIndex {
    names: Vec<String>,
}

impl View for AssetIndex {
    type V = Seq<Seq<char>>;

    closed spec fn view(&self) -> Seq<Seq<char>> {
        self.names@.map_values(|s: String| s@)
    }
}

impl AssetIndex {
    /// The index of a universe listed in this order.
    pub fn from_universe(names: Vec<String>) -> (a: AssetIndex)
        ensures
            a@ == names@.map_values(|s: String| s@),
    {
        AssetIndex { names }
    }

    pub fn len(&self) -> (n: usize)
        ensures
            n == self@.len(),
    {
        self.names.len()
    }

    /// The id of an asset: the last position at which its name is listed.
    pub fn id_of(&self, name: &str) -> (r: Option<u32>)
        ensures
            r == match last_index_of(self@, name@) {
                Some(j) => Some(j as u32),
                None => None::<u32>,
            },
    {
        proof { lemma_last_index_of(self@, name@); }
        let mut i: usize = self.names.len();
        while i > 0
            invariant
                i <= self.names@.len(),
                self@.len() == self.names@.len(),
                forall|k: int| i <= k < self@.len() ==> self@[k] != name@,
            decreases i,
        {
            if str_eq(self.names[i - 1].as_str(), name) {
                proof {
                    assert(self@[i - 1] == name@);
                    lemma_last_index_of(self@, name@);
                }
                return Some((i - 1) as u32);
            }
            i = i - 1;
        }
        proof { lemma_last_index_of(self@, name@); }
        None
    }
}

/// Uppercase form of a text, as `str::to_uppercase` gives it.
pub uninterp spec fn uppercase_of(s: Seq<char>) -> Seq<char>;

/// Calls `str::to_uppercase`; the result is named `uppercase_of` of the
/// argument, which is not further described here.
#[verifier::external_body]
fn to_upper(s: &str) -> (r: String)
    ensures
        r@ == uppercase_of(s@),
{
    s.to_uppercase()
}

/// The asset ids built in for the best-known coins, by uppercase name.
pub open spec fn builtin_asset_id(name: Seq<char>) -> Option<u32> {
    if name == "BTC"@ { Some(0) }
    else if name == "ETH"@ { Some(1) }
    else if name == "SOL"@ { Some(2) }
    else if name == "DOGE"@ { Some(3) }
    else if name == "ARB"@ { Some(4) }
    else if name == "AVAX"@ { Some(5) }
    else if name == "LINK"@ { Some(6) }
    else if name == "APE"@ { Some(7) }
    else if name == "DYDX"@ { Some(8) }
    else if name == "ATOM"@ { Some(9) }
    else if name == "NEAR"@ { Some(10) }
    else if name == "FTM"@ { Some(11) }
    else if name == "INJ"@ { Some(12) }
    else if name == "SUI"@ { Some(13) }
    else if name == "APT"@ { Some(14) }
    else if name == "TIA"@ { Some(15) }
    else if name == "SEI"@ { Some(16) }
    else if name == "JUP"@ { Some(17) }
    else if name == "ORDI"@ { Some(18) }
    else if name == "WIF"@ { Some(19) }
    else if name == "STX"@ { Some(20) }
    else if name == "BONK"@ { Some(21) }
    else if name == "PEPE"@ || name == "1000PEPE"@ { Some(22) }
    else if name == "WLD"@ { Some(23) }
    else if name == "BLUR"@ { Some(24) }
    else if name == "PENDLE"@ { Some(25) }
    else if name == "ETHFI"@ { Some(26) }
    else if name == "ENA"@ { Some(27) }
    else if name == "W"@ { Some(28) }
    else if name == "TAO"@ { Some(29) }
    else if name == "RENDER"@ { Some(30) }
    else if name == "FET"@ { Some(31) }
    else if name == "ARKM"@ { Some(32) }
    else if name == "IMX"@ { Some(33) }
    else if name == "AAVE"@ { Some(34) }
    else if name == "FLOKI"@ || name == "1000FLOKI"@ { Some(35) }
    else if name == "GALA"@ { Some(36) }
    else if name == "SAND"@ { Some(37) }
    else if name == "MANA"@ { Some(38) }
    else if name == "AXS"@ { Some(39) }
    else if name == "OP"@ { Some(40) }
    else if name == "LDO"@ { Some(41) }
    else { None }
}

/// The coins of the built-in table in the order of the exchange's universe:
/// a coin's asset id is its position here.
pub open spec fn builtin_universe() -> Seq<Seq<char>> {
    seq![
        "BTC"@,
        "ETH"@,
        "SOL"@,
        "DOGE"@,
        "ARB"@,
        "AVAX"@,
        "LINK"@,
        "APE"@,
        "DYDX"@,
        "ATOM"@,
        "NEAR"@,
        "FTM"@,
        "INJ"@,
        "SUI"@,
        "APT"@,
        "TIA"@,
        "SEI"@,
        "JUP"@,
        "ORDI"@,
        "WIF"@,
        "STX"@,
        "BONK"@,
        "PEPE"@,
        "WLD"@,
        "BLUR"@,
        "PENDLE"@,
        "ETHFI"@,
        "ENA"@,
        "W"@,
        "TAO"@,
        "RENDER"@,
        "FET"@,
        "ARKM"@,
        "IMX"@,
        "AAVE"@,
        "FLOKI"@,
        "GALA"@,
        "SAND"@,
        "MANA"@,
        "AXS"@,
        "OP"@,
        "LDO"@,
    ]
}

/// The built-in table sends every coin to its own asset: each listed coin
/// gets its position in the universe (BTC 0, ETH 1, SOL 2, ...), and a name
/// that gets an id is the coin listed at that position, or "1000PEPE" /
/// "1000FLOKI" for PEPE / FLOKI. So two different coins never share an id.
pub proof fn lemma_builtin_ids_follow_universe(name: Seq<char>)
    ensures
        builtin_asset_id(name) matches Some(i) ==> i < 42 && (name == builtin_universe()[i as int] || (i == 22
            && name == "1000PEPE"@) || (i == 35 && name == "1000FLOKI"@)),
        forall|i: int| 0 <= i < 42 ==> #[trigger] builtin_asset_id(builtin_universe()[i]) == Some(i as u32),
{
    reveal_strlit("BTC");
    reveal_strlit("ETH");
    reveal_strlit("SOL");
    reveal_strlit("DOGE");
    reveal_strlit("ARB");
    reveal_strlit("AVAX");
    reveal_strlit("LINK");
    reveal_strlit("APE");
    reveal_strlit("DYDX");
    reveal_strlit("ATOM");
    reveal_strlit("NEAR");
    reveal_strlit("FTM");
    reveal_strlit("INJ");
    reveal_strlit("SUI");
    reveal_strlit("APT");
    reveal_strlit("TIA");
    reveal_strlit("SEI");
    reveal_strlit("JUP");
    reveal_strlit("ORDI");
    reveal_strlit("WIF");
    reveal_strlit("STX");
    reveal_strlit("BONK");
    reveal_strlit("PEPE");
    reveal_strlit("WLD");
    reveal_strlit("BLUR");
    reveal_strlit("PENDLE");
    reveal_strlit("ETHFI");
    reveal_strlit("ENA");
    reveal_strlit("W");
    reveal_strlit("TAO");
    reveal_strlit("RENDER");
    reveal_strlit("FET");
    reveal_strlit("ARKM");
    reveal_strlit("IMX");
    reveal_strlit("AAVE");
    reveal_strlit("FLOKI");
    reveal_strlit("GALA");
    reveal_strlit("SAND");
    reveal_strlit("MANA");
    reveal_strlit("AXS");
    reveal_strlit("OP");
    reveal_strlit("LDO");
    reveal_strlit("1000PEPE");
    reveal_strlit("1000FLOKI");
    // the listed names differ: by length, or else at the character asserted
    assert("ETH"@.len() == 3);
    assert("APE"@.len() == 3);
    assert("DYDX"@.len() == 4);
    assert("TAO"@.len() == 3);
    assert("SUI"@.len() == 3);
    assert("APT"@.len() == 3);
    assert("WLD"@.len() == 3);
    assert("ATOM"@.len() == 4);
    assert("BONK"@.len() == 4);
    assert("AVAX"@.len() == 4);
    assert("LINK"@.len() == 4);
    assert("INJ"@.len() == 3);
    assert("ETHFI"@.len() == 5);
    assert("ARKM"@.len() == 4);
    assert("1000FLOKI"@.len() == 9);
    assert("MANA"@.len() == 4);
    assert("SOL"@.len() == 3);
    assert("OP"@.len() == 2);
    assert("PENDLE"@.len() == 6);
    assert("TIA"@.len() == 3);
    assert("AXS"@.len() == 3);
    assert("IMX"@.len() == 3);
    assert("SEI"@.len() == 3);
    assert("BLUR"@.len() == 4);
    assert("ORDI"@.len() == 4);
    assert("W"@.len() == 1);
    assert("STX"@.len() == 3);
    assert("1000PEPE"@.len() == 8);
    assert("DOGE"@.len() == 4);
    assert("LDO"@.len() == 3);
    assert("ARB"@.len() == 3);
    assert("FTM"@.len() == 3);
    assert("PEPE"@.len() == 4);
    assert("BTC"@.len() == 3);
    assert("ENA"@.len() == 3);
    assert("RENDER"@.len() == 6);
    assert("FLOKI"@.len() == 5);
    assert("SAND"@.len() == 4);
    assert("WIF"@.len() == 3);
    assert("AAVE"@.len() == 4);
    assert("GALA"@.len() == 4);
    assert("JUP"@.len() == 3);
    assert("FET"@.len() == 3);
    assert("NEAR"@.len() == 4);
    assert("ETH"@[0] != "BTC"@[0]);
    assert("SOL"@[0] != "BTC"@[0]);
    assert("SOL"@[0] != "ETH"@[0]);
    assert("ARB"@[0] != "BTC"@[0]);
    assert("ARB"@[0] != "ETH"@[0]);
    assert("ARB"@[0] != "SOL"@[0]);
    assert("AVAX"@[0] != "DOGE"@[0]);
    assert("LINK"@[0] != "DOGE"@[0]);
    assert("LINK"@[0] != "AVAX"@[0]);
    assert("APE"@[0] != "BTC"@[0]);
    assert("APE"@[0] != "ETH"@[0]);
    assert("APE"@[0] != "SOL"@[0]);
    assert("APE"@[1] != "ARB"@[1]);
    assert("DYDX"@[1] != "DOGE"@[1]);
    assert("DYDX"@[0] != "AVAX"@[0]);
    assert("DYDX"@[0] != "LINK"@[0]);
    assert("ATOM"@[0] != "DOGE"@[0]);
    assert("ATOM"@[1] != "AVAX"@[1]);
    assert("ATOM"@[0] != "LINK"@[0]);
    assert("ATOM"@[0] != "DYDX"@[0]);
    assert("NEAR"@[0] != "DOGE"@[0]);
    assert("NEAR"@[0] != "AVAX"@[0]);
    assert("NEAR"@[0] != "LINK"@[0]);
    assert("NEAR"@[0] != "DYDX"@[0]);
    assert("NEAR"@[0] != "ATOM"@[0]);
    assert("FTM"@[0] != "BTC"@[0]);
    assert("FTM"@[0] != "ETH"@[0]);
    assert("FTM"@[0] != "SOL"@[0]);
    assert("FTM"@[0] != "ARB"@[0]);
    assert("FTM"@[0] != "APE"@[0]);
    assert("INJ"@[0] != "BTC"@[0]);
    assert("INJ"@[0] != "ETH"@[0]);
    assert("INJ"@[0] != "SOL"@[0]);
    assert("INJ"@[0] != "ARB"@[0]);
    assert("INJ"@[0] != "APE"@[0]);
    assert("INJ"@[0] != "FTM"@[0]);
    assert("SUI"@[0] != "BTC"@[0]);
    assert("SUI"@[0] != "ETH"@[0]);
    assert("SUI"@[1] != "SOL"@[1]);
    assert("SUI"@[0] != "ARB"@[0]);
    assert("SUI"@[0] != "APE"@[0]);
    assert("SUI"@[0] != "FTM"@[0]);
    assert("SUI"@[0] != "INJ"@[0]);
    assert("APT"@[0] != "BTC"@[0]);
    assert("APT"@[0] != "ETH"@[0]);
    assert("APT"@[0] != "SOL"@[0]);
    assert("APT"@[1] != "ARB"@[1]);
    assert("APT"@[2] != "APE"@[2]);
    assert("APT"@[0] != "FTM"@[0]);
    assert("APT"@[0] != "INJ"@[0]);
    assert("APT"@[0] != "SUI"@[0]);
    assert("TIA"@[0] != "BTC"@[0]);
    assert("TIA"@[0] != "ETH"@[0]);
    assert("TIA"@[0] != "SOL"@[0]);
    assert("TIA"@[0] != "ARB"@[0]);
    assert("TIA"@[0] != "APE"@[0]);
    assert("TIA"@[0] != "FTM"@[0]);
    assert("TIA"@[0] != "INJ"@[0]);
    assert("TIA"@[0] != "SUI"@[0]);
    assert("TIA"@[0] != "APT"@[0]);
    assert("SEI"@[0] != "BTC"@[0]);
    assert("SEI"@[0] != "ETH"@[0]);
    assert("SEI"@[1] != "SOL"@[1]);
    assert("SEI"@[0] != "ARB"@[0]);
    assert("SEI"@[0] != "APE"@[0]);
    assert("SEI"@[0] != "FTM"@[0]);
    assert("SEI"@[0] != "INJ"@[0]);
    assert("SEI"@[1] != "SUI"@[1]);
    assert("SEI"@[0] != "APT"@[0]);
    assert("SEI"@[0] != "TIA"@[0]);
    assert("JUP"@[0] != "BTC"@[0]);
    assert("JUP"@[0] != "ETH"@[0]);
    assert("JUP"@[0] != "SOL"@[0]);
    assert("JUP"@[0] != "ARB"@[0]);
    assert("JUP"@[0] != "APE"@[0]);
    assert("JUP"@[0] != "FTM"@[0]);
    assert("JUP"@[0] != "INJ"@[0]);
    assert("JUP"@[0] != "SUI"@[0]);
    assert("JUP"@[0] != "APT"@[0]);
    assert("JUP"@[0] != "TIA"@[0]);
    assert("JUP"@[0] != "SEI"@[0]);
    assert("ORDI"@[0] != "DOGE"@[0]);
    assert("ORDI"@[0] != "AVAX"@[0]);
    assert("ORDI"@[0] != "LINK"@[0]);
    assert("ORDI"@[0] != "DYDX"@[0]);
    assert("ORDI"@[0] != "ATOM"@[0]);
    assert("ORDI"@[0] != "NEAR"@[0]);
    assert("WIF"@[0] != "BTC"@[0]);
    assert("WIF"@[0] != "ETH"@[0]);
    assert("WIF"@[0] != "SOL"@[0]);
    assert("WIF"@[0] != "ARB"@[0]);
    assert("WIF"@[0] != "APE"@[0]);
    assert("WIF"@[0] != "FTM"@[0]);
    assert("WIF"@[0] != "INJ"@[0]);
    assert("WIF"@[0] != "SUI"@[0]);
    assert("WIF"@[0] != "APT"@[0]);
    assert("WIF"@[0] != "TIA"@[0]);
    assert("WIF"@[0] != "SEI"@[0]);
    assert("WIF"@[0] != "JUP"@[0]);
    assert("STX"@[0] != "BTC"@[0]);
    assert("STX"@[0] != "ETH"@[0]);
    assert("STX"@[1] != "SOL"@[1]);
    assert("STX"@[0] != "ARB"@[0]);
    assert("STX"@[0] != "APE"@[0]);
    assert("STX"@[0] != "FTM"@[0]);
    assert("STX"@[0] != "INJ"@[0]);
    assert("STX"@[1] != "SUI"@[1]);
    assert("STX"@[0] != "APT"@[0]);
    assert("STX"@[0] != "TIA"@[0]);
    assert("STX"@[1] != "SEI"@[1]);
    assert("STX"@[0] != "JUP"@[0]);
    assert("STX"@[0] != "WIF"@[0]);
    assert("BONK"@[0] != "DOGE"@[0]);
    assert("BONK"@[0] != "AVAX"@[0]);
    assert("BONK"@[0] != "LINK"@[0]);
    assert("BONK"@[0] != "DYDX"@[0]);
    assert("BONK"@[0] != "ATOM"@[0]);
    assert("BONK"@[0] != "NEAR"@[0]);
    assert("BONK"@[0] != "ORDI"@[0]);
    assert("PEPE"@[0] != "DOGE"@[0]);
    assert("PEPE"@[0] != "AVAX"@[0]);
    assert("PEPE"@[0] != "LINK"@[0]);
    assert("PEPE"@[0] != "DYDX"@[0]);
    assert("PEPE"@[0] != "ATOM"@[0]);
    assert("PEPE"@[0] != "NEAR"@[0]);
    assert("PEPE"@[0] != "ORDI"@[0]);
    assert("PEPE"@[0] != "BONK"@[0]);
    assert("WLD"@[0] != "BTC"@[0]);
    assert("WLD"@[0] != "ETH"@[0]);
    assert("WLD"@[0] != "SOL"@[0]);
    assert("WLD"@[0] != "ARB"@[0]);
    assert("WLD"@[0] != "APE"@[0]);
    assert("WLD"@[0] != "FTM"@[0]);
    assert("WLD"@[0] != "INJ"@[0]);
    assert("WLD"@[0] != "SUI"@[0]);
    assert("WLD"@[0] != "APT"@[0]);
    assert("WLD"@[0] != "TIA"@[0]);
    assert("WLD"@[0] != "SEI"@[0]);
    assert("WLD"@[0] != "JUP"@[0]);
    assert("WLD"@[1] != "WIF"@[1]);
    assert("WLD"@[0] != "STX"@[0]);
    assert("BLUR"@[0] != "DOGE"@[0]);
    assert("BLUR"@[0] != "AVAX"@[0]);
    assert("BLUR"@[0] != "LINK"@[0]);
    assert("BLUR"@[0] != "DYDX"@[0]);
    assert("BLUR"@[0] != "ATOM"@[0]);
    assert("BLUR"@[0] != "NEAR"@[0]);
    assert("BLUR"@[0] != "ORDI"@[0]);
    assert("BLUR"@[1] != "BONK"@[1]);
    assert("BLUR"@[0] != "PEPE"@[0]);
    assert("ENA"@[0] != "BTC"@[0]);
    assert("ENA"@[1] != "ETH"@[1]);
    assert("ENA"@[0] != "SOL"@[0]);
    assert("ENA"@[0] != "ARB"@[0]);
    assert("ENA"@[0] != "APE"@[0]);
    assert("ENA"@[0] != "FTM"@[0]);
    assert("ENA"@[0] != "INJ"@[0]);
    assert("ENA"@[0] != "SUI"@[0]);
    assert("ENA"@[0] != "APT"@[0]);
    assert("ENA"@[0] != "TIA"@[0]);
    assert("ENA"@[0] != "SEI"@[0]);
    assert("ENA"@[0] != "JUP"@[0]);
    assert("ENA"@[0] != "WIF"@[0]);
    assert("ENA"@[0] != "STX"@[0]);
    assert("ENA"@[0] != "WLD"@[0]);
    assert("TAO"@[0] != "BTC"@[0]);
    assert("TAO"@[0] != "ETH"@[0]);
    assert("TAO"@[0] != "SOL"@[0]);
    assert("TAO"@[0] != "ARB"@[0]);
    assert("TAO"@[0] != "APE"@[0]);
    assert("TAO"@[0] != "FTM"@[0]);
    assert("TAO"@[0] != "INJ"@[0]);
    assert("TAO"@[0] != "SUI"@[0]);
    assert("TAO"@[0] != "APT"@[0]);
    assert("TAO"@[1] != "TIA"@[1]);
    assert("TAO"@[0] != "SEI"@[0]);
    assert("TAO"@[0] != "JUP"@[0]);
    assert("TAO"@[0] != "WIF"@[0]);
    assert("TAO"@[0] != "STX"@[0]);
    assert("TAO"@[0] != "WLD"@[0]);
    assert("TAO"@[0] != "ENA"@[0]);
    assert("RENDER"@[0] != "PENDLE"@[0]);
    assert("FET"@[0] != "BTC"@[0]);
    assert("FET"@[0] != "ETH"@[0]);
    assert("FET"@[0] != "SOL"@[0]);
    assert("FET"@[0] != "ARB"@[0]);
    assert("FET"@[0] != "APE"@[0]);
    assert("FET"@[1] != "FTM"@[1]);
    assert("FET"@[0] != "INJ"@[0]);
    assert("FET"@[0] != "SUI"@[0]);
    assert("FET"@[0] != "APT"@[0]);
    assert("FET"@[0] != "TIA"@[0]);
    assert("FET"@[0] != "SEI"@[0]);
    assert("FET"@[0] != "JUP"@[0]);
    assert("FET"@[0] != "WIF"@[0]);
    assert("FET"@[0] != "STX"@[0]);
    assert("FET"@[0] != "WLD"@[0]);
    assert("FET"@[0] != "ENA"@[0]);
    assert("FET"@[0] != "TAO"@[0]);
    assert("ARKM"@[0] != "DOGE"@[0]);
    assert("ARKM"@[1] != "AVAX"@[1]);
    assert("ARKM"@[0] != "LINK"@[0]);
    assert("ARKM"@[0] != "DYDX"@[0]);
    assert("ARKM"@[1] != "ATOM"@[1]);
    assert("ARKM"@[0] != "NEAR"@[0]);
    assert("ARKM"@[0] != "ORDI"@[0]);
    assert("ARKM"@[0] != "BONK"@[0]);
    assert("ARKM"@[0] != "PEPE"@[0]);
    assert("ARKM"@[0] != "BLUR"@[0]);
    assert("IMX"@[0] != "BTC"@[0]);
    assert("IMX"@[0] != "ETH"@[0]);
    assert("IMX"@[0] != "SOL"@[0]);
    assert("IMX"@[0] != "ARB"@[0]);
    assert("IMX"@[0] != "APE"@[0]);
    assert("IMX"@[0] != "FTM"@[0]);
    assert("IMX"@[1] != "INJ"@[1]);
    assert("IMX"@[0] != "SUI"@[0]);
    assert("IMX"@[0] != "APT"@[0]);
    assert("IMX"@[0] != "TIA"@[0]);
    assert("IMX"@[0] != "SEI"@[0]);
    assert("IMX"@[0] != "JUP"@[0]);
    assert("IMX"@[0] != "WIF"@[0]);
    assert("IMX"@[0] != "STX"@[0]);
    assert("IMX"@[0] != "WLD"@[0]);
    assert("IMX"@[0] != "ENA"@[0]);
    assert("IMX"@[0] != "TAO"@[0]);
    assert("IMX"@[0] != "FET"@[0]);
    assert("AAVE"@[0] != "DOGE"@[0]);
    assert("AAVE"@[1] != "AVAX"@[1]);
    assert("AAVE"@[0] != "LINK"@[0]);
    assert("AAVE"@[0] != "DYDX"@[0]);
    assert("AAVE"@[1] != "ATOM"@[1]);
    assert("AAVE"@[0] != "NEAR"@[0]);
    assert("AAVE"@[0] != "ORDI"@[0]);
    assert("AAVE"@[0] != "BONK"@[0]);
    assert("AAVE"@[0] != "PEPE"@[0]);
    assert("AAVE"@[0] != "BLUR"@[0]);
    assert("AAVE"@[1] != "ARKM"@[1]);
    assert("FLOKI"@[0] != "ETHFI"@[0]);
    assert("GALA"@[0] != "DOGE"@[0]);
    assert("GALA"@[0] != "AVAX"@[0]);
    assert("GALA"@[0] != "LINK"@[0]);
    assert("GALA"@[0] != "DYDX"@[0]);
    assert("GALA"@[0] != "ATOM"@[0]);
    assert("GALA"@[0] != "NEAR"@[0]);
    assert("GALA"@[0] != "ORDI"@[0]);
    assert("GALA"@[0] != "BONK"@[0]);
    assert("GALA"@[0] != "PEPE"@[0]);
    assert("GALA"@[0] != "BLUR"@[0]);
    assert("GALA"@[0] != "ARKM"@[0]);
    assert("GALA"@[0] != "AAVE"@[0]);
    assert("SAND"@[0] != "DOGE"@[0]);
    assert("SAND"@[0] != "AVAX"@[0]);
    assert("SAND"@[0] != "LINK"@[0]);
    assert("SAND"@[0] != "DYDX"@[0]);
    assert("SAND"@[0] != "ATOM"@[0]);
    assert("SAND"@[0] != "NEAR"@[0]);
    assert("SAND"@[0] != "ORDI"@[0]);
    assert("SAND"@[0] != "BONK"@[0]);
    assert("SAND"@[0] != "PEPE"@[0]);
    assert("SAND"@[0] != "BLUR"@[0]);
    assert("SAND"@[0] != "ARKM"@[0]);
    assert("SAND"@[0] != "AAVE"@[0]);
    assert("SAND"@[0] != "GALA"@[0]);
    assert("MANA"@[0] != "DOGE"@[0]);
    assert("MANA"@[0] != "AVAX"@[0]);
    assert("MANA"@[0] != "LINK"@[0]);
    assert("MANA"@[0] != "DYDX"@[0]);
    assert("MANA"@[0] != "ATOM"@[0]);
    assert("MANA"@[0] != "NEAR"@[0]);
    assert("MANA"@[0] != "ORDI"@[0]);
    assert("MANA"@[0] != "BONK"@[0]);
    assert("MANA"@[0] != "PEPE"@[0]);
    assert("MANA"@[0] != "BLUR"@[0]);
    assert("MANA"@[0] != "ARKM"@[0]);
    assert("MANA"@[0] != "AAVE"@[0]);
    assert("MANA"@[0] != "GALA"@[0]);
    assert("MANA"@[0] != "SAND"@[0]);
    assert("AXS"@[0] != "BTC"@[0]);
    assert("AXS"@[0] != "ETH"@[0]);
    assert("AXS"@[0] != "SOL"@[0]);
    assert("AXS"@[1] != "ARB"@[1]);
    assert("AXS"@[1] != "APE"@[1]);
    assert("AXS"@[0] != "FTM"@[0]);
    assert("AXS"@[0] != "INJ"@[0]);
    assert("AXS"@[0] != "SUI"@[0]);
    assert("AXS"@[1] != "APT"@[1]);
    assert("AXS"@[0] != "TIA"@[0]);
    assert("AXS"@[0] != "SEI"@[0]);
    assert("AXS"@[0] != "JUP"@[0]);
    assert("AXS"@[0] != "WIF"@[0]);
    assert("AXS"@[0] != "STX"@[0]);
    assert("AXS"@[0] != "WLD"@[0]);
    assert("AXS"@[0] != "ENA"@[0]);
    assert("AXS"@[0] != "TAO"@[0]);
    assert("AXS"@[0] != "FET"@[0]);
    assert("AXS"@[0] != "IMX"@[0]);
    assert("LDO"@[0] != "BTC"@[0]);
    assert("LDO"@[0] != "ETH"@[0]);
    assert("LDO"@[0] != "SOL"@[0]);
    assert("LDO"@[0] != "ARB"@[0]);
    assert("LDO"@[0] != "APE"@[0]);
    assert("LDO"@[0] != "FTM"@[0]);
    assert("LDO"@[0] != "INJ"@[0]);
    assert("LDO"@[0] != "SUI"@[0]);
    assert("LDO"@[0] != "APT"@[0]);
    assert("LDO"@[0] != "TIA"@[0]);
    assert("LDO"@[0] != "SEI"@[0]);
    assert("LDO"@[0] != "JUP"@[0]);
    assert("LDO"@[0] != "WIF"@[0]);
    assert("LDO"@[0] != "STX"@[0]);
    assert("LDO"@[0] != "WLD"@[0]);
    assert("LDO"@[0] != "ENA"@[0]);
    assert("LDO"@[0] != "TAO"@[0]);
    assert("LDO"@[0] != "FET"@[0]);
    assert("LDO"@[0] != "IMX"@[0]);
    assert("LDO"@[0] != "AXS"@[0]);
    assert forall|i: int| 0 <= i < 42 implies #[trigger] builtin_asset_id(builtin_universe()[i]) == Some(i as u32) by {}
}

fn builtin_id(u: &str) -> (r: Option<u32>)
    ensures
        r == builtin_asset_id(u@),
{
    if str_eq(u, "BTC") { Some(0) }
    else if str_eq(u, "ETH") { Some(1) }
    else if str_eq(u, "SOL") { Some(2) }
    else if str_eq(u, "DOGE") { Some(3) }
    else if str_eq(u, "ARB") { Some(4) }
    else if str_eq(u, "AVAX") { Some(5) }
    else if str_eq(u, "LINK") { Some(6) }
    else if str_eq(u, "APE") { Some(7) }
    else if str_eq(u, "DYDX") { Some(8) }
    else if str_eq(u, "ATOM") { Some(9) }
    else if str_eq(u, "NEAR") { Some(10) }
    else if str_eq(u, "FTM") { Some(11) }
    else if str_eq(u, "INJ") { Some(12) }
    else if str_eq(u, "SUI") { Some(13) }
    else if str_eq(u, "APT") { Some(14) }
    else if str_eq(u, "TIA") { Some(15) }
    else if str_eq(u, "SEI") { Some(16) }
    else if str_eq(u, "JUP") { Some(17) }
    else if str_eq(u, "ORDI") { Some(18) }
    else if str_eq(u, "WIF") { Some(19) }
    else if str_eq(u, "STX") { Some(20) }
    else if str_eq(u, "BONK") { Some(21) }
    else if str_eq(u, "PEPE") || str_eq(u, "1000PEPE") { Some(22) }
    else if str_eq(u, "WLD") { Some(23) }
    else if str_eq(u, "BLUR") { Some(24) }
    else if str_eq(u, "PENDLE") { Some(25) }
    else if str_eq(u, "ETHFI") { Some(26) }
    else if str_eq(u, "ENA") { Some(27) }
    else if str_eq(u, "W") { Some(28) }
    else if str_eq(u, "TAO") { Some(29) }
    else if str_eq(u, "RENDER") { Some(30) }
    else if str_eq(u, "FET") { Some(31) }
    else if str_eq(u, "ARKM") { Some(32) }
    else if str_eq(u, "IMX") { Some(33) }
    else if str_eq(u, "AAVE") { Some(34) }
    else if str_eq(u, "FLOKI") || str_eq(u, "1000FLOKI") { Some(35) }
    else if str_eq(u, "GALA") { Some(36) }
    else if str_eq(u, "SAND") { Some(37) }
    else if str_eq(u, "MANA") { Some(38) }
    else if str_eq(u, "AXS") { Some(39) }
    else if str_eq(u, "OP") { Some(40) }
    else if str_eq(u, "LDO") { Some(41) }
    else { None }
}

/// The built-in asset id of a coin, looked up by its uppercase name; an
/// unknown coin has none (it is refused, never sent as BTC).
pub fn fallback_asset_id(coin: &str) -> (r: Option<u32>)
    ensures
        r == builtin_asset_id(uppercase_of(coin@)),
{
    let u = to_upper(coin);
    builtin_id(u.as_str())
}

/// The id the cached index gives a coin, looked up by its uppercase name.
pub fn cached_asset_id(cache: &Option<AssetIndex>, coin: &str) -> (r: Option<u32>)
    ensures
        r == match *cache {
            Some(c) => match last_index_of(c@, uppercase_of(coin@)) {
                Some(j) => Some(j as u32),
                None => None::<u32>,
            },
            None => None::<u32>,
        },
{
    match cache {
        Some(c) => {
            let u = to_upper(coin);
            c.id_of(u.as_str())
        },
        None => None,
    }
}

/// The id of a coin the cache did not have, once the index was fetched
/// again (`Some`) or fetching failed (`None`).
pub fn refetched_asset_id(refetched: &Option<AssetIndex>, coin: &str) -> (r: Option<u32>)
    ensures
        r == match *refetched {
            Some(f) => match last_index_of(f@, uppercase_of(coin@)) {
                Some(j) => Some(j as u32),
                None => None::<u32>,
            },
            None => builtin_asset_id(uppercase_of(coin@)),
        },
{
    match refetched {
        Some(f) => {
            let u = to_upper(coin);
            f.id_of(u.as_str())
        },
        None => fallback_asset_id(coin),
    }
}

} // verus!
