//! Small string helpers shared by the label parsers.

use vstd::prelude::*;

verus! {

/// Character-by-character equality of two string slices.
pub fn str_eq(a: &str, b: &str) -> (r: bool)
    ensures
        r == (a@ == b@),
{
    let n = a.unicode_len();
    let m = b.unicode_len();
    if n != m {
        return false;
    }
    let mut i: usize = 0;
    while i < n
        invariant
            n == a@.len(),
            m == b@.len(),
            n == m,
            i <= n,
            forall|j: int| 0 <= j < i ==> a@[j] == b@[j],
        decreases n - i,
    {
        if a.get_char(i) != b.get_char(i) {
            return false;
        }
        i = i + 1;
    }
    assert(a@ =~= b@);
    true
}

} // verus!

verus! {

/// The character of a decimal digit.
pub open spec fn digit_char(d: int) -> char {
    if d == 0 {
        '0'
    } else if d == 1 {
        '1'
    } else if d == 2 {
        '2'
    } else if d == 3 {
        '3'
    } else if d == 4 {
        '4'
    } else if d == 5 {
        '5'
    } else if d == 6 {
        '6'
    } else if d == 7 {
        '7'
    } else if d == 8 {
        '8'
    } else {
        '9'
    }
}

/// Decimal notation of a natural number, most significant digit first,
/// without leading zeros.
pub open spec fn decimal(n: nat) -> Seq<char>
    decreases n,
{
    if n < 10 {
        seq![digit_char(n as int)]
    } else {
        decimal(n / 10) + seq![digit_char((n % 10) as int)]
    }
}

/// Decimal notation of an integer, with a leading minus sign when negative.
pub open spec fn signed_decimal(i: int) -> Seq<char> {
    if i < 0 {
        seq!['-'] + decimal((-i) as nat)
    } else {
        decimal(i as nat)
    }
}

fn digit_str(d: u64) -> (s: &'static str)
    requires
        d < 10,
    ensures
        s@ == seq![digit_char(d as int)],
{
    if d == 0 {
        proof { reveal_strlit("0"); assert("0"@ =~= seq!['0']); }
        "0"
    } else if d == 1 {
        proof { reveal_strlit("1"); assert("1"@ =~= seq!['1']); }
        "1"
    } else if d == 2 {
        proof { reveal_strlit("2"); assert("2"@ =~= seq!['2']); }
        "2"
    } else if d == 3 {
        proof { reveal_strlit("3"); assert("3"@ =~= seq!['3']); }
        "3"
    } else if d == 4 {
        proof { reveal_strlit("4"); assert("4"@ =~= seq!['4']); }
        "4"
    } else if d == 5 {
        proof { reveal_strlit("5"); assert("5"@ =~= seq!['5']); }
        "5"
    } else if d == 6 {
        proof { reveal_strlit("6"); assert("6"@ =~= seq!['6']); }
        "6"
    } else if d == 7 {
        proof { reveal_strlit("7"); assert("7"@ =~= seq!['7']); }
        "7"
    } else if d == 8 {
        proof { reveal_strlit("8"); assert("8"@ =~= seq!['8']); }
        "8"
    } else {
        proof { reveal_strlit("9"); assert("9"@ =~= seq!['9']); }
        "9"
    }
}

/// Append the decimal notation of `n`.
pub fn push_decimal(s: &mut String, n: u64)
    ensures
        final(s)@ == old(s)@ + decimal(n as nat),
    decreases n,
{
    let ghost start = s@;
    if n >= 10 {
        push_decimal(s, n / 10);
    }
    s.append(digit_str(n % 10));
    proof {
        if n >= 10 {
            assert(s@ =~= start + (decimal((n / 10) as nat) + seq![digit_char((n % 10) as int)]));
        } else {
            assert(s@ =~= start + decimal(n as nat));
        }
    }
}

/// Append the decimal notation of `i`, with a minus sign when negative.
pub fn push_signed_decimal(s: &mut String, i: i64)
    ensures
        final(s)@ == old(s)@ + signed_decimal(i as int),
{
    let ghost start = s@;
    if i < 0 {
        proof { reveal_strlit("-"); assert("-"@ =~= seq!['-']); }
        s.append("-");
        let m: u64 = ((-(i + 1)) as u64) + 1;
        push_decimal(s, m);
        assert(s@ =~= start + (seq!['-'] + decimal((-i) as nat)));
    } else {
        push_decimal(s, i as u64);
    }
}

/// A string with the text of a literal.
pub fn text(s: &str) -> (r: String)
    ensures
        r@ == s@,
{
    let mut r = String::new();
    r.append(s);
    assert(r@ =~= s@);
    r
}

} // verus!
