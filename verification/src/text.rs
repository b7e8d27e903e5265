//! Decimal rendering of unsigned numbers, used for ports and for the
//! timestamp token.

use vstd::prelude::*;

verus! {

/// The character for one decimal digit.
pub open spec fn digit_char(d: int) -> char {
    if d == 0 {
        '0'
    } else if d == 1 {
        '1'
    } else if d == 2 {
        '2'
    } else if d == 3 {
        '3'
    } else if d == 4 {
        '4'
    } else if d == 5 {
        '5'
    } else if d == 6 {
        '6'
    } else if d == 7 {
        '7'
    } else if d == 8 {
        '8'
    } else {
        '9'
    }
}

/// Decimal rendering of a non-negative number, most significant digit first,
/// without leading zeros.
pub open spec fn dec_seq(n: int) -> Seq<char>
    decreases n,
{
    if n < 10 {
        seq![digit_char(n)]
    } else {
        dec_seq(n / 10) + seq![digit_char(n % 10)]
    }
}

/// A number below 100 rendered as exactly two digits.
pub open spec fn pad2_seq(n: int) -> Seq<char> {
    seq![digit_char(n / 10), digit_char(n % 10)]
}

/// A number below 10000 rendered as exactly four digits.
pub open spec fn pad4_seq(n: int) -> Seq<char> {
    seq![
        digit_char(n / 1000),
        digit_char((n / 100) % 10),
        digit_char((n / 10) % 10),
        digit_char(n % 10),
    ]
}

/// Decimal rendering of a possibly negative number: a minus sign followed by
/// the digits of its magnitude.
pub open spec fn dec_signed_seq(n: int) -> Seq<char> {
    if n < 0 {
        seq!['-'] + dec_seq(-n)
    } else {
        dec_seq(n)
    }
}

/// One decimal digit as a string slice.
pub fn digit_str(d: u64) -> (r: &'static str)
    requires
        d <= 9,
    ensures
        r@ == seq![digit_char(d as int)],
{
    proof {
        reveal_strlit("0");
        reveal_strlit("1");
        reveal_strlit("2");
        reveal_strlit("3");
        reveal_strlit("4");
        reveal_strlit("5");
        reveal_strlit("6");
        reveal_strlit("7");
        reveal_strlit("8");
        reveal_strlit("9");
    }
    let r = match d {
        0 => "0",
        1 => "1",
        2 => "2",
        3 => "3",
        4 => "4",
        5 => "5",
        6 => "6",
        7 => "7",
        8 => "8",
        _ => "9",
    };
    proof {
        assert(r@ =~= seq![digit_char(d as int)]);
    }
    r
}

/// Decimal rendering of `n`, without leading zeros.
pub fn dec_string(n: u64) -> (r: String)
    ensures
        r@ == dec_seq(n as int),
    decreases n,
{
    if n < 10 {
        String::from_str(digit_str(n))
    } else {
        let mut s = dec_string(n / 10);
        s.append(digit_str(n % 10));
        proof {
            assert(s@ =~= dec_seq(n as int));
        }
        s
    }
}

/// Decimal rendering of `n`, with a minus sign where `n` is negative.
pub fn dec_string_signed(n: i64) -> (r: String)
    ensures
        r@ == dec_signed_seq(n as int),
{
    if n >= 0 {
        dec_string(n as u64)
    } else {
        let magnitude: u64 = (-(n as i128)) as u64;
        proof {
            reveal_strlit("-");
            assert(magnitude as int == -(n as int));
        }
        let mut s = String::from_str("-");
        s.append(dec_string(magnitude).as_str());
        proof {
            assert(s@ =~= dec_signed_seq(n as int));
        }
        s
    }
}

/// `n` rendered as exactly two digits.
pub fn pad2_string(n: u64) -> (r: String)
    requires
        n < 100,
    ensures
        r@ == pad2_seq(n as int),
{
    let mut s = String::from_str(digit_str(n / 10));
    s.append(digit_str(n % 10));
    proof {
        assert(s@ =~= pad2_seq(n as int));
    }
    s
}

/// `n` rendered as exactly four digits.
pub fn pad4_string(n: u64) -> (r: String)
    requires
        n < 10000,
    ensures
        r@ == pad4_seq(n as int),
{
    let mut s = String::from_str(digit_str(n / 1000));
    s.append(digit_str((n / 100) % 10));
    s.append(digit_str((n / 10) % 10));
    s.append(digit_str(n % 10));
    proof {
        assert(s@ =~= pad4_seq(n as int));
    }
    s
}

/// Strict lexicographic order on equal-length character sequences: the two
/// agree before some position and differ there in `a`'s favour.
pub open spec fn lex_less(a: Seq<char>, b: Seq<char>) -> bool {
    &&& a.len() == b.len()
    &&& exists|k: int|
        0 <= k < a.len() && (forall|j: int| 0 <= j < k ==> a[j] == b[j]) && a[k] < b[k]
}

/// A lexicographically smaller prefix decides the comparison, whatever
/// equal-length remainders follow.
pub proof fn lemma_lex_prefix_less(a1: Seq<char>, a2: Seq<char>, b1: Seq<char>, b2: Seq<char>)
    requires
        a1.len() == b1.len(),
        a2.len() == b2.len(),
        lex_less(a1, b1),
    ensures
        lex_less(a1 + a2, b1 + b2),
{
    let k = choose|k: int|
        0 <= k < a1.len() && (forall|j: int| 0 <= j < k ==> a1[j] == b1[j]) && a1[k] < b1[k];
    assert(forall|j: int| 0 <= j < k ==> (a1 + a2)[j] == (b1 + b2)[j]);
    assert((a1 + a2)[k] < (b1 + b2)[k]);
}

/// An equal prefix defers the comparison to the remainders.
pub proof fn lemma_lex_prefix_equal(p: Seq<char>, a: Seq<char>, b: Seq<char>)
    requires
        lex_less(a, b),
    ensures
        lex_less(p + a, p + b),
{
    let k = choose|k: int|
        0 <= k < a.len() && (forall|j: int| 0 <= j < k ==> a[j] == b[j]) && a[k] < b[k];
    let w = p.len() + k;
    assert(forall|j: int| 0 <= j < w ==> (p + a)[j] == (p + b)[j]);
    assert((p + a)[w] < (p + b)[w]);
}

/// Smaller digits render as smaller characters.
pub proof fn lemma_digit_char_order(a: int, b: int)
    requires
        0 <= a <= 9,
        0 <= b <= 9,
        a < b,
    ensures
        digit_char(a) < digit_char(b),
{
}

/// Two-digit rendering respects numeric order.
#[verifier::rlimit(30)]
pub proof fn lemma_pad2_order(a: int, b: int)
    requires
        0 <= a < b < 100,
    ensures
        lex_less(pad2_seq(a), pad2_seq(b)),
{
    if a / 10 < b / 10 {
        lemma_digit_char_order(a / 10, b / 10);
        assert(pad2_seq(a)[0] < pad2_seq(b)[0]);
    } else {
        assert(a / 10 == b / 10);
        assert(a % 10 < b % 10);
        lemma_digit_char_order(a % 10, b % 10);
        assert(pad2_seq(a)[0] == pad2_seq(b)[0]);
        assert(pad2_seq(a)[1] < pad2_seq(b)[1]);
    }
}

/// Four-digit rendering respects numeric order.
#[verifier::rlimit(60)]
pub proof fn lemma_pad4_order(a: int, b: int)
    requires
        0 <= a < b < 10000,
    ensures
        lex_less(pad4_seq(a), pad4_seq(b)),
{
    if a / 1000 < b / 1000 {
        lemma_digit_char_order(a / 1000, b / 1000);
        assert(pad4_seq(a)[0] < pad4_seq(b)[0]);
    } else if (a / 100) % 10 < (b / 100) % 10 {
        assert(a / 1000 == b / 1000);
        lemma_digit_char_order((a / 100) % 10, (b / 100) % 10);
        assert(pad4_seq(a)[0] == pad4_seq(b)[0]);
        assert(pad4_seq(a)[1] < pad4_seq(b)[1]);
    } else if (a / 10) % 10 < (b / 10) % 10 {
        assert(a / 100 == b / 100);
        lemma_digit_char_order((a / 10) % 10, (b / 10) % 10);
        assert(pad4_seq(a)[0] == pad4_seq(b)[0]);
        assert(pad4_seq(a)[1] == pad4_seq(b)[1]);
        assert(pad4_seq(a)[2] < pad4_seq(b)[2]);
    } else {
        assert(a / 10 == b / 10);
        assert(a % 10 < b % 10);
        lemma_digit_char_order(a % 10, b % 10);
        assert(pad4_seq(a)[0] == pad4_seq(b)[0]);
        assert(pad4_seq(a)[1] == pad4_seq(b)[1]);
        assert(pad4_seq(a)[2] == pad4_seq(b)[2]);
        assert(pad4_seq(a)[3] < pad4_seq(b)[3]);
    }
}

} // verus!
