//! Character-level text helpers shared by the planners: exact equality and
//! substring search over the characters of a text.

use vstd::prelude::*;
use vstd::string::{StrSliceExecFns, StringExecFns};

verus! {

/// `needle` occurs in `hay` at position `i`.
pub open spec fn occurs_at(hay: Seq<char>, needle: Seq<char>, i: int) -> bool {
    0 <= i && i + needle.len() <= hay.len() && hay.subrange(i, i + needle.len()) == needle
}

/// `needle` occurs somewhere in `hay` (the empty text occurs everywhere).
pub open spec fn contains_chars(hay: Seq<char>, needle: Seq<char>) -> bool {
    exists|i: int| occurs_at(hay, needle, i)
}

/// Whether two texts hold the same characters.
pub fn text_eq(a: &str, b: &str) -> (r: bool)
    ensures
        r == (a@ == b@),
{
    let n = a.unicode_len();
    let m = b.unicode_len();
    if n != m {
        return false;
    }
    for i in 0..n
        invariant
            n == a@.len(),
            m == b@.len(),
            n == m,
            forall|j: int| 0 <= j < i ==> a@[j] == b@[j],
    {
        if a.get_char(i) != b.get_char(i) {
            return false;
        }
    }
    assert(a@ =~= b@);
    true
}

/// Whether `needle` occurs at position `i` of `hay`.
fn matches_at(hay: &str, needle: &str, i: usize, hay_len: usize, needle_len: usize) -> (r: bool)
    requires
        hay_len == hay@.len(),
        needle_len == needle@.len(),
        i + needle_len <= hay_len,
    ensures
        r == occurs_at(hay@, needle@, i as int),
{
    for k in 0..needle_len
        invariant
            hay_len == hay@.len(),
            needle_len == needle@.len(),
            i + needle_len <= hay_len,
            forall|j: int| 0 <= j < k ==> hay@[i + j] == needle@[j],
    {
        if hay.get_char(i + k) != needle.get_char(k) {
            assert(hay@.subrange(i as int, i + needle_len)[k as int] != needle@[k as int]);
            return false;
        }
    }
    assert(hay@.subrange(i as int, i + needle_len) =~= needle@);
    true
}

/// Whether `needle` occurs in `hay`, as `str::contains` answers it.
pub fn text_contains(hay: &str, needle: &str) -> (r: bool)
    ensures
        r == contains_chars(hay@, needle@),
{
    let hay_len = hay.unicode_len();
    let needle_len = needle.unicode_len();
    if needle_len > hay_len {
        assert forall|i: int| !occurs_at(hay@, needle@, i) by {}
        return false;
    }
    let last = hay_len - needle_len;
    for i in 0..last
        invariant
            hay_len == hay@.len(),
            needle_len == needle@.len(),
            needle_len <= hay_len,
            last == hay_len - needle_len,
            forall|j: int| 0 <= j < i ==> !occurs_at(hay@, needle@, j),
    {
        if matches_at(hay, needle, i, hay_len, needle_len) {
            return true;
        }
    }
    let found = matches_at(hay, needle, last, hay_len, needle_len);
    if !found {
        assert forall|j: int| !occurs_at(hay@, needle@, j) by {
            if 0 <= j < last {
            }
        }
    }
    found
}

} // verus!

verus! {

/// The character of a decimal digit.
pub open spec fn digit_char(d: nat) -> char {
    ((48 + d) as u32) as char
}

/// The decimal digits of `n`, most significant first, without leading zeros.
pub open spec fn decimal_digits(n: nat) -> Seq<char>
    decreases n,
{
    if n < 10 {
        seq![digit_char(n)]
    } else {
        decimal_digits(n / 10).push(digit_char(n % 10))
    }
}

/// The decimal form of `n`: a minus sign for negatives, then the digits of `|n|`.
pub open spec fn decimal_text(n: int) -> Seq<char> {
    if n < 0 {
        seq!['-'] + decimal_digits((-n) as nat)
    } else {
        decimal_digits(n as nat)
    }
}

proof fn lemma_digit_char(d: nat)
    requires
        d < 10,
    ensures
        digit_char(d) as u32 == 48 + d,
        digit_char(d) != '-',
{
}

proof fn lemma_decimal_digits_shape(n: nat)
    ensures
        decimal_digits(n).len() >= 1,
        n >= 10 ==> decimal_digits(n).len() >= 2,
        decimal_digits(n)[0] != '-',
    decreases n,
{
    if n < 10 {
        lemma_digit_char(n);
    } else {
        lemma_decimal_digits_shape(n / 10);
        lemma_digit_char(n % 10);
    }
}

/// Distinct numbers have distinct digits.
proof fn lemma_decimal_digits_injective(a: nat, b: nat)
    requires
        decimal_digits(a) == decimal_digits(b),
    ensures
        a == b,
    decreases a,
{
    lemma_decimal_digits_shape(a);
    lemma_decimal_digits_shape(b);
    if a < 10 && b < 10 {
        lemma_digit_char(a);
        lemma_digit_char(b);
        assert(decimal_digits(a)[0] == decimal_digits(b)[0]);
    } else if a >= 10 && b >= 10 {
        let da = decimal_digits(a);
        let db = decimal_digits(b);
        assert(da.last() == db.last());
        lemma_digit_char(a % 10);
        lemma_digit_char(b % 10);
        assert(da.drop_last() =~= decimal_digits(a / 10));
        assert(db.drop_last() =~= decimal_digits(b / 10));
        lemma_decimal_digits_injective(a / 10, b / 10);
    } else {
        assert(decimal_digits(a).len() != decimal_digits(b).len());
    }
}

/// Distinct integers have distinct decimal forms.
pub proof fn decimal_text_injective(a: int, b: int)
    ensures
        decimal_text(a) == decimal_text(b) ==> a == b,
{
    if decimal_text(a) == decimal_text(b) {
        if a < 0 && b < 0 {
            assert(decimal_text(a).drop_first() =~= decimal_digits((-a) as nat));
            assert(decimal_text(b).drop_first() =~= decimal_digits((-b) as nat));
            lemma_decimal_digits_injective((-a) as nat, (-b) as nat);
        } else if a >= 0 && b >= 0 {
            lemma_decimal_digits_injective(a as nat, b as nat);
        } else if a < 0 {
            lemma_decimal_digits_shape(b as nat);
            assert(decimal_text(a)[0] == '-');
        } else {
            lemma_decimal_digits_shape(a as nat);
            assert(decimal_text(b)[0] == '-');
        }
    }
}

/// The one-character text of the decimal digit `d`.
fn digit_text(d: u64) -> (t: &'static str)
    requires
        d < 10,
    ensures
        t@ == seq![digit_char(d as nat)],
{
    proof {
        reveal_strlit("0");
        reveal_strlit("1");
        reveal_strlit("2");
        reveal_strlit("3");
        reveal_strlit("4");
        reveal_strlit("5");
        reveal_strlit("6");
        reveal_strlit("7");
        reveal_strlit("8");
        reveal_strlit("9");
    }
    if d == 0 {
        "0"
    } else if d == 1 {
        "1"
    } else if d == 2 {
        "2"
    } else if d == 3 {
        "3"
    } else if d == 4 {
        "4"
    } else if d == 5 {
        "5"
    } else if d == 6 {
        "6"
    } else if d == 7 {
        "7"
    } else if d == 8 {
        "8"
    } else {
        "9"
    }
}

/// `s` followed by the decimal digits of `m`.
fn append_digits(s: String, m: u64) -> (r: String)
    ensures
        r@ == s@ + decimal_digits(m as nat),
    decreases m,
{
    if m < 10 {
        let r = s.concat(digit_text(m));
        assert(r@ =~= s@ + decimal_digits(m as nat));
        r
    } else {
        let head = append_digits(s, m / 10);
        let r = head.concat(digit_text(m % 10));
        assert(r@ =~= s@ + decimal_digits(m as nat));
        r
    }
}

/// The decimal form of `n`, as `i64`'s `Display` writes it: a minus sign for
/// negatives, then the digits without leading zeros.
pub fn i64_to_text(n: i64) -> (s: String)
    ensures
        s@ == decimal_text(n as int),
{
    if n < 0 {
        let magnitude: u64 = (-(n as i128)) as u64;
        let r = append_digits("-".to_owned(), magnitude);
        proof {
            reveal_strlit("-");
        }
        assert(r@ =~= decimal_text(n as int));
        r
    } else {
        let r = append_digits(String::new(), n as u64);
        assert(r@ =~= decimal_text(n as int));
        r
    }
}

} // verus!
