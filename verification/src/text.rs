//! Decimal text of integers, as `Display` writes it and `FromStr` reads it.
use vstd::prelude::*;

verus! {

/// The character of a decimal digit `d < 10`.
pub open spec fn digit_char(d: nat) -> char {
    ((d + '0' as nat) as u32) as char
}

/// The decimal digits of `n`, most significant first, without leading zeros.
pub open spec fn digits_text(n: nat) -> Seq<char>
    decreases n,
{
    if n < 10 {
        seq![digit_char(n)]
    } else {
        digits_text(n / 10).push(digit_char(n % 10))
    }
}

/// How `Display` writes an integer: a `-` for negative values, then the digits.
pub open spec fn decimal_text(v: int) -> Seq<char> {
    if v < 0 {
        seq!['-'] + digits_text((-v) as nat)
    } else {
        digits_text(v as nat)
    }
}

pub open spec fn is_digit(c: char) -> bool {
    '0' <= c && c <= '9'
}

pub open spec fn all_digits(s: Seq<char>) -> bool {
    forall|i: int| 0 <= i < s.len() ==> is_digit(#[trigger] s[i])
}

/// The value of a sequence of decimal digits, most significant first.
pub open spec fn digits_value(s: Seq<char>) -> nat
    decreases s.len(),
{
    if s.len() == 0 {
        0
    } else {
        digits_value(s.drop_last()) * 10 + (s.last() as nat - '0' as nat) as nat
    }
}

/// What `FromStr` reads as a signed decimal integer: an optional `+` or `-`
/// followed by one or more digits, and nothing else.
pub open spec fn signed_decimal_value(s: Seq<char>) -> Option<int> {
    if s.len() > 0 && (s[0] == '+' || s[0] == '-') {
        let d = s.drop_first();
        if d.len() > 0 && all_digits(d) {
            if s[0] == '-' {
                Some(-(digits_value(d) as int))
            } else {
                Some(digits_value(d) as int)
            }
        } else {
            None
        }
    } else if s.len() > 0 && all_digits(s) {
        Some(digits_value(s) as int)
    } else {
        None
    }
}

/// What `i64::from_str` returns: the value when the text is a signed decimal
/// integer within the range of `i64`, `None` otherwise.
pub open spec fn parse_i64_text(s: Seq<char>) -> Option<i64> {
    match signed_decimal_value(s) {
        Some(v) => if i64::MIN <= v <= i64::MAX {
            Some(v as i64)
        } else {
            None
        },
        None => None,
    }
}

/// `i64::to_string`: the decimal text of `v`.
#[verifier::external_body]
pub(crate) fn i64_text(v: i64) -> (r: String)
    ensures
        r@ == decimal_text(v as int),
{
    v.to_string()
}

/// `<i64 as FromStr>::from_str`: `Some` of the value read from `s`, `None`
/// where std returns its `ParseIntError`.
#[verifier::external_body]
pub(crate) fn parse_i64(s: &str) -> (r: Option<i64>)
    ensures
        r == parse_i64_text(s@),
{
    s.parse::<i64>().ok()
}

proof fn lemma_digits_text_shape(n: nat)
    ensures
        digits_text(n).len() > 0,
        all_digits(digits_text(n)),
        digits_value(digits_text(n)) == n,
    decreases n,
{
    if n < 10 {
        let s = digits_text(n);
        assert(s.drop_last() =~= Seq::<char>::empty());
        assert(digits_value(s.drop_last()) == 0);
    } else {
        lemma_digits_text_shape(n / 10);
        let s = digits_text(n);
        let p = digits_text(n / 10);
        assert(s.drop_last() =~= p);
        assert forall|i: int| 0 <= i < s.len() implies is_digit(#[trigger] s[i]) by {
            if i < p.len() {
                assert(s[i] == p[i]);
            }
        }
    }
}

/// Reading back the decimal text of an `i64` gives the same value: the text
/// that `Baker.id` hands out is the identifier that `QueryBaker.baker` accepts.
pub proof fn lemma_decimal_text_round_trip(v: i64)
    ensures
        parse_i64_text(decimal_text(v as int)) == Some(v),
{
    if v < 0 {
        let n = (-(v as int)) as nat;
        lemma_digits_text_shape(n);
        let s = decimal_text(v as int);
        assert(s.drop_first() =~= digits_text(n));
    } else {
        let n = v as nat;
        lemma_digits_text_shape(n);
        let s = digits_text(n);
        assert(is_digit(s[0]));
    }
}

} // verus!
