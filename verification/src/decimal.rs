//! Decimal numbers as the GraphQL API hands them out: a mantissa and a number
//! of decimal places, as `rust_decimal::Decimal` stores them.
use vstd::prelude::*;

verus! {

/// The largest mantissa magnitude that `rust_decimal::Decimal` can hold: 96 bits.
pub const MAX_MANTISSA: i128 = 0xFFFF_FFFF_FFFF_FFFF_FFFF_FFFFi128;

/// The largest number of decimal places that `rust_decimal::Decimal` can hold.
pub const MAX_SCALE: u32 = 28u32;

/// The number `mantissa * 10^(-scale)`.
#[derive(Clone, Copy, Debug, PartialEq, Eq, Structural)]
pub struct Decimal {
    pub mantissa: i128,
    pub scale: u32,
}

pub open spec fn pow10(n: nat) -> int
    decreases n,
{
    if n == 0 {
        1
    } else {
        10 * pow10((n - 1) as nat)
    }
}

impl Decimal {
    /// The ranges in which `rust_decimal::Decimal` stores its parts.
    pub open spec fn wf(self) -> bool {
        &&& -MAX_MANTISSA <= self.mantissa <= MAX_MANTISSA
        &&& self.scale <= MAX_SCALE
    }

    /// The decimal denotes the rational `num / den`.
    pub open spec fn denotes(self, num: int, den: int) -> bool {
        self.mantissa * den == num * pow10(self.scale as nat)
    }

    /// The integer `v`, as `Decimal::from` builds it from an integer.
    pub open spec fn integer(v: int) -> Decimal {
        Decimal { mantissa: v as i128, scale: 0 }
    }
}

/// What `rust_decimal::Decimal::checked_div` returns when it succeeds, on the
/// two decimals given as mantissa and scale.
pub uninterp spec fn decimal_quotient(dividend: Decimal, divisor: Decimal) -> Decimal;

/// `rust_decimal::Decimal::checked_div`. It is `None` when the divisor is
/// zero, and when the quotient overflows; the quotient of two integers by a
/// divisor of magnitude at least one is no larger than the dividend, so it
/// does not overflow. Otherwise it is a well-formed decimal: the rounded
/// quotient, which is left to the name `decimal_quotient`.
#[verifier::external_body]
pub(crate) fn decimal_checked_div(dividend: Decimal, divisor: Decimal) -> (r: Option<Decimal>)
    requires
        dividend.wf(),
        divisor.wf(),
    ensures
        divisor.mantissa == 0 ==> r is None,
        dividend.scale == 0 && divisor.scale == 0 && divisor.mantissa != 0 ==> r is Some,
        r matches Some(q) ==> q == decimal_quotient(dividend, divisor) && q.wf(),
{
    let a = rust_decimal::Decimal::from_i128_with_scale(dividend.mantissa, dividend.scale);
    let b = rust_decimal::Decimal::from_i128_with_scale(divisor.mantissa, divisor.scale);
    match a.checked_div(b) {
        Some(q) => Some(Decimal { mantissa: q.mantissa(), scale: q.scale() }),
        None => None,
    }
}

/// The decimal of a commission rate stored as parts per hundred thousand:
/// `AmountFraction::new_unchecked(parts)` turned into a `rust_decimal::Decimal`
/// through `PartsPerHundredThousands`, which concordium_base builds with
/// `Decimal::new(parts, 5)`.
#[verifier::external_body]
pub(crate) fn amount_fraction_decimal(parts: u32) -> (d: Decimal)
    ensures
        d.mantissa == parts,
        d.scale == 5,
{
    let fraction = concordium_rust_sdk::types::AmountFraction::new_unchecked(parts);
    let ppht = concordium_rust_sdk::types::PartsPerHundredThousands::from(fraction);
    let d = rust_decimal::Decimal::from(ppht);
    Decimal { mantissa: d.mantissa(), scale: d.scale() }
}

/// The text of `dividend / divisor` as `BigDecimal` computes the quotient and
/// `Display` writes it.
pub uninterp spec fn bigdecimal_quotient_text(dividend: i128, divisor: i64) -> Seq<char>;

/// `BigDecimal::from(dividend) / divisor` (bigdecimal, as sqlx re-exports it),
/// written out by `Display`. The text is left to the name
/// `bigdecimal_quotient_text`; dividing by zero panics, so it is ruled out.
#[verifier::external_body]
pub(crate) fn bigdecimal_quotient(dividend: i128, divisor: i64) -> (r: String)
    requires
        divisor != 0,
    ensures
        r@ == bigdecimal_quotient_text(dividend, divisor),
{
    (sqlx::types::BigDecimal::from(dividend) / divisor).to_string()
}

/// What `<rust_decimal::Decimal as FromStr>::from_str` reads from a text: the
/// decimal as mantissa and scale, or the text of its error.
pub uninterp spec fn decimal_text_parse(text: Seq<char>) -> Result<Decimal, Seq<char>>;

/// `<rust_decimal::Decimal as FromStr>::from_str`. What it reads is left to
/// the name `decimal_text_parse`; a decimal that it reads is well-formed.
#[verifier::external_body]
pub(crate) fn parse_decimal(text: &str) -> (r: Result<Decimal, String>)
    ensures
        r matches Ok(d) ==> (decimal_text_parse(text@) matches Ok(v) && v == d && d.wf()),
        r matches Err(e) ==> (decimal_text_parse(text@) matches Err(m) && m == e@),
{
    match text.parse::<rust_decimal::Decimal>() {
        Ok(d) => Ok(Decimal { mantissa: d.mantissa(), scale: d.scale() }),
        Err(e) => Err(e.to_string()),
    }
}

} // verus!
