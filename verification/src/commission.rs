//! Commission rates of a pool, stored as parts per hundred thousand.
use vstd::prelude::*;
use crate::decimal::{amount_fraction_decimal, Decimal};
use crate::error::ApiError;

verus! {

/// The commission rates of a baker pool or of passive delegation.
#[derive(Clone, Copy, Debug, PartialEq, Eq, Structural)]
pub struct CommissionRates {
    pub transaction_commission: Option<Decimal>,
    pub finalization_commission: Option<Decimal>,
    pub baking_commission: Option<Decimal>,
}

/// A stored rate read as parts per hundred thousand: `None` stays `None`, a
/// value in the range of `u32` becomes the decimal `parts / 100000`, and any
/// other value is out of range.
pub open spec fn commission_from_parts(stored: Option<i64>) -> Result<Option<Decimal>, ApiError> {
    match stored {
        None => Ok(None),
        Some(parts) => if 0 <= parts <= u32::MAX {
            Ok(Some(Decimal { mantissa: parts as i128, scale: 5 }))
        } else {
            Err(ApiError::InvalidInt)
        },
    }
}

/// The three stored rates read as commission rates; `InvalidInt` when any is
/// out of range.
pub open spec fn commission_rates_from_parts(
    transaction: Option<i64>,
    baking: Option<i64>,
    finalization: Option<i64>,
) -> Result<CommissionRates, ApiError> {
    match (
        commission_from_parts(transaction),
        commission_from_parts(baking),
        commission_from_parts(finalization),
    ) {
        (Ok(t), Ok(b), Ok(f)) => Ok(
            CommissionRates { transaction_commission: t, finalization_commission: f, baking_commission: b },
        ),
        _ => Err(ApiError::InvalidInt),
    }
}

/// Reads one stored rate (`u32::try_from`, then `AmountFraction::new_unchecked`).
pub fn commission_rate(stored: Option<i64>) -> (r: Result<Option<Decimal>, ApiError>)
    ensures
        r == commission_from_parts(stored),
        r matches Ok(Some(d)) ==> d.wf(),
        stored is None ==> r == Ok::<Option<Decimal>, ApiError>(None),
        stored matches Some(parts) ==> (0 <= parts <= u32::MAX <==> r == Ok::<Option<Decimal>, ApiError>(
            Some(Decimal { mantissa: parts as i128, scale: 5 }),
        )),
        stored matches Some(parts) ==> (!(0 <= parts <= u32::MAX) <==> r == Err::<Option<Decimal>, ApiError>(
            ApiError::InvalidInt,
        )),
{
    match stored {
        None => Ok(None),
        Some(parts) => {
            if parts < 0 || parts > 0xFFFF_FFFFi64 {
                Err(ApiError::InvalidInt)
            } else {
                let d = amount_fraction_decimal(parts as u32);
                Ok(Some(d))
            }
        },
    }
}

/// Reads the three stored rates, in the order transaction, baking,
/// finalization.
pub fn commission_rates(
    transaction: Option<i64>,
    baking: Option<i64>,
    finalization: Option<i64>,
) -> (r: Result<CommissionRates, ApiError>)
    ensures
        r == commission_rates_from_parts(transaction, baking, finalization),
{
    let transaction_commission = match commission_rate(transaction) {
        Ok(d) => d,
        Err(e) => {
            return Err(e);
        },
    };
    let baking_commission = match commission_rate(baking) {
        Ok(d) => d,
        Err(e) => {
            return Err(e);
        },
    };
    let finalization_commission = match commission_rate(finalization) {
        Ok(d) => d,
        Err(e) => {
            return Err(e);
        },
    };
    Ok(CommissionRates { transaction_commission, finalization_commission, baking_commission })
}

/// A stored rate in range reads as the fraction `parts / 100000`.
pub proof fn lemma_commission_is_fraction(parts: i64)
    requires
        0 <= parts <= u32::MAX,
    ensures
        commission_from_parts(Some(parts)) matches Ok(Some(d)) && d.denotes(parts as int, 100000) && d.wf(),
{
    reveal_with_fuel(crate::decimal::pow10, 6);
    assert(crate::decimal::pow10(5) == 100000);
}

/// The three rates are read each from its own stored value: the rates are
/// available exactly when each stored value is absent or within the range of
/// `u32`, and then each rate is its stored parts over one hundred thousand.
pub proof fn lemma_commission_rates_field_by_field(
    transaction: Option<i64>,
    baking: Option<i64>,
    finalization: Option<i64>,
)
    ensures
        commission_rates_from_parts(transaction, baking, finalization) is Ok <==> {
            &&& (transaction matches Some(t) ==> 0 <= t <= u32::MAX)
            &&& (baking matches Some(b) ==> 0 <= b <= u32::MAX)
            &&& (finalization matches Some(f) ==> 0 <= f <= u32::MAX)
        },
        commission_rates_from_parts(transaction, baking, finalization) is Err ==> commission_rates_from_parts(
            transaction,
            baking,
            finalization,
        ) == Err::<CommissionRates, ApiError>(ApiError::InvalidInt),
        commission_rates_from_parts(transaction, baking, finalization) matches Ok(r) ==> {
            &&& (transaction matches Some(t) ==> r.transaction_commission == Some(Decimal { mantissa: t as i128, scale: 5 }))
            &&& (transaction is None ==> r.transaction_commission is None)
            &&& (baking matches Some(b) ==> r.baking_commission == Some(Decimal { mantissa: b as i128, scale: 5 }))
            &&& (baking is None ==> r.baking_commission is None)
            &&& (finalization matches Some(f) ==> r.finalization_commission == Some(
                Decimal { mantissa: f as i128, scale: 5 },
            ))
            &&& (finalization is None ==> r.finalization_commission is None)
        },
{
}

} // verus!
