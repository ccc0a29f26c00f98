//! Passive delegation as the GraphQL API presents it.
use vstd::prelude::*;
use crate::commission::{commission_rates, commission_rates_from_parts, CommissionRates};
use crate::decimal::{
    bigdecimal_quotient, bigdecimal_quotient_text, decimal_text_parse, parse_decimal, Decimal,
};
use crate::error::ApiError;
use vstd::string::StringExecFns;

verus! {

/// The root of the passive delegation query.
pub struct QueryPassiveDelegation;

/// The summary of passive delegation that the database holds: the number of
/// passive delegators with a stake, the sum of their stakes (in micro CCD),
/// and the commission rates of the current payday, as parts per hundred
/// thousand.
pub struct PassiveDelegation {
    pub delegator_count: Option<i64>,
    pub delegated_stake: Option<i128>,
    pub payday_transaction_commission: Option<i64>,
    pub payday_baking_commission: Option<i64>,
    pub payday_finalization_commission: Option<i64>,
}

/// The error text when the delegated share cannot be represented as a decimal.
pub open spec fn percentage_conversion_text() -> Seq<char> {
    "Can not convert `delegated_stake_percentage` to `scalar_types::Decimal`"@
}

impl PassiveDelegation {
    pub open spec fn stake(self) -> int {
        match self.delegated_stake {
            Some(s) => s as int,
            None => 0int,
        }
    }

    /// The number of passive delegators; none stored counts as zero.
    pub fn delegator_count(&self) -> (r: i64)
        ensures
            r == match self.delegator_count {
                Some(c) => c,
                None => 0i64,
            },
    {
        match self.delegator_count {
            Some(c) => c,
            None => 0,
        }
    }

    /// The total passively delegated stake; none stored counts as zero.
    pub fn delegated_stake(&self) -> (r: i128)
        ensures
            r == self.stake(),
    {
        match self.delegated_stake {
            Some(s) => s,
            None => 0,
        }
    }

    /// The commission rates of passive delegation for the current payday.
    pub fn commission_rates(&self) -> (r: Result<CommissionRates, ApiError>)
        ensures
            r == commission_rates_from_parts(
                self.payday_transaction_commission,
                self.payday_baking_commission,
                self.payday_finalization_commission,
            ),
    {
        commission_rates(
            self.payday_transaction_commission,
            self.payday_baking_commission,
            self.payday_finalization_commission,
        )
    }

    /// The stake times 100 fits an `i128`. The stake is a sum of account
    /// stakes, which together never exceed the CCD in existence; a stake
    /// outside this range would exceed the largest total amount that the
    /// `blocks` table can hold (an `i64`) by more than 17 orders of magnitude.
    pub open spec fn stake_in_range(self) -> bool {
        i128::MIN <= self.stake() * 100 <= i128::MAX
    }

    /// Total passively delegated stake as a percentage of all CCDs in
    /// existence (`total_ccd_amount`, which is never zero): the delegated
    /// stake times 100 over the total amount, as `BigDecimal` divides them,
    /// converted to a decimal through its text. Fails with a conversion error
    /// where the text does not read as a decimal.
    pub fn delegated_stake_percentage(&self, total_ccd_amount: i64) -> (r: Result<Decimal, ApiError>)
        requires
            total_ccd_amount != 0,
            self.stake_in_range(),
        ensures
            percentage_outcome(
                r,
                decimal_text_parse(bigdecimal_quotient_text((self.stake() * 100) as i128, total_ccd_amount)),
            ),
    {
        let stake = self.delegated_stake();
        let dividend: i128 = stake * 100;
        let share = bigdecimal_quotient(dividend, total_ccd_amount);
        let converted = parse_decimal(share.as_str());
        percentage_from_conversion(converted)
    }
}

/// `r` is the answer for the converted share: the decimal itself, or the
/// conversion error with the reason appended.
pub open spec fn percentage_outcome(r: Result<Decimal, ApiError>, converted: Result<Decimal, Seq<char>>) -> bool {
    match converted {
        Ok(d) => r == Ok::<Decimal, ApiError>(d),
        Err(reason) => r matches Err(ApiError::InternalError(m)) && m@ == percentage_conversion_text()
            + ": "@ + reason,
    }
}

/// The converted share with the reason of a failure as its text.
pub open spec fn conversion_view(converted: Result<Decimal, String>) -> Result<Decimal, Seq<char>> {
    match converted {
        Ok(d) => Ok(d),
        Err(e) => Err(e@),
    }
}

/// The answer for the converted share of the delegated stake.
pub fn percentage_from_conversion(converted: Result<Decimal, String>) -> (r: Result<Decimal, ApiError>)
    ensures
        percentage_outcome(r, conversion_view(converted)),
        converted matches Ok(d) ==> r == Ok::<Decimal, ApiError>(d),
        converted matches Err(reason) ==> (r matches Err(ApiError::InternalError(m)) && m@
            == "Can not convert `delegated_stake_percentage` to `scalar_types::Decimal`"@ + ": "@ + reason@),
{
    broadcast use vstd::string::to_string_from_display_ensures_for_str;

    match converted {
        Ok(d) => Ok(d),
        Err(reason) => {
            let message = "Can not convert `delegated_stake_percentage` to `scalar_types::Decimal`".to_string();
            let message = message.concat(": ");
            let message = message.concat(reason.as_str());
            Err(ApiError::InternalError(message))
        },
    }
}

} // verus!
