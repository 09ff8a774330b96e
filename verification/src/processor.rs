//! Numeric helpers the instruction-processing layer hands its amounts
//! through: boundary conversions between 64 and 128 bits, and the
//! proportional pool-token rule used for balanced stable-pool deposits.

use vstd::prelude::*;

use crate::error::SwapError;

verus! {

/// The instruction-processing layer's calculation helpers.
pub struct Processor;

impl Processor {
    /// Pool tokens for a balanced deposit on the stable curve: the deposit
    /// value over the pool value, times the supply, floored.
    pub fn calculate_stable_lp_amount(
        total_supply: u128,
        token_a_amount: u128,
        token_b_amount: u128,
        input_a_amount: u128,
        input_b_amount: u128,
    ) -> (r: Option<u128>)
        ensures
            r == if token_a_amount + token_b_amount > u128::MAX {
                None::<u128>
            } else if input_a_amount + input_b_amount > u128::MAX {
                None::<u128>
            } else if (input_a_amount + input_b_amount) * total_supply > u128::MAX {
                None::<u128>
            } else if token_a_amount + token_b_amount == 0 {
                None::<u128>
            } else {
                Some(
                    (((input_a_amount + input_b_amount) * total_supply) / (token_a_amount
                        + token_b_amount)) as u128,
                )
            },
    {
        let total_amount = token_a_amount.checked_add(token_b_amount)?;
        let input_amount = input_a_amount.checked_add(input_b_amount)?;
        let pool_amount = input_amount.checked_mul(total_supply)?.checked_div(total_amount)?;
        Some(pool_amount)
    }
}

/// Widens a boundary amount; a 64-bit value always fits.
pub fn to_u128(val: u64) -> (r: Result<u128, SwapError>)
    ensures
        r == Result::<u128, SwapError>::Ok(val as u128),
{
    Ok(val as u128)
}

/// Narrows an internal amount back to the 64-bit boundary; fails exactly
/// when the value does not fit.
pub fn to_u64(val: u128) -> (r: Result<u64, SwapError>)
    ensures
        val <= u64::MAX ==> r == Result::<u64, SwapError>::Ok(val as u64),
        val > u64::MAX ==> r == Result::<u64, SwapError>::Err(SwapError::ConversionFailure),
{
    if val > 0xFFFF_FFFF_FFFF_FFFF {
        Err(SwapError::ConversionFailure)
    } else {
        Ok(val as u64)
    }
}

} // verus!
