//! Deployment constraints of the return/fixed-fee schema: both fee
//! numerators must clear the owner-defined floor over the same denominator.

use vstd::prelude::*;

use crate::amm_fees::Fees;
use crate::base::{CurveType, SwapCurve};
use crate::error::SwapError;
use vstd::slice::slice_index_get;

verus! {

/// Owner-defined constraints on new pools.
pub struct SwapConstraints<'a> {
    /// Identity of the program owner.
    pub owner_key: &'a str,
    /// The curve types pools may use.
    pub valid_curve_types: &'a [CurveType],
    /// The least fees pools must charge.
    pub fees: &'a Fees,
}

impl<'a> SwapConstraints<'a> {
    /// Accepts a curve exactly when its type is in the allowed set.
    pub fn validate_curve(&self, swap_curve: &SwapCurve) -> (r: Result<(), SwapError>)
        ensures
            r is Ok <==> exists|i: int|
                0 <= i < self.valid_curve_types@.len() && self.valid_curve_types@[i]
                    == swap_curve.curve_type,
            r is Err ==> r == Result::<(), SwapError>::Err(SwapError::UnsupportedCurveType),
    {
        let n = self.valid_curve_types.len();
        let mut i: usize = 0;
        while i < n
            invariant
                0 <= i <= n,
                n == self.valid_curve_types@.len(),
                forall|j: int| 0 <= j < i ==> self.valid_curve_types@[j] != swap_curve.curve_type,
            decreases n - i,
        {
            if *slice_index_get(self.valid_curve_types, i) == swap_curve.curve_type {
                return Ok(());
            }
            i = i + 1;
        }
        Err(SwapError::UnsupportedCurveType)
    }

    /// Accepts a fee schedule exactly when both numerators are at least the
    /// constraint's, over the same denominator.
    pub fn validate_fees(&self, fees: &Fees) -> (r: Result<(), SwapError>)
        ensures
            r is Ok <==> (fees.return_fee_numerator >= self.fees.return_fee_numerator
                && fees.fixed_fee_numerator >= self.fees.fixed_fee_numerator
                && fees.fee_denominator == self.fees.fee_denominator),
            r is Err ==> r == Result::<(), SwapError>::Err(SwapError::InvalidFee),
    {
        if fees.return_fee_numerator >= self.fees.return_fee_numerator
            && fees.fixed_fee_numerator >= self.fees.fixed_fee_numerator
            && fees.fee_denominator == self.fees.fee_denominator {
            Ok(())
        } else {
            Err(SwapError::InvalidFee)
        }
    }
}

} // verus!
