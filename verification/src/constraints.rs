//! Deployment constraints of the single-trade-fee schema: the owner-defined
//! floor a pool's configuration must clear before it may be persisted.  The
//! constraint value is built once by the embedder and passed in explicitly;
//! nothing here reads ambient state.

use vstd::prelude::*;

use crate::base::{CurveType, SwapCurve};
use crate::error::SwapError;
use crate::fees::Fees;
use vstd::slice::slice_index_get;

verus! {

/// Owner-defined constraints on new pools.
pub struct SwapConstraints<'a> {
    /// Identity of the program owner.
    pub owner_key: &'a str,
    /// The curve types pools may use.
    pub valid_curve_types: &'a [CurveType],
    /// The least fees pools must charge.
    pub fees: &'a Fees,
}

impl<'a> SwapConstraints<'a> {
    /// Accepts a curve exactly when its type is in the allowed set.
    pub fn validate_curve(&self, swap_curve: &SwapCurve) -> (r: Result<(), SwapError>)
        ensures
            r is Ok <==> exists|i: int|
                0 <= i < self.valid_curve_types@.len() && self.valid_curve_types@[i]
                    == swap_curve.curve_type,
            r is Err ==> r == Result::<(), SwapError>::Err(SwapError::UnsupportedCurveType),
    {
        let n = self.valid_curve_types.len();
        let mut i: usize = 0;
        while i < n
            invariant
                0 <= i <= n,
                n == self.valid_curve_types@.len(),
                forall|j: int| 0 <= j < i ==> self.valid_curve_types@[j] != swap_curve.curve_type,
            decreases n - i,
        {
            if *slice_index_get(self.valid_curve_types, i) == swap_curve.curve_type {
                return Ok(());
            }
            i = i + 1;
        }
        Err(SwapError::UnsupportedCurveType)
    }

    /// Accepts a fee schedule exactly when it charges at least the
    /// constraint's trade fee over the same denominator.
    pub fn validate_fees(&self, fees: &Fees) -> (r: Result<(), SwapError>)
        ensures
            r is Ok <==> (fees.trade_fee_numerator >= self.fees.trade_fee_numerator
                && fees.trade_fee_denominator == self.fees.trade_fee_denominator),
            r is Err ==> r == Result::<(), SwapError>::Err(SwapError::InvalidFee),
    {
        if fees.trade_fee_numerator >= self.fees.trade_fee_numerator
            && fees.trade_fee_denominator == self.fees.trade_fee_denominator {
            Ok(())
        } else {
            Err(SwapError::InvalidFee)
        }
    }
}

} // verus!
