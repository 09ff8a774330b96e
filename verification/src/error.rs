//! The failure taxonomy of the pool core.
//!
//! Every failure the core can produce is a value of [`SwapError`]; nothing in
//! the crate panics or retries.  Arithmetic failures (overflow, underflow,
//! division by zero) surface as `None` from the functions that compute, and
//! are mapped to an error only at the boundary where a `Result` is owed.

use vstd::prelude::*;

verus! {

/// All errors the pool core can return.
#[derive(Clone, Copy, Debug, PartialEq, Eq, Structural)]
pub enum SwapError {
    /// The fee numerators and denominator violate the fee invariant.
    InvalidFee,
    /// The pool's curve type is not in the allowed set.
    UnsupportedCurveType,
    /// A curve's own parameters are out of bounds.
    InvalidCurve,
    /// Initial reserves do not satisfy the curve's preconditions.
    EmptySupply,
    /// A narrowing conversion fell out of range.
    ConversionFailure,
    /// A persisted-state buffer has the wrong length or holds bytes that no
    /// encoder produces.
    InvalidAccountData,
    /// A persisted-state buffer carries an unknown version tag, or decodes to
    /// a record that was never initialized.
    UninitializedAccount,
}

} // verus!
