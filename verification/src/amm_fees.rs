//! Fee schedule of the return/fixed-fee schema: two numerators over one
//! shared denominator.  The return fee is re-injected into the pool, the
//! fixed fee is paid out to a dedicated account.
//!
//! The fee invariant: if the denominator is zero both numerators must be zero
//! (fees disabled); otherwise the sum of the numerators must be strictly
//! below the denominator.

use vstd::prelude::*;

use vstd::bytes::{spec_u64_from_le_bytes, spec_u64_to_le_bytes, lemma_auto_spec_u64_to_from_le_bytes};

use crate::codec::{read_u64_le, write_u64_le};
use crate::error::SwapError;
use crate::fees::{calculate_fee as fraction_fee, spec_calculate_fee};

verus! {

/// Fee configuration of the return/fixed-fee schema.
#[derive(Clone, Copy, Debug, Default, PartialEq, Eq, Structural)]
pub struct Fees {
    /// Numerator of the fee fraction re-injected into the pool.
    pub return_fee_numerator: u64,
    /// Numerator of the fee fraction paid to the fixed fee account.
    pub fixed_fee_numerator: u64,
    /// Denominator shared by both fractions.
    pub fee_denominator: u64,
}

/// Proportional fee with a minimum-fee floor, identical to the rule of the
/// single-trade-fee schema.
pub fn calculate_fee(
    token_amount: u128,
    fee_numerator: u128,
    fee_denominator: u128,
) -> (r: Option<u128>)
    ensures
        r == spec_calculate_fee(token_amount, fee_numerator, fee_denominator),
{
    fraction_fee(token_amount, fee_numerator, fee_denominator)
}

/// Whether the two numerators and the denominator satisfy the fee invariant.
pub open spec fn spec_valid_fees(f: Fees) -> bool {
    (f.fee_denominator == 0 && f.fixed_fee_numerator == 0 && f.return_fee_numerator == 0)
        || f.fixed_fee_numerator + f.return_fee_numerator < f.fee_denominator
}

/// The 24-byte wire form: both numerators and the denominator, little-endian.
pub open spec fn spec_fees_bytes(f: Fees) -> Seq<u8> {
    spec_u64_to_le_bytes(f.return_fee_numerator) + spec_u64_to_le_bytes(f.fixed_fee_numerator)
        + spec_u64_to_le_bytes(f.fee_denominator)
}

impl Fees {
    /// The return fee owed on `trading_tokens` input tokens.
    pub fn return_fee(&self, trading_tokens: u128) -> (r: Option<u128>)
        ensures
            r == spec_calculate_fee(
                trading_tokens,
                self.return_fee_numerator as u128,
                self.fee_denominator as u128,
            ),
    {
        calculate_fee(
            trading_tokens,
            self.return_fee_numerator as u128,
            self.fee_denominator as u128,
        )
    }

    /// The fixed fee owed on `trading_tokens` input tokens.
    pub fn fixed_fee(&self, trading_tokens: u128) -> (r: Option<u128>)
        ensures
            r == spec_calculate_fee(
                trading_tokens,
                self.fixed_fee_numerator as u128,
                self.fee_denominator as u128,
            ),
    {
        calculate_fee(
            trading_tokens,
            self.fixed_fee_numerator as u128,
            self.fee_denominator as u128,
        )
    }

    /// Accepts the schedule exactly when the fee invariant of the module
    /// documentation holds of it.
    pub fn validate(&self) -> (r: Result<(), SwapError>)
        ensures
            r is Ok <==> spec_valid_fees(*self),
            r is Err ==> r == Result::<(), SwapError>::Err(SwapError::InvalidFee),
    {
        if self.fee_denominator == 0 && self.fixed_fee_numerator == 0
            && self.return_fee_numerator == 0 {
            Ok(())
        } else {
            match self.fixed_fee_numerator.checked_add(self.return_fee_numerator) {
                Some(sum) if sum < self.fee_denominator => Ok(()),
                _ => Err(SwapError::InvalidFee),
            }
        }
    }

    /// Appends the 24-byte wire form.
    pub fn pack_into_slice(&self, output: &mut Vec<u8>)
        ensures
            final(output)@ == old(output)@ + spec_fees_bytes(*self),
    {
        write_u64_le(output, self.return_fee_numerator);
        write_u64_le(output, self.fixed_fee_numerator);
        write_u64_le(output, self.fee_denominator);
        proof {
            assert(output@ =~= old(output)@ + spec_fees_bytes(*self));
        }
    }

    /// Reads the wire form back from the first 24 bytes of `input`.
    pub fn unpack_from_slice(input: &[u8]) -> (r: Fees)
        requires
            input@.len() >= 24,
        ensures
            r.return_fee_numerator == spec_u64_from_le_bytes(input@.subrange(0, 8)),
            r.fixed_fee_numerator == spec_u64_from_le_bytes(input@.subrange(8, 16)),
            r.fee_denominator == spec_u64_from_le_bytes(input@.subrange(16, 24)),
    {
        Fees {
            return_fee_numerator: read_u64_le(input, 0),
            fixed_fee_numerator: read_u64_le(input, 8),
            fee_denominator: read_u64_le(input, 16),
        }
    }
}

/// Round-trip law for the fee schedule: decoding any byte sequence that
/// starts with the encoding of `f` yields `f` itself.
pub proof fn lemma_fees_round_trip(f: Fees, s: Seq<u8>)
    requires
        s.len() >= 24,
        s.subrange(0, 24) == spec_fees_bytes(f),
    ensures
        spec_u64_from_le_bytes(s.subrange(0, 8)) == f.return_fee_numerator,
        spec_u64_from_le_bytes(s.subrange(8, 16)) == f.fixed_fee_numerator,
        spec_u64_from_le_bytes(s.subrange(16, 24)) == f.fee_denominator,
{
    lemma_auto_spec_u64_to_from_le_bytes();
    assert(s.subrange(0, 8) =~= s.subrange(0, 24).subrange(0, 8));
    assert(s.subrange(8, 16) =~= s.subrange(0, 24).subrange(8, 16));
    assert(s.subrange(16, 24) =~= s.subrange(0, 24).subrange(16, 24));
    assert(s.subrange(0, 24).subrange(0, 8) =~= spec_u64_to_le_bytes(f.return_fee_numerator));
    assert(s.subrange(0, 24).subrange(8, 16) =~= spec_u64_to_le_bytes(f.fixed_fee_numerator));
    assert(s.subrange(0, 24).subrange(16, 24) =~= spec_u64_to_le_bytes(f.fee_denominator));
}

} // verus!
