//! Fee schedule of the single-trade-fee schema: one numerator/denominator
//! fraction charged on the input side of every trade.
//!
//! The fee invariant: if the denominator is zero all numerators must be zero
//! (fees disabled); otherwise each numerator must be strictly below the
//! denominator.

use vstd::prelude::*;

use vstd::bytes::{
    lemma_auto_spec_u64_to_from_le_bytes, spec_u64_from_le_bytes, spec_u64_to_le_bytes,
};

use crate::codec::{read_u64_le, write_u64_le};
use crate::error::SwapError;

verus! {

/// Fee configuration of the single-trade-fee schema.
#[derive(Clone, Copy, Debug, Default, PartialEq, Eq, Structural)]
pub struct Fees {
    /// Numerator of the fraction of each trade taken as fee.
    pub trade_fee_numerator: u64,
    /// Denominator of that fraction.
    pub trade_fee_denominator: u64,
}

/// What `calculate_fee` returns: `floor(amount * numerator / denominator)`
/// with a minimum-fee floor of one token, or `None` when the widened product
/// overflows or the denominator is zero.
pub open spec fn spec_calculate_fee(
    token_amount: u128,
    fee_numerator: u128,
    fee_denominator: u128,
) -> Option<u128> {
    if fee_numerator == 0 || token_amount == 0 {
        Some(0u128)
    } else if token_amount * fee_numerator > u128::MAX {
        None
    } else if fee_denominator == 0 {
        None
    } else {
        let fee = ((token_amount * fee_numerator) / (fee_denominator as int)) as u128;
        if fee == 0 {
            Some(1u128)
        } else {
            Some(fee)
        }
    }
}

/// Proportional fee with a minimum-fee floor: a zero numerator or a zero
/// amount is fee-free; otherwise the floored fraction of the amount, raised
/// to one token when flooring would make a nonzero trade fee-free.
pub fn calculate_fee(
    token_amount: u128,
    fee_numerator: u128,
    fee_denominator: u128,
) -> (r: Option<u128>)
    ensures
        r == spec_calculate_fee(token_amount, fee_numerator, fee_denominator),
{
    if fee_numerator == 0 || token_amount == 0 {
        Some(0)
    } else {
        let product = token_amount.checked_mul(fee_numerator)?;
        let fee = product.checked_div(fee_denominator)?;
        if fee == 0 {
            Some(1)
        } else {
            Some(fee)
        }
    }
}

/// Whether a numerator/denominator pair satisfies the fee invariant.
pub open spec fn spec_valid_fraction(numerator: u64, denominator: u64) -> bool {
    (denominator == 0 && numerator == 0) || numerator < denominator
}

/// Accepts a fraction exactly when the fee invariant of the module
/// documentation holds of it.
pub fn validate_fraction(numerator: u64, denominator: u64) -> (r: Result<(), SwapError>)
    ensures
        r is Ok <==> spec_valid_fraction(numerator, denominator),
        r is Err ==> r == Result::<(), SwapError>::Err(SwapError::InvalidFee),
{
    if denominator == 0 && numerator == 0 {
        Ok(())
    } else if numerator >= denominator {
        Err(SwapError::InvalidFee)
    } else {
        Ok(())
    }
}

impl Fees {
    /// The trading fee owed on `trading_tokens` input tokens.
    pub fn trading_fee(&self, trading_tokens: u128) -> (r: Option<u128>)
        ensures
            r == spec_calculate_fee(
                trading_tokens,
                self.trade_fee_numerator as u128,
                self.trade_fee_denominator as u128,
            ),
    {
        calculate_fee(
            trading_tokens,
            self.trade_fee_numerator as u128,
            self.trade_fee_denominator as u128,
        )
    }

    /// Accepts the schedule exactly when the trade-fee fraction satisfies the
    /// fee invariant.
    pub fn validate(&self) -> (r: Result<(), SwapError>)
        ensures
            r is Ok <==> spec_valid_fraction(self.trade_fee_numerator, self.trade_fee_denominator),
            r is Err ==> r == Result::<(), SwapError>::Err(SwapError::InvalidFee),
    {
        validate_fraction(self.trade_fee_numerator, self.trade_fee_denominator)?;
        Ok(())
    }

    /// Appends the 16-byte wire form: numerator then denominator,
    /// little-endian.
    pub fn pack_into_slice(&self, output: &mut Vec<u8>)
        ensures
            final(output)@ == old(output)@ + spec_fees_bytes(*self),
    {
        write_u64_le(output, self.trade_fee_numerator);
        write_u64_le(output, self.trade_fee_denominator);
        proof {
            assert(output@ =~= old(output)@ + spec_fees_bytes(*self));
        }
    }

    /// Reads the wire form back from the first 16 bytes of `input`.
    pub fn unpack_from_slice(input: &[u8]) -> (r: Fees)
        requires
            input@.len() >= 16,
        ensures
            r.trade_fee_numerator == spec_u64_from_le_bytes(input@.subrange(0, 8)),
            r.trade_fee_denominator == spec_u64_from_le_bytes(input@.subrange(8, 16)),
    {
        Fees {
            trade_fee_numerator: read_u64_le(input, 0),
            trade_fee_denominator: read_u64_le(input, 8),
        }
    }
}

/// Minimum-fee law: a nonzero trade against a nonzero, proper fee fraction
/// always pays at least one token of fee, whatever flooring did.  (The one
/// family of inputs left out is those whose widened product overflows even
/// 128 bits; on those the calculation reports failure instead of a fee.)
pub proof fn lemma_fee_at_least_one(amount: u128, numerator: u128, denominator: u128)
    requires
        amount > 0,
        numerator > 0,
        denominator > 0,
        numerator < denominator,
        amount * numerator <= u128::MAX,
    ensures
        spec_calculate_fee(amount, numerator, denominator) matches Some(f) && f >= 1,
{
    let product = amount * numerator;
    vstd::arithmetic::div_mod::lemma_div_pos_is_pos(product, denominator as int);
}

/// The 16-byte wire form of the fee schedule.
pub open spec fn spec_fees_bytes(f: Fees) -> Seq<u8> {
    spec_u64_to_le_bytes(f.trade_fee_numerator) + spec_u64_to_le_bytes(f.trade_fee_denominator)
}

/// Round-trip law for the fee schedule: decoding any byte sequence that
/// starts with the encoding of `f` yields `f` itself.
pub proof fn lemma_fees_round_trip(f: Fees, s: Seq<u8>)
    requires
        s.len() >= 16,
        s.subrange(0, 16) == spec_fees_bytes(f),
    ensures
        spec_u64_from_le_bytes(s.subrange(0, 8)) == f.trade_fee_numerator,
        spec_u64_from_le_bytes(s.subrange(8, 16)) == f.trade_fee_denominator,
{
    lemma_auto_spec_u64_to_from_le_bytes();
    assert(s.subrange(0, 8) =~= s.subrange(0, 16).subrange(0, 8));
    assert(s.subrange(8, 16) =~= s.subrange(0, 16).subrange(8, 16));
    assert(s.subrange(0, 16).subrange(0, 8) =~= spec_u64_to_le_bytes(f.trade_fee_numerator));
    assert(s.subrange(0, 16).subrange(8, 16) =~= spec_u64_to_le_bytes(f.trade_fee_denominator));
}

} // verus!
