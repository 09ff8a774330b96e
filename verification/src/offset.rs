//! The offset curve: constant-product pricing in which the token B side
//! trades as if it held its real balance plus a fixed virtual offset, so a
//! pool can quote prices before real token B liquidity exists.
//!
//! Single-token deposits are not allowed on this curve: minting pool tokens
//! against a partly virtual reserve would misprice them.

use vstd::prelude::*;

use vstd::bytes::{spec_u64_from_le_bytes, spec_u64_to_le_bytes};

use crate::calculator::{
    spec_source_reserve, spec_withdraw_single, withdraw_single_token_type_exact_out,
    SwapWithoutFeesResult, TradeDirection,
};
use crate::codec::{read_u64_le, write_u64_le, write_zeros, zero_bytes};
use crate::constant_product::{spec_cp_swap, swap_without_fees as cp_swap_without_fees};
use crate::error::SwapError;

verus! {

/// The offset curve: the virtual amount added to the token B reserve.
#[derive(Clone, Copy, Debug, PartialEq, Eq, Structural)]
pub struct OffsetCurve {
    /// Virtual token B amount the curve prices as if it were real.
    pub token_b_offset: u64,
}

/// The amounts moved by a fee-free offset swap: a constant-product swap over
/// the virtual reserves, `None` when adding the offset itself overflows.
pub open spec fn spec_offset_swap(
    source_amount: u128,
    swap_source_amount: u128,
    swap_destination_amount: u128,
    token_b_offset: u64,
    trade_direction: TradeDirection,
) -> Option<SwapWithoutFeesResult> {
    match trade_direction {
        TradeDirection::AtoB => {
            if swap_destination_amount + token_b_offset > u128::MAX {
                None
            } else {
                spec_cp_swap(
                    source_amount,
                    swap_source_amount,
                    (swap_destination_amount + token_b_offset) as u128,
                )
            }
        },
        TradeDirection::BtoA => {
            if swap_source_amount + token_b_offset > u128::MAX {
                None
            } else {
                spec_cp_swap(
                    source_amount,
                    (swap_source_amount + token_b_offset) as u128,
                    swap_destination_amount,
                )
            }
        },
    }
}

/// The 32-byte wire form: the offset, little-endian, then padding.
pub open spec fn spec_offset_bytes(c: OffsetCurve) -> Seq<u8> {
    spec_u64_to_le_bytes(c.token_b_offset) + zero_bytes(24)
}

impl OffsetCurve {
    /// A fee-free swap over the virtual reserves.
    pub fn swap_without_fees(
        &self,
        source_amount: u128,
        swap_source_amount: u128,
        swap_destination_amount: u128,
        trade_direction: TradeDirection,
    ) -> (r: Option<SwapWithoutFeesResult>)
        ensures
            r == spec_offset_swap(
                source_amount,
                swap_source_amount,
                swap_destination_amount,
                self.token_b_offset,
                trade_direction,
            ),
    {
        let offset = self.token_b_offset as u128;
        match trade_direction {
            TradeDirection::AtoB => {
                let destination = swap_destination_amount.checked_add(offset)?;
                cp_swap_without_fees(source_amount, swap_source_amount, destination)
            },
            TradeDirection::BtoA => {
                let source_reserve = swap_source_amount.checked_add(offset)?;
                cp_swap_without_fees(source_amount, source_reserve, swap_destination_amount)
            },
        }
    }

    /// Pool tokens burned for an exact-out withdrawal, over the virtual
    /// token B reserve.
    pub fn withdraw_single_token_type_exact_out(
        &self,
        destination_amount: u128,
        swap_token_a_amount: u128,
        swap_token_b_amount: u128,
        pool_supply: u128,
        trade_direction: TradeDirection,
    ) -> (r: Option<u128>)
        ensures
            swap_token_b_amount + self.token_b_offset > u128::MAX ==> r is None,
            swap_token_b_amount + self.token_b_offset <= u128::MAX ==> r == spec_withdraw_single(
                destination_amount,
                spec_source_reserve(
                    trade_direction,
                    swap_token_a_amount,
                    (swap_token_b_amount + self.token_b_offset) as u128,
                ),
                pool_supply,
            ),
    {
        let token_b_virtual = swap_token_b_amount.checked_add(self.token_b_offset as u128)?;
        withdraw_single_token_type_exact_out(
            destination_amount,
            swap_token_a_amount,
            token_b_virtual,
            pool_supply,
            trade_direction,
        )
    }

    /// The offset must be nonzero; a zero offset is the constant-product
    /// curve and must be encoded as such.
    pub fn validate(&self) -> (r: Result<(), SwapError>)
        ensures
            r is Ok <==> self.token_b_offset != 0,
            r is Err ==> r == Result::<(), SwapError>::Err(SwapError::InvalidCurve),
    {
        if self.token_b_offset == 0 {
            Err(SwapError::InvalidCurve)
        } else {
            Ok(())
        }
    }

    /// Token A must be funded; the offset side may start empty.
    pub fn validate_supply(&self, token_a_amount: u64, _token_b_amount: u64) -> (r: Result<
        (),
        SwapError,
    >)
        ensures
            r is Ok <==> token_a_amount != 0,
            r is Err ==> r == Result::<(), SwapError>::Err(SwapError::EmptySupply),
    {
        if token_a_amount == 0 {
            Err(SwapError::EmptySupply)
        } else {
            Ok(())
        }
    }

    /// Appends the curve's 32-byte parameter slot.
    pub fn pack_into_slice(&self, output: &mut Vec<u8>)
        ensures
            final(output)@ == old(output)@ + spec_offset_bytes(*self),
    {
        write_u64_le(output, self.token_b_offset);
        write_zeros(output, 24);
        proof {
            assert(output@ =~= old(output)@ + spec_offset_bytes(*self));
        }
    }

    /// Reads the curve back from the first 32 bytes of its parameter slot.
    pub fn unpack_from_slice(input: &[u8]) -> (r: OffsetCurve)
        requires
            input@.len() >= 32,
        ensures
            r.token_b_offset == spec_u64_from_le_bytes(input@.subrange(0, 8)),
    {
        OffsetCurve { token_b_offset: read_u64_le(input, 0) }
    }
}

} // verus!
