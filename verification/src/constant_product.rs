//! The constant-product curve: reserves satisfy `x * y = k`, and a swap of
//! `dx` source tokens pays out `y - floor(k / (x + dx))` destination tokens.

use vstd::prelude::*;

use vstd::arithmetic::div_mod::{lemma_div_by_multiple, lemma_div_is_ordered};

use crate::calculator::SwapWithoutFeesResult;
use crate::codec::{write_zeros, zero_bytes};
use crate::error::SwapError;

verus! {

/// The constant-product curve carries no parameters.
#[derive(Clone, Copy, Debug, PartialEq, Eq, Structural)]
pub struct ConstantProductCurve {}

/// The amounts moved by a fee-free constant-product swap: `None` exactly
/// when the invariant product or the grown source reserve overflows, or both
/// the source reserve and the input are zero.
pub open spec fn spec_cp_swap(
    source_amount: u128,
    swap_source_amount: u128,
    swap_destination_amount: u128,
) -> Option<SwapWithoutFeesResult> {
    if swap_source_amount * swap_destination_amount > u128::MAX {
        None
    } else if swap_source_amount + source_amount > u128::MAX {
        None
    } else if swap_source_amount + source_amount == 0 {
        None
    } else {
        let k = swap_source_amount * swap_destination_amount;
        let new_destination = k / (swap_source_amount + source_amount);
        Some(
            SwapWithoutFeesResult {
                source_amount_swapped: source_amount,
                destination_amount_swapped: (swap_destination_amount - new_destination) as u128,
            },
        )
    }
}

/// A fee-free swap along `x * y = k`.  The direction does not matter: the
/// formula is symmetric in the two sides.
pub fn swap_without_fees(
    source_amount: u128,
    swap_source_amount: u128,
    swap_destination_amount: u128,
) -> (r: Option<SwapWithoutFeesResult>)
    ensures
        r == spec_cp_swap(source_amount, swap_source_amount, swap_destination_amount),
{
    let k = swap_source_amount.checked_mul(swap_destination_amount)?;
    let new_source = swap_source_amount.checked_add(source_amount)?;
    let new_destination = k.checked_div(new_source)?;
    proof {
        // floor(x * y / (x + dx)) <= y, because x * y <= (x + dx) * y.
        assert(k <= new_source * swap_destination_amount) by (nonlinear_arith)
            requires
                k == swap_source_amount * swap_destination_amount,
                swap_source_amount <= new_source,
                0 <= swap_destination_amount,
        ;
        lemma_div_by_multiple(swap_destination_amount as int, new_source as int);
        lemma_div_is_ordered(
            k as int,
            new_source * swap_destination_amount,
            new_source as int,
        );
    }
    let destination_amount_swapped = swap_destination_amount - new_destination;
    Some(
        SwapWithoutFeesResult {
            source_amount_swapped: source_amount,
            destination_amount_swapped,
        },
    )
}

impl ConstantProductCurve {
    /// The curve has no parameters, so it is always valid.
    pub fn validate(&self) -> (r: Result<(), SwapError>)
        ensures
            r is Ok,
    {
        Ok(())
    }

    /// Both initial reserves must be nonzero.
    pub fn validate_supply(&self, token_a_amount: u64, token_b_amount: u64) -> (r: Result<
        (),
        SwapError,
    >)
        ensures
            r is Ok <==> (token_a_amount != 0 && token_b_amount != 0),
            r is Err ==> r == Result::<(), SwapError>::Err(SwapError::EmptySupply),
    {
        if token_a_amount == 0 || token_b_amount == 0 {
            Err(SwapError::EmptySupply)
        } else {
            Ok(())
        }
    }

    /// Appends the curve's 32-byte parameter slot, all padding.
    pub fn pack_into_slice(&self, output: &mut Vec<u8>)
        ensures
            final(output)@ == old(output)@ + zero_bytes(32),
    {
        write_zeros(output, 32);
    }

    /// Reads the curve back from its parameter slot, which carries no data.
    pub fn unpack_from_slice(input: &[u8]) -> (r: ConstantProductCurve)
        requires
            input@.len() >= 32,
        ensures
            r == (ConstantProductCurve {  }),
    {
        ConstantProductCurve {  }
    }
}

} // verus!
