//! The swap-curve orchestrator: one curve type tag, its calculator, and the
//! three fee-charging operations built on top of them.
//!
//! Fees are always assessed on the input side.  A plain swap charges the
//! trade fee on the full input; a single-sided deposit or exact-out
//! withdrawal charges it on half the amount (floored, but at least one
//! token), because a single-sided flow is economically a swap of half the
//! amount plus a balanced flow of the rebalanced pair.

use vstd::prelude::*;

use vstd::bytes::{
    lemma_auto_spec_u64_to_from_le_bytes, spec_u64_from_le_bytes, spec_u64_to_le_bytes,
};
use vstd::slice::{slice_index_get, slice_subrange};

use crate::calculator::{
    spec_calc_deposit, spec_calc_withdraw, spec_calculator_bytes, spec_swap_result,
    CurveCalculator, SwapWithoutFeesResult, TradeDirection,
};
use crate::constant_price::{spec_price_swap, ConstantPriceCurve};
use crate::constant_product::{spec_cp_swap, ConstantProductCurve};
use crate::error::SwapError;
use crate::fees::{spec_calculate_fee, Fees};
use crate::offset::{spec_offset_swap, OffsetCurve};
use crate::stable::StableCurve;

verus! {

/// The closed set of supported curve types.
#[derive(Clone, Copy, Debug, PartialEq, Eq, Structural)]
pub enum CurveType {
    /// `x * y = k`.
    ConstantProduct,
    /// A fixed exchange ratio.
    ConstantPrice,
    /// A wide near-parity band.
    Stable,
    /// Constant product over a partly virtual token B reserve.
    Offset,
}

/// All results of one fee-charging swap.
#[derive(Clone, Copy, Debug, PartialEq, Eq, Structural)]
pub struct SwapResult {
    /// The input amount after the trade fee was deducted.
    pub new_swap_amount: u128,
    /// The source reserve the swap was quoted against.
    pub swap_source_amount: u128,
    /// The destination amount the curve pays out.
    pub dest_amount: u128,
    /// The destination reserve the swap was quoted against.
    pub dest_source_amount: u128,
    /// The trade fee charged on the input.
    pub trade_fee: u128,
}

/// A curve type tag paired with the calculator it selects.
#[derive(Clone, Copy, Debug, PartialEq, Eq, Structural)]
pub struct SwapCurve {
    /// The type of curve, for outside queries.
    pub curve_type: CurveType,
    /// The calculator owning that curve's parameters.
    pub calculator: CurveCalculator,
}

/// The tag byte of each curve type on the wire.
pub open spec fn spec_curve_type_u8(t: CurveType) -> u8 {
    match t {
        CurveType::ConstantProduct => 0u8,
        CurveType::ConstantPrice => 1u8,
        CurveType::Stable => 2u8,
        CurveType::Offset => 3u8,
    }
}

/// Whether a tag agrees with the calculator variant it stands beside.
pub open spec fn spec_curve_matches(t: CurveType, c: CurveCalculator) -> bool {
    match c {
        CurveCalculator::ConstantProduct(_) => t == CurveType::ConstantProduct,
        CurveCalculator::ConstantPrice(_) => t == CurveType::ConstantPrice,
        CurveCalculator::Stable(_) => t == CurveType::Stable,
        CurveCalculator::Offset(_) => t == CurveType::Offset,
    }
}

/// The 33-byte wire form: the tag byte, then the 32-byte parameter slot.
pub open spec fn spec_swap_curve_bytes(c: SwapCurve) -> Seq<u8> {
    seq![spec_curve_type_u8(c.curve_type)] + spec_calculator_bytes(c.calculator)
}

/// Half of `amount`, floored but never below one token: the base on which a
/// single-sided flow is charged its fee.
pub open spec fn spec_half_amount(amount: u128) -> u128 {
    if amount / 2 == 0 {
        1u128
    } else {
        amount / 2
    }
}

/// Whether the closed-form curves pay out on these inputs; vacuous for the
/// iteratively solved stable curve.
pub open spec fn spec_calc_swap_succeeds(
    calc: CurveCalculator,
    source_amount: u128,
    swap_source_amount: u128,
    swap_destination_amount: u128,
    trade_direction: TradeDirection,
) -> bool {
    match calc {
        CurveCalculator::ConstantProduct(_) => spec_cp_swap(
            source_amount,
            swap_source_amount,
            swap_destination_amount,
        ) is Some,
        CurveCalculator::ConstantPrice(c) => spec_price_swap(
            source_amount,
            c.token_b_price,
            trade_direction,
        ) is Some,
        CurveCalculator::Stable(_) => true,
        CurveCalculator::Offset(c) => spec_offset_swap(
            source_amount,
            swap_source_amount,
            swap_destination_amount,
            c.token_b_offset,
            trade_direction,
        ) is Some,
    }
}

/// Pool tokens minted by the fee-charging single-sided deposit.
pub open spec fn spec_swap_curve_deposit(
    calc: CurveCalculator,
    fees: Fees,
    source_amount: u128,
    swap_token_a_amount: u128,
    swap_token_b_amount: u128,
    pool_supply: u128,
    trade_direction: TradeDirection,
) -> Option<u128> {
    if source_amount == 0 {
        Some(0u128)
    } else {
        match spec_calculate_fee(
            spec_half_amount(source_amount),
            fees.trade_fee_numerator as u128,
            fees.trade_fee_denominator as u128,
        ) {
            None => None,
            Some(fee) => {
                if fee > source_amount {
                    None
                } else {
                    spec_calc_deposit(
                        calc,
                        (source_amount - fee) as u128,
                        swap_token_a_amount,
                        swap_token_b_amount,
                        pool_supply,
                        trade_direction,
                    )
                }
            },
        }
    }
}

/// Pool tokens burned by the fee-charging single-sided exact-out
/// withdrawal.
pub open spec fn spec_swap_curve_withdraw(
    calc: CurveCalculator,
    fees: Fees,
    source_amount: u128,
    swap_token_a_amount: u128,
    swap_token_b_amount: u128,
    pool_supply: u128,
    trade_direction: TradeDirection,
) -> Option<u128> {
    if source_amount == 0 {
        Some(0u128)
    } else {
        match spec_calculate_fee(
            spec_half_amount(source_amount),
            fees.trade_fee_numerator as u128,
            fees.trade_fee_denominator as u128,
        ) {
            None => None,
            Some(fee) => {
                if fee > source_amount {
                    None
                } else {
                    spec_calc_withdraw(
                        calc,
                        (source_amount - fee) as u128,
                        swap_token_a_amount,
                        swap_token_b_amount,
                        pool_supply,
                        trade_direction,
                    )
                }
            },
        }
    }
}

impl SwapCurve {
    /// The tag agrees with the calculator variant.
    pub open spec fn wf(self) -> bool {
        spec_curve_matches(self.curve_type, self.calculator)
    }

    /// Charges the trade fee on the full input, then swaps the remainder
    /// through the active curve.  On success the fee accounting is exact:
    /// `new_swap_amount + trade_fee == source_amount`, no value appears or
    /// disappears in the fee step.
    pub fn swap(
        &self,
        source_amount: u128,
        swap_source_amount: u128,
        swap_destination_amount: u128,
        trade_direction: TradeDirection,
        fees: &Fees,
    ) -> (r: Option<SwapResult>)
        ensures
            r matches Some(res) ==> {
                &&& spec_calculate_fee(
                    source_amount,
                    fees.trade_fee_numerator as u128,
                    fees.trade_fee_denominator as u128,
                ) == Some(res.trade_fee)
                &&& res.new_swap_amount + res.trade_fee == source_amount
                &&& res.swap_source_amount == swap_source_amount
                &&& res.dest_source_amount == swap_destination_amount
                &&& exists|sr: SwapWithoutFeesResult|
                    {
                        &&& #[trigger] spec_swap_result(
                            self.calculator,
                            res.new_swap_amount,
                            swap_source_amount,
                            swap_destination_amount,
                            trade_direction,
                            Some(sr),
                        )
                        &&& res.dest_amount == sr.destination_amount_swapped
                    }
            },
            !(self.calculator matches CurveCalculator::Stable(_)) ==> (r is Some <==> match
                spec_calculate_fee(
                source_amount,
                fees.trade_fee_numerator as u128,
                fees.trade_fee_denominator as u128,
            ) {
                None => false,
                Some(fee) => fee <= source_amount && spec_calc_swap_succeeds(
                    self.calculator,
                    (source_amount - fee) as u128,
                    swap_source_amount,
                    swap_destination_amount,
                    trade_direction,
                ),
            }),
            ({
                &&& self.calculator matches CurveCalculator::Stable(c) && crate::stable::MIN_AMP
                    <= c.amp <= crate::stable::MAX_AMP
                &&& 1 <= swap_source_amount <= crate::stable::SOLVER_AMOUNT_BOUND
                &&& 1 <= swap_destination_amount <= crate::stable::SOLVER_AMOUNT_BOUND
                &&& source_amount <= crate::stable::SOLVER_AMOUNT_BOUND
                &&& match spec_calculate_fee(
                    source_amount,
                    fees.trade_fee_numerator as u128,
                    fees.trade_fee_denominator as u128,
                ) {
                    Some(fee) => fee <= source_amount,
                    None => false,
                }
            }) ==> r is Some,
    {
        let trade_fee = fees.trading_fee(source_amount)?;
        let new_source_amount = source_amount.checked_sub(trade_fee)?;
        let result = self.calculator.swap_without_fees(
            new_source_amount,
            swap_source_amount,
            swap_destination_amount,
            trade_direction,
        )?;
        Some(
            SwapResult {
                new_swap_amount: new_source_amount,
                swap_source_amount,
                dest_amount: result.destination_amount_swapped,
                dest_source_amount: swap_destination_amount,
                trade_fee,
            },
        )
    }

    /// Pool tokens for a single-sided deposit: zero input mints zero,
    /// otherwise the trade fee on half the amount is deducted before the
    /// curve's deposit rule applies.
    pub fn deposit_single_token_type(
        &self,
        source_amount: u128,
        swap_token_a_amount: u128,
        swap_token_b_amount: u128,
        pool_supply: u128,
        trade_direction: TradeDirection,
        fees: &Fees,
    ) -> (r: Option<u128>)
        ensures
            r == spec_swap_curve_deposit(
                self.calculator,
                *fees,
                source_amount,
                swap_token_a_amount,
                swap_token_b_amount,
                pool_supply,
                trade_direction,
            ),
    {
        if source_amount == 0 {
            return Some(0);
        }
        let half = source_amount / 2;
        let half_source_amount = if half == 0 {
            1
        } else {
            half
        };
        let trade_fee = fees.trading_fee(half_source_amount)?;
        let source_amount = source_amount.checked_sub(trade_fee)?;
        self.calculator.deposit_single_token_type(
            source_amount,
            swap_token_a_amount,
            swap_token_b_amount,
            pool_supply,
            trade_direction,
        )
    }

    /// Pool tokens for a single-sided exact-out withdrawal: zero output
    /// burns zero, otherwise the trade fee on half the amount is deducted
    /// before the curve's withdrawal rule applies.
    pub fn withdraw_single_token_type_exact_out(
        &self,
        source_amount: u128,
        swap_token_a_amount: u128,
        swap_token_b_amount: u128,
        pool_supply: u128,
        trade_direction: TradeDirection,
        fees: &Fees,
    ) -> (r: Option<u128>)
        ensures
            r == spec_swap_curve_withdraw(
                self.calculator,
                *fees,
                source_amount,
                swap_token_a_amount,
                swap_token_b_amount,
                pool_supply,
                trade_direction,
            ),
    {
        if source_amount == 0 {
            return Some(0);
        }
        let half = source_amount / 2;
        let half_source_amount = if half == 0 {
            1
        } else {
            half
        };
        let trade_fee = fees.trading_fee(half_source_amount)?;
        let source_amount = source_amount.checked_sub(trade_fee)?;
        self.calculator.withdraw_single_token_type_exact_out(
            source_amount,
            swap_token_a_amount,
            swap_token_b_amount,
            pool_supply,
            trade_direction,
        )
    }

    /// Converts pool tokens to trading tokens, proportionally to the
    /// reserves, with the caller's rounding policy.
    pub fn pool_tokens_to_trading_tokens(
        &self,
        pool_tokens: u128,
        pool_token_supply: u128,
        swap_token_a_amount: u128,
        swap_token_b_amount: u128,
        round_direction: crate::calculator::RoundDirection,
    ) -> (r: Option<crate::calculator::TradingTokenResult>)
        ensures
            r == crate::calculator::spec_pool_tokens_to_trading_tokens(
                pool_tokens,
                pool_token_supply,
                swap_token_a_amount,
                swap_token_b_amount,
                round_direction,
            ),
    {
        self.calculator.pool_tokens_to_trading_tokens(
            pool_tokens,
            pool_token_supply,
            swap_token_a_amount,
            swap_token_b_amount,
            round_direction,
        )
    }

    /// The pool-token amount issued by the first-ever deposit.
    pub fn new_pool_supply(&self) -> (r: u128)
        ensures
            r == crate::calculator::INITIAL_SWAP_POOL_AMOUNT,
    {
        self.calculator.new_pool_supply()
    }

    /// Appends the 33-byte wire form.
    pub fn pack_into_slice(&self, output: &mut Vec<u8>)
        ensures
            final(output)@ == old(output)@ + spec_swap_curve_bytes(*self),
    {
        let tag: u8 = match self.curve_type {
            CurveType::ConstantProduct => 0,
            CurveType::ConstantPrice => 1,
            CurveType::Stable => 2,
            CurveType::Offset => 3,
        };
        output.push(tag);
        self.calculator.pack_into_slice(output);
        proof {
            assert(output@ =~= old(output)@ + spec_swap_curve_bytes(*self));
        }
    }

    /// Reads a curve back from the first 33 bytes of `input`: the tag byte
    /// selects the calculator decoder.  Fails exactly on an unknown tag.
    pub fn unpack_from_slice(input: &[u8]) -> (r: Result<SwapCurve, SwapError>)
        requires
            input@.len() >= 33,
        ensures
            r is Ok <==> input@[0] <= 3,
            r matches Err(e) ==> e == SwapError::InvalidAccountData,
            r matches Ok(c) ==> {
                &&& c.wf()
                &&& spec_curve_type_u8(c.curve_type) == input@[0]
                &&& match c.calculator {
                    CurveCalculator::ConstantProduct(_) => true,
                    CurveCalculator::ConstantPrice(p) => p.token_b_price
                        == spec_u64_from_le_bytes(input@.subrange(1, 9)),
                    CurveCalculator::Stable(s) => s.amp == spec_u64_from_le_bytes(
                        input@.subrange(1, 9),
                    ),
                    CurveCalculator::Offset(o) => o.token_b_offset == spec_u64_from_le_bytes(
                        input@.subrange(1, 9),
                    ),
                }
            },
    {
        let tag = *slice_index_get(input, 0);
        let curve_type = CurveType::try_from(tag)?;
        let params = slice_subrange(input, 1, 33);
        proof {
            assert(params@.subrange(0, 8) =~= input@.subrange(1, 9));
        }
        let calculator = match curve_type {
            CurveType::ConstantProduct => CurveCalculator::ConstantProduct(
                ConstantProductCurve::unpack_from_slice(params),
            ),
            CurveType::ConstantPrice => CurveCalculator::ConstantPrice(
                ConstantPriceCurve::unpack_from_slice(params),
            ),
            CurveType::Stable => CurveCalculator::Stable(StableCurve::unpack_from_slice(params)),
            CurveType::Offset => CurveCalculator::Offset(OffsetCurve::unpack_from_slice(params)),
        };
        Ok(SwapCurve { curve_type, calculator })
    }
}

impl CurveType {
    /// The wire tag of each curve type, inverse of `try_from`.
    pub fn to_u8(&self) -> (r: u8)
        ensures
            r == spec_curve_type_u8(*self),
    {
        match self {
            CurveType::ConstantProduct => 0,
            CurveType::ConstantPrice => 1,
            CurveType::Stable => 2,
            CurveType::Offset => 3,
        }
    }

    /// Decodes a wire tag; tags above 3 are not account data this codec
    /// ever wrote.
    pub fn try_from(curve_type: u8) -> (r: Result<CurveType, SwapError>)
        ensures
            r is Ok <==> curve_type <= 3,
            r matches Ok(t) ==> spec_curve_type_u8(t) == curve_type,
            r matches Err(e) ==> e == SwapError::InvalidAccountData,
    {
        match curve_type {
            0 => Ok(CurveType::ConstantProduct),
            1 => Ok(CurveType::ConstantPrice),
            2 => Ok(CurveType::Stable),
            3 => Ok(CurveType::Offset),
            _ => Err(SwapError::InvalidAccountData),
        }
    }
}

impl Default for SwapCurve {
    /// The constant-product curve, the most common choice.
    fn default() -> (r: Self)
        ensures
            r.curve_type == CurveType::ConstantProduct,
            r.calculator == CurveCalculator::ConstantProduct(ConstantProductCurve {  }),
            r.wf(),
    {
        SwapCurve {
            curve_type: CurveType::ConstantProduct,
            calculator: CurveCalculator::ConstantProduct(ConstantProductCurve {  }),
        }
    }
}

impl Default for CurveType {
    /// The constant-product tag.
    fn default() -> (r: Self)
        ensures
            r == CurveType::ConstantProduct,
    {
        CurveType::ConstantProduct
    }
}

/// Round-trip law for the curve codec: decoding any byte sequence that
/// starts with the encoding of a well-formed curve yields that curve.
pub proof fn lemma_swap_curve_round_trip(c: SwapCurve, s: Seq<u8>)
    requires
        c.wf(),
        s.len() >= 33,
        s.subrange(0, 33) == spec_swap_curve_bytes(c),
    ensures
        s[0] == spec_curve_type_u8(c.curve_type),
        s[0] <= 3,
        match c.calculator {
            CurveCalculator::ConstantProduct(_) => true,
            CurveCalculator::ConstantPrice(p) => p.token_b_price == spec_u64_from_le_bytes(
                s.subrange(1, 9),
            ),
            CurveCalculator::Stable(st) => st.amp == spec_u64_from_le_bytes(s.subrange(1, 9)),
            CurveCalculator::Offset(o) => o.token_b_offset == spec_u64_from_le_bytes(
                s.subrange(1, 9),
            ),
        },
{
    lemma_auto_spec_u64_to_from_le_bytes();
    assert(s[0] == s.subrange(0, 33)[0]);
    assert(s.subrange(1, 9) =~= s.subrange(0, 33).subrange(1, 9));
    match c.calculator {
        CurveCalculator::ConstantProduct(_) => {},
        CurveCalculator::ConstantPrice(p) => {
            assert(s.subrange(0, 33).subrange(1, 9) =~= spec_u64_to_le_bytes(p.token_b_price));
        },
        CurveCalculator::Stable(st) => {
            assert(s.subrange(0, 33).subrange(1, 9) =~= spec_u64_to_le_bytes(st.amp));
        },
        CurveCalculator::Offset(o) => {
            assert(s.subrange(0, 33).subrange(1, 9) =~= spec_u64_to_le_bytes(o.token_b_offset));
        },
    }
}

} // verus!
