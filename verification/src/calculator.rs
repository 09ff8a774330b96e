//! The capability set shared by all pricing curves, and the closed dispatch
//! enum over the four curve variants.
//!
//! Single-sided deposits and exact-out withdrawals share one geometric-mean
//! rule across the invariant-solving curves: depositing `dx` on a side whose
//! reserve is `r` scales the pool by `sqrt((r + dx) / r)`, so the pool tokens
//! minted are `floor(supply * (isqrt((r + dx) * r) - r) / r)`, and the tokens
//! burned for an exact-out withdrawal are the ceiling of the symmetric
//! expression.  Deposits round down and withdrawals round up, always in the
//! pool's favour.

use vstd::prelude::*;

use crate::codec::zero_bytes;
use crate::constant_price::{
    spec_price_bytes, spec_price_deposit, spec_price_swap, spec_price_withdraw,
    ConstantPriceCurve,
};
use crate::constant_product::{spec_cp_swap, ConstantProductCurve};
use crate::error::SwapError;
use crate::math::{isqrt, lemma_isqrt_lower, lemma_isqrt_upper, sqrt};
use crate::offset::{spec_offset_bytes, spec_offset_swap, OffsetCurve};
use crate::stable::{
    spec_stable_bytes, spec_stable_d_ok, spec_stable_y_ok, StableCurve, MAX_AMP, MIN_AMP,
    SOLVER_AMOUNT_BOUND,
};

verus! {

/// The number of pool tokens minted by the first-ever deposit.
pub const INITIAL_SWAP_POOL_AMOUNT: u128 = 1_000_000_000;

/// Which reserve is the input side of a trade.
#[derive(Clone, Copy, Debug, PartialEq, Eq, Structural)]
pub enum TradeDirection {
    /// Token A is paid in, token B is paid out.
    AtoB,
    /// Token B is paid in, token A is paid out.
    BtoA,
}

/// Rounding policy for conversions between pool tokens and trading tokens.
#[derive(Clone, Copy, Debug, PartialEq, Eq, Structural)]
pub enum RoundDirection {
    /// Round down, in the pool's favour on deposits of pool tokens.
    Floor,
    /// Round up, in the pool's favour on withdrawals of pool tokens.
    Ceiling,
}

/// The two amounts moved by a fee-free swap.
#[derive(Clone, Copy, Debug, PartialEq, Eq, Structural)]
pub struct SwapWithoutFeesResult {
    /// Amount of source tokens taken from the trader.
    pub source_amount_swapped: u128,
    /// Amount of destination tokens handed to the trader.
    pub destination_amount_swapped: u128,
}

/// Trading-token amounts corresponding to an amount of pool tokens.
#[derive(Clone, Copy, Debug, PartialEq, Eq, Structural)]
pub struct TradingTokenResult {
    /// Amount of token A.
    pub token_a_amount: u128,
    /// Amount of token B.
    pub token_b_amount: u128,
}

/// The reserve of the trade's input side.
pub open spec fn spec_source_reserve(
    direction: TradeDirection,
    token_a_amount: u128,
    token_b_amount: u128,
) -> u128 {
    match direction {
        TradeDirection::AtoB => token_a_amount,
        TradeDirection::BtoA => token_b_amount,
    }
}

/// Pool tokens minted for a single-sided deposit of `source_amount` onto a
/// side holding `reserve`: `floor(supply * (isqrt((reserve + dx) * reserve)
/// - reserve) / reserve)`, or `None` when a step overflows or the reserve is
/// empty.
pub open spec fn spec_deposit_single(
    source_amount: u128,
    reserve: u128,
    pool_supply: u128,
) -> Option<u128> {
    if reserve == 0 {
        None
    } else if reserve + source_amount > u128::MAX {
        None
    } else if (reserve + source_amount) * reserve > u128::MAX {
        None
    } else {
        let root = isqrt((reserve + source_amount) * reserve);
        if pool_supply * (root - reserve) > u128::MAX {
            None
        } else {
            Some(((pool_supply * (root - reserve)) / (reserve as int)) as u128)
        }
    }
}

/// Pool tokens burned for an exact-out withdrawal of `destination_amount`
/// from a side holding `reserve`: the ceiling of `supply * (reserve -
/// isqrt((reserve - dx) * reserve)) / reserve`, or `None` when a step
/// overflows, the reserve is empty, or more than the whole reserve is asked
/// for.
pub open spec fn spec_withdraw_single(
    destination_amount: u128,
    reserve: u128,
    pool_supply: u128,
) -> Option<u128> {
    if reserve == 0 {
        None
    } else if destination_amount > reserve {
        None
    } else if (reserve - destination_amount) * reserve > u128::MAX {
        None
    } else {
        let root = isqrt((reserve - destination_amount) * reserve);
        if pool_supply * (reserve - root) > u128::MAX {
            None
        } else {
            let num = pool_supply * (reserve - root);
            if num % (reserve as int) != 0 {
                Some((num / (reserve as int) + 1) as u128)
            } else {
                Some((num / (reserve as int)) as u128)
            }
        }
    }
}

/// The geometric-mean deposit rule shared by the invariant-solving curves.
pub fn deposit_single_token_type(
    source_amount: u128,
    swap_token_a_amount: u128,
    swap_token_b_amount: u128,
    pool_supply: u128,
    trade_direction: TradeDirection,
) -> (r: Option<u128>)
    ensures
        r == spec_deposit_single(
            source_amount,
            spec_source_reserve(trade_direction, swap_token_a_amount, swap_token_b_amount),
            pool_supply,
        ),
{
    let reserve = match trade_direction {
        TradeDirection::AtoB => swap_token_a_amount,
        TradeDirection::BtoA => swap_token_b_amount,
    };
    if reserve == 0 {
        return None;
    }
    let total = reserve.checked_add(source_amount)?;
    let prod = total.checked_mul(reserve)?;
    let root = sqrt(prod);
    proof {
        assert(reserve * reserve <= prod) by (nonlinear_arith)
            requires
                prod == total * reserve,
                reserve <= total,
                0 <= reserve,
        ;
        lemma_isqrt_lower(prod as int, reserve as int);
    }
    let diff = root - reserve;
    let num = pool_supply.checked_mul(diff)?;
    Some(num / reserve)
}

/// The geometric-mean withdrawal rule shared by the invariant-solving
/// curves.
pub fn withdraw_single_token_type_exact_out(
    destination_amount: u128,
    swap_token_a_amount: u128,
    swap_token_b_amount: u128,
    pool_supply: u128,
    trade_direction: TradeDirection,
) -> (r: Option<u128>)
    ensures
        r == spec_withdraw_single(
            destination_amount,
            spec_source_reserve(trade_direction, swap_token_a_amount, swap_token_b_amount),
            pool_supply,
        ),
{
    let reserve = match trade_direction {
        TradeDirection::AtoB => swap_token_a_amount,
        TradeDirection::BtoA => swap_token_b_amount,
    };
    if reserve == 0 {
        return None;
    }
    let rem = reserve.checked_sub(destination_amount)?;
    let prod = rem.checked_mul(reserve)?;
    let root = sqrt(prod);
    proof {
        assert(prod < (reserve + 1) * (reserve + 1)) by (nonlinear_arith)
            requires
                prod == rem * reserve,
                rem <= reserve,
                0 <= reserve,
        ;
        lemma_isqrt_upper(prod as int, reserve as int);
    }
    let diff = reserve - root;
    let num = pool_supply.checked_mul(diff)?;
    let quot = num / reserve;
    if num % reserve != 0 {
        proof {
            assert(quot < u128::MAX) by (nonlinear_arith)
                requires
                    quot == num as int / reserve as int,
                    num % reserve != 0,
                    num <= u128::MAX,
                    reserve > 0,
            ;
        }
        Some(quot + 1)
    } else {
        Some(quot)
    }
}

/// `pool_tokens / pool_token_supply` of each reserve, rounded by
/// `round_direction`: `None` when the pool supply is zero or a product
/// overflows.
pub open spec fn spec_pool_tokens_to_trading_tokens(
    pool_tokens: u128,
    pool_token_supply: u128,
    swap_token_a_amount: u128,
    swap_token_b_amount: u128,
    round_direction: RoundDirection,
) -> Option<TradingTokenResult> {
    if pool_token_supply == 0 {
        None
    } else if pool_tokens * swap_token_a_amount > u128::MAX {
        None
    } else if pool_tokens * swap_token_b_amount > u128::MAX {
        None
    } else {
        let num_a = pool_tokens * swap_token_a_amount;
        let num_b = pool_tokens * swap_token_b_amount;
        let supply = pool_token_supply as int;
        match round_direction {
            RoundDirection::Floor => Some(
                TradingTokenResult {
                    token_a_amount: (num_a / supply) as u128,
                    token_b_amount: (num_b / supply) as u128,
                },
            ),
            RoundDirection::Ceiling => Some(
                TradingTokenResult {
                    token_a_amount: (num_a / supply + if num_a % supply != 0 {
                        1int
                    } else {
                        0int
                    }) as u128,
                    token_b_amount: (num_b / supply + if num_b % supply != 0 {
                        1int
                    } else {
                        0int
                    }) as u128,
                },
            ),
        }
    }
}

/// Converts an amount of pool tokens to the trading-token amounts it stands
/// for, proportionally to the reserves, with the caller's rounding policy.
pub fn pool_tokens_to_trading_tokens(
    pool_tokens: u128,
    pool_token_supply: u128,
    swap_token_a_amount: u128,
    swap_token_b_amount: u128,
    round_direction: RoundDirection,
) -> (r: Option<TradingTokenResult>)
    ensures
        r == spec_pool_tokens_to_trading_tokens(
            pool_tokens,
            pool_token_supply,
            swap_token_a_amount,
            swap_token_b_amount,
            round_direction,
        ),
{
    if pool_token_supply == 0 {
        return None;
    }
    let num_a = pool_tokens.checked_mul(swap_token_a_amount)?;
    let num_b = pool_tokens.checked_mul(swap_token_b_amount)?;
    match round_direction {
        RoundDirection::Floor => Some(
            TradingTokenResult {
                token_a_amount: num_a / pool_token_supply,
                token_b_amount: num_b / pool_token_supply,
            },
        ),
        RoundDirection::Ceiling => {
            let quot_a = num_a / pool_token_supply;
            let quot_b = num_b / pool_token_supply;
            proof {
                assert(num_a % pool_token_supply != 0 ==> quot_a < u128::MAX)
                    by (nonlinear_arith)
                    requires
                        quot_a == num_a as int / pool_token_supply as int,
                        num_a <= u128::MAX,
                        pool_token_supply > 0,
                ;
                assert(num_b % pool_token_supply != 0 ==> quot_b < u128::MAX)
                    by (nonlinear_arith)
                    requires
                        quot_b == num_b as int / pool_token_supply as int,
                        num_b <= u128::MAX,
                        pool_token_supply > 0,
                ;
            }
            let token_a_amount = if num_a % pool_token_supply != 0 {
                quot_a + 1
            } else {
                quot_a
            };
            let token_b_amount = if num_b % pool_token_supply != 0 {
                quot_b + 1
            } else {
                quot_b
            };
            Some(TradingTokenResult { token_a_amount, token_b_amount })
        },
    }
}

/// The pool-token amount issued by the first-ever deposit.
pub fn new_pool_supply() -> (r: u128)
    ensures
        r == INITIAL_SWAP_POOL_AMOUNT,
{
    INITIAL_SWAP_POOL_AMOUNT
}

/// One concrete parameter set per curve type, dispatched by `match`.
#[derive(Clone, Copy, Debug, PartialEq, Eq, Structural)]
pub enum CurveCalculator {
    /// `x * y = k`.
    ConstantProduct(ConstantProductCurve),
    /// A fixed exchange ratio.
    ConstantPrice(ConstantPriceCurve),
    /// A wide near-parity band.
    Stable(StableCurve),
    /// Constant product over a partly virtual token B reserve.
    Offset(OffsetCurve),
}

/// What a fee-free swap through `calc` may return: an exact value for the
/// closed-form curves, and a bracketing certificate for the iteratively
/// solved stable curve.
pub open spec fn spec_swap_result(
    calc: CurveCalculator,
    source_amount: u128,
    swap_source_amount: u128,
    swap_destination_amount: u128,
    trade_direction: TradeDirection,
    r: Option<SwapWithoutFeesResult>,
) -> bool {
    match calc {
        CurveCalculator::ConstantProduct(_) => r == spec_cp_swap(
            source_amount,
            swap_source_amount,
            swap_destination_amount,
        ),
        CurveCalculator::ConstantPrice(c) => r == spec_price_swap(
            source_amount,
            c.token_b_price,
            trade_direction,
        ),
        CurveCalculator::Stable(c) => r matches Some(res) ==> {
            &&& res.source_amount_swapped == source_amount
            &&& swap_source_amount + source_amount <= u128::MAX
            &&& exists|d: int, yn: int|
                {
                    &&& #[trigger] spec_stable_d_ok(
                        c.amp as int,
                        swap_source_amount as int,
                        swap_destination_amount as int,
                        d,
                    )
                    &&& #[trigger] spec_stable_y_ok(
                        c.amp as int,
                        swap_source_amount + source_amount,
                        d,
                        yn,
                    )
                    &&& res.destination_amount_swapped == if yn + 1 <= swap_destination_amount {
                        swap_destination_amount - (yn + 1)
                    } else {
                        0
                    }
                }
        },
        CurveCalculator::Offset(c) => r == spec_offset_swap(
            source_amount,
            swap_source_amount,
            swap_destination_amount,
            c.token_b_offset,
            trade_direction,
        ),
    }
}

/// Pool tokens minted by a single-sided deposit through `calc`.
pub open spec fn spec_calc_deposit(
    calc: CurveCalculator,
    source_amount: u128,
    swap_token_a_amount: u128,
    swap_token_b_amount: u128,
    pool_supply: u128,
    trade_direction: TradeDirection,
) -> Option<u128> {
    match calc {
        CurveCalculator::ConstantProduct(_) => spec_deposit_single(
            source_amount,
            spec_source_reserve(trade_direction, swap_token_a_amount, swap_token_b_amount),
            pool_supply,
        ),
        CurveCalculator::ConstantPrice(c) => spec_price_deposit(
            source_amount,
            swap_token_a_amount,
            swap_token_b_amount,
            pool_supply,
            c.token_b_price,
            trade_direction,
        ),
        CurveCalculator::Stable(_) => spec_deposit_single(
            source_amount,
            spec_source_reserve(trade_direction, swap_token_a_amount, swap_token_b_amount),
            pool_supply,
        ),
        CurveCalculator::Offset(_) => None,
    }
}

/// Pool tokens burned by a single-sided exact-out withdrawal through
/// `calc`.
pub open spec fn spec_calc_withdraw(
    calc: CurveCalculator,
    destination_amount: u128,
    swap_token_a_amount: u128,
    swap_token_b_amount: u128,
    pool_supply: u128,
    trade_direction: TradeDirection,
) -> Option<u128> {
    match calc {
        CurveCalculator::ConstantProduct(_) => spec_withdraw_single(
            destination_amount,
            spec_source_reserve(trade_direction, swap_token_a_amount, swap_token_b_amount),
            pool_supply,
        ),
        CurveCalculator::ConstantPrice(c) => spec_price_withdraw(
            destination_amount,
            swap_token_a_amount,
            swap_token_b_amount,
            pool_supply,
            c.token_b_price,
            trade_direction,
        ),
        CurveCalculator::Stable(_) => spec_withdraw_single(
            destination_amount,
            spec_source_reserve(trade_direction, swap_token_a_amount, swap_token_b_amount),
            pool_supply,
        ),
        CurveCalculator::Offset(c) => {
            if swap_token_b_amount + c.token_b_offset > u128::MAX {
                None
            } else {
                spec_withdraw_single(
                    destination_amount,
                    spec_source_reserve(
                        trade_direction,
                        swap_token_a_amount,
                        (swap_token_b_amount + c.token_b_offset) as u128,
                    ),
                    pool_supply,
                )
            }
        },
    }
}

/// Whether `calc`'s own parameters are valid.
pub open spec fn spec_calc_valid(calc: CurveCalculator) -> bool {
    match calc {
        CurveCalculator::ConstantProduct(_) => true,
        CurveCalculator::ConstantPrice(c) => c.token_b_price != 0,
        CurveCalculator::Stable(c) => crate::stable::MIN_AMP <= c.amp && c.amp
            <= crate::stable::MAX_AMP,
        CurveCalculator::Offset(c) => c.token_b_offset != 0,
    }
}

/// Whether initial reserves satisfy `calc`'s preconditions.
pub open spec fn spec_calc_supply_valid(
    calc: CurveCalculator,
    token_a_amount: u64,
    token_b_amount: u64,
) -> bool {
    match calc {
        CurveCalculator::ConstantProduct(_) => token_a_amount != 0 && token_b_amount != 0,
        CurveCalculator::ConstantPrice(_) => token_a_amount != 0,
        CurveCalculator::Stable(_) => token_a_amount != 0 && token_b_amount != 0,
        CurveCalculator::Offset(_) => token_a_amount != 0,
    }
}

/// The 32-byte parameter slot of `calc`.
pub open spec fn spec_calculator_bytes(calc: CurveCalculator) -> Seq<u8> {
    match calc {
        CurveCalculator::ConstantProduct(_) => zero_bytes(32),
        CurveCalculator::ConstantPrice(c) => spec_price_bytes(c),
        CurveCalculator::Stable(c) => spec_stable_bytes(c),
        CurveCalculator::Offset(c) => spec_offset_bytes(c),
    }
}

impl CurveCalculator {
    /// A fee-free swap through the active curve.
    pub fn swap_without_fees(
        &self,
        source_amount: u128,
        swap_source_amount: u128,
        swap_destination_amount: u128,
        trade_direction: TradeDirection,
    ) -> (r: Option<SwapWithoutFeesResult>)
        ensures
            spec_swap_result(
                *self,
                source_amount,
                swap_source_amount,
                swap_destination_amount,
                trade_direction,
                r,
            ),
            ({
                &&& self matches CurveCalculator::Stable(c) && MIN_AMP <= c.amp <= MAX_AMP
                &&& 1 <= swap_source_amount <= SOLVER_AMOUNT_BOUND
                &&& 1 <= swap_destination_amount <= SOLVER_AMOUNT_BOUND
                &&& source_amount <= SOLVER_AMOUNT_BOUND
            }) ==> r is Some,
    {
        match self {
            CurveCalculator::ConstantProduct(_) => crate::constant_product::swap_without_fees(
                source_amount,
                swap_source_amount,
                swap_destination_amount,
            ),
            CurveCalculator::ConstantPrice(c) => c.swap_without_fees(
                source_amount,
                trade_direction,
            ),
            CurveCalculator::Stable(c) => c.swap_without_fees(
                source_amount,
                swap_source_amount,
                swap_destination_amount,
                trade_direction,
            ),
            CurveCalculator::Offset(c) => c.swap_without_fees(
                source_amount,
                swap_source_amount,
                swap_destination_amount,
                trade_direction,
            ),
        }
    }

    /// Pool tokens minted for a single-sided deposit through the active
    /// curve; the offset curve refuses single-sided deposits.
    pub fn deposit_single_token_type(
        &self,
        source_amount: u128,
        swap_token_a_amount: u128,
        swap_token_b_amount: u128,
        pool_supply: u128,
        trade_direction: TradeDirection,
    ) -> (r: Option<u128>)
        ensures
            r == spec_calc_deposit(
                *self,
                source_amount,
                swap_token_a_amount,
                swap_token_b_amount,
                pool_supply,
                trade_direction,
            ),
    {
        match self {
            CurveCalculator::ConstantProduct(_) => deposit_single_token_type(
                source_amount,
                swap_token_a_amount,
                swap_token_b_amount,
                pool_supply,
                trade_direction,
            ),
            CurveCalculator::ConstantPrice(c) => c.deposit_single_token_type(
                source_amount,
                swap_token_a_amount,
                swap_token_b_amount,
                pool_supply,
                trade_direction,
            ),
            CurveCalculator::Stable(_) => deposit_single_token_type(
                source_amount,
                swap_token_a_amount,
                swap_token_b_amount,
                pool_supply,
                trade_direction,
            ),
            CurveCalculator::Offset(_) => None,
        }
    }

    /// Pool tokens burned for a single-sided exact-out withdrawal through
    /// the active curve.
    pub fn withdraw_single_token_type_exact_out(
        &self,
        destination_amount: u128,
        swap_token_a_amount: u128,
        swap_token_b_amount: u128,
        pool_supply: u128,
        trade_direction: TradeDirection,
    ) -> (r: Option<u128>)
        ensures
            r == spec_calc_withdraw(
                *self,
                destination_amount,
                swap_token_a_amount,
                swap_token_b_amount,
                pool_supply,
                trade_direction,
            ),
    {
        match self {
            CurveCalculator::ConstantProduct(_) => withdraw_single_token_type_exact_out(
                destination_amount,
                swap_token_a_amount,
                swap_token_b_amount,
                pool_supply,
                trade_direction,
            ),
            CurveCalculator::ConstantPrice(c) => c.withdraw_single_token_type_exact_out(
                destination_amount,
                swap_token_a_amount,
                swap_token_b_amount,
                pool_supply,
                trade_direction,
            ),
            CurveCalculator::Stable(_) => withdraw_single_token_type_exact_out(
                destination_amount,
                swap_token_a_amount,
                swap_token_b_amount,
                pool_supply,
                trade_direction,
            ),
            CurveCalculator::Offset(c) => c.withdraw_single_token_type_exact_out(
                destination_amount,
                swap_token_a_amount,
                swap_token_b_amount,
                pool_supply,
                trade_direction,
            ),
        }
    }

    /// Converts pool tokens to trading tokens, proportionally to the
    /// reserves; every curve shares this rule.
    pub fn pool_tokens_to_trading_tokens(
        &self,
        pool_tokens: u128,
        pool_token_supply: u128,
        swap_token_a_amount: u128,
        swap_token_b_amount: u128,
        round_direction: RoundDirection,
    ) -> (r: Option<TradingTokenResult>)
        ensures
            r == spec_pool_tokens_to_trading_tokens(
                pool_tokens,
                pool_token_supply,
                swap_token_a_amount,
                swap_token_b_amount,
                round_direction,
            ),
    {
        pool_tokens_to_trading_tokens(
            pool_tokens,
            pool_token_supply,
            swap_token_a_amount,
            swap_token_b_amount,
            round_direction,
        )
    }

    /// The initial pool-token issue, the same for every curve.
    pub fn new_pool_supply(&self) -> (r: u128)
        ensures
            r == INITIAL_SWAP_POOL_AMOUNT,
    {
        new_pool_supply()
    }

    /// Accepts the calculator exactly when its parameters are valid.
    pub fn validate(&self) -> (r: Result<(), SwapError>)
        ensures
            r is Ok <==> spec_calc_valid(*self),
            r is Err ==> r == Result::<(), SwapError>::Err(SwapError::InvalidCurve),
    {
        match self {
            CurveCalculator::ConstantProduct(c) => c.validate(),
            CurveCalculator::ConstantPrice(c) => c.validate(),
            CurveCalculator::Stable(c) => c.validate(),
            CurveCalculator::Offset(c) => c.validate(),
        }
    }

    /// Accepts initial reserves exactly when they satisfy the curve's
    /// preconditions.
    pub fn validate_supply(&self, token_a_amount: u64, token_b_amount: u64) -> (r: Result<
        (),
        SwapError,
    >)
        ensures
            r is Ok <==> spec_calc_supply_valid(*self, token_a_amount, token_b_amount),
            r is Err ==> r == Result::<(), SwapError>::Err(SwapError::EmptySupply),
    {
        match self {
            CurveCalculator::ConstantProduct(c) => c.validate_supply(token_a_amount, token_b_amount),
            CurveCalculator::ConstantPrice(c) => c.validate_supply(token_a_amount, token_b_amount),
            CurveCalculator::Stable(c) => c.validate_supply(token_a_amount, token_b_amount),
            CurveCalculator::Offset(c) => c.validate_supply(token_a_amount, token_b_amount),
        }
    }

    /// Whether the curve accepts single-sided deposits.
    pub fn allows_deposits(&self) -> (r: bool)
        ensures
            r <==> !(self matches CurveCalculator::Offset(_)),
    {
        match self {
            CurveCalculator::Offset(_) => false,
            _ => true,
        }
    }

    /// Appends the curve's 32-byte parameter slot.
    pub fn pack_into_slice(&self, output: &mut Vec<u8>)
        ensures
            final(output)@ == old(output)@ + spec_calculator_bytes(*self),
    {
        match self {
            CurveCalculator::ConstantProduct(c) => c.pack_into_slice(output),
            CurveCalculator::ConstantPrice(c) => c.pack_into_slice(output),
            CurveCalculator::Stable(c) => c.pack_into_slice(output),
            CurveCalculator::Offset(c) => c.pack_into_slice(output),
        }
    }
}

} // verus!
