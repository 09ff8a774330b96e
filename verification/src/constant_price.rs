//! The constant-price curve: a flat line exchanging `token_b_price` units of
//! token A for one unit of token B, with no slippage.
//!
//! Pool-token accounting values both reserves in token-A units: the pool's
//! total value is `token_a_reserve + token_b_reserve * token_b_price`, and a
//! single-sided deposit or withdrawal moves pool tokens in proportion to the
//! value it adds or removes (deposits round down, withdrawals round up).

use vstd::prelude::*;

use vstd::bytes::{spec_u64_from_le_bytes, spec_u64_to_le_bytes};

use crate::calculator::{SwapWithoutFeesResult, TradeDirection};
use crate::codec::{read_u64_le, write_u64_le, write_zeros, zero_bytes};
use crate::error::SwapError;

verus! {

/// The constant-price curve: how many token A units one token B is worth.
#[derive(Clone, Copy, Debug, PartialEq, Eq, Structural)]
pub struct ConstantPriceCurve {
    /// Price of one token B, in token A units.
    pub token_b_price: u64,
}

/// The amounts moved by a fee-free constant-price swap.  Trading A for B
/// pays out `floor(source / price)` and only takes the source amount that
/// converts exactly; trading B for A pays out `source * price`.
pub open spec fn spec_price_swap(
    source_amount: u128,
    token_b_price: u64,
    trade_direction: TradeDirection,
) -> Option<SwapWithoutFeesResult> {
    if token_b_price == 0 {
        None
    } else {
        match trade_direction {
            TradeDirection::AtoB => {
                let destination = source_amount as int / token_b_price as int;
                Some(
                    SwapWithoutFeesResult {
                        source_amount_swapped: (destination * token_b_price) as u128,
                        destination_amount_swapped: destination as u128,
                    },
                )
            },
            TradeDirection::BtoA => {
                if source_amount * token_b_price > u128::MAX {
                    None
                } else {
                    Some(
                        SwapWithoutFeesResult {
                            source_amount_swapped: source_amount,
                            destination_amount_swapped: (source_amount * token_b_price) as u128,
                        },
                    )
                }
            },
        }
    }
}

/// The token-A value carried by `amount` tokens of the trade's input side.
pub open spec fn spec_price_value(
    amount: u128,
    token_b_price: u64,
    trade_direction: TradeDirection,
) -> Option<int> {
    match trade_direction {
        TradeDirection::AtoB => Some(amount as int),
        TradeDirection::BtoA => {
            if amount * token_b_price > u128::MAX {
                None
            } else {
                Some(amount * token_b_price)
            }
        },
    }
}

/// The pool's total value in token-A units, when it fits.
pub open spec fn spec_price_total_value(
    swap_token_a_amount: u128,
    swap_token_b_amount: u128,
    token_b_price: u64,
) -> Option<int> {
    if swap_token_b_amount * token_b_price > u128::MAX {
        None
    } else if swap_token_b_amount * token_b_price + swap_token_a_amount > u128::MAX {
        None
    } else {
        Some(swap_token_b_amount * token_b_price + swap_token_a_amount)
    }
}

/// Pool tokens minted for a single-sided deposit: `floor(supply * value /
/// total_value)`.
pub open spec fn spec_price_deposit(
    source_amount: u128,
    swap_token_a_amount: u128,
    swap_token_b_amount: u128,
    pool_supply: u128,
    token_b_price: u64,
    trade_direction: TradeDirection,
) -> Option<u128> {
    match spec_price_total_value(swap_token_a_amount, swap_token_b_amount, token_b_price) {
        None => None,
        Some(total) => {
            if total == 0 {
                None
            } else {
                match spec_price_value(source_amount, token_b_price, trade_direction) {
                    None => None,
                    Some(value) => {
                        if pool_supply * value > u128::MAX {
                            None
                        } else {
                            Some(((pool_supply * value) / total) as u128)
                        }
                    },
                }
            }
        },
    }
}

/// Pool tokens burned for a single-sided exact-out withdrawal:
/// `ceil(supply * value / total_value)`.
pub open spec fn spec_price_withdraw(
    destination_amount: u128,
    swap_token_a_amount: u128,
    swap_token_b_amount: u128,
    pool_supply: u128,
    token_b_price: u64,
    trade_direction: TradeDirection,
) -> Option<u128> {
    match spec_price_total_value(swap_token_a_amount, swap_token_b_amount, token_b_price) {
        None => None,
        Some(total) => {
            if total == 0 {
                None
            } else {
                match spec_price_value(destination_amount, token_b_price, trade_direction) {
                    None => None,
                    Some(value) => {
                        if pool_supply * value > u128::MAX {
                            None
                        } else {
                            let num = pool_supply * value;
                            if num % total != 0 {
                                Some((num / total + 1) as u128)
                            } else {
                                Some((num / total) as u128)
                            }
                        }
                    },
                }
            }
        },
    }
}

/// The 32-byte wire form: the price, little-endian, then padding.
pub open spec fn spec_price_bytes(c: ConstantPriceCurve) -> Seq<u8> {
    spec_u64_to_le_bytes(c.token_b_price) + zero_bytes(24)
}

impl ConstantPriceCurve {
    /// A fee-free swap at the fixed price.
    pub fn swap_without_fees(
        &self,
        source_amount: u128,
        trade_direction: TradeDirection,
    ) -> (r: Option<SwapWithoutFeesResult>)
        ensures
            r == spec_price_swap(source_amount, self.token_b_price, trade_direction),
    {
        let price = self.token_b_price as u128;
        if price == 0 {
            return None;
        }
        match trade_direction {
            TradeDirection::AtoB => {
                let destination = source_amount / price;
                proof {
                    assert(destination * price <= source_amount) by (nonlinear_arith)
                        requires
                            destination == source_amount as int / price as int,
                            price > 0,
                            source_amount >= 0,
                    ;
                }
                Some(
                    SwapWithoutFeesResult {
                        source_amount_swapped: destination * price,
                        destination_amount_swapped: destination,
                    },
                )
            },
            TradeDirection::BtoA => {
                let destination = source_amount.checked_mul(price)?;
                Some(
                    SwapWithoutFeesResult {
                        source_amount_swapped: source_amount,
                        destination_amount_swapped: destination,
                    },
                )
            },
        }
    }

    /// Pool tokens minted for a single-sided deposit, by pool value.
    pub fn deposit_single_token_type(
        &self,
        source_amount: u128,
        swap_token_a_amount: u128,
        swap_token_b_amount: u128,
        pool_supply: u128,
        trade_direction: TradeDirection,
    ) -> (r: Option<u128>)
        ensures
            r == spec_price_deposit(
                source_amount,
                swap_token_a_amount,
                swap_token_b_amount,
                pool_supply,
                self.token_b_price,
                trade_direction,
            ),
    {
        let price = self.token_b_price as u128;
        let b_value = swap_token_b_amount.checked_mul(price)?;
        let total = b_value.checked_add(swap_token_a_amount)?;
        if total == 0 {
            return None;
        }
        let value = match trade_direction {
            TradeDirection::AtoB => source_amount,
            TradeDirection::BtoA => source_amount.checked_mul(price)?,
        };
        let num = pool_supply.checked_mul(value)?;
        Some(num / total)
    }

    /// Pool tokens burned for a single-sided exact-out withdrawal, by pool
    /// value.
    pub fn withdraw_single_token_type_exact_out(
        &self,
        destination_amount: u128,
        swap_token_a_amount: u128,
        swap_token_b_amount: u128,
        pool_supply: u128,
        trade_direction: TradeDirection,
    ) -> (r: Option<u128>)
        ensures
            r == spec_price_withdraw(
                destination_amount,
                swap_token_a_amount,
                swap_token_b_amount,
                pool_supply,
                self.token_b_price,
                trade_direction,
            ),
    {
        let price = self.token_b_price as u128;
        let b_value = swap_token_b_amount.checked_mul(price)?;
        let total = b_value.checked_add(swap_token_a_amount)?;
        if total == 0 {
            return None;
        }
        let value = match trade_direction {
            TradeDirection::AtoB => destination_amount,
            TradeDirection::BtoA => destination_amount.checked_mul(price)?,
        };
        let num = pool_supply.checked_mul(value)?;
        let quot = num / total;
        if num % total != 0 {
            proof {
                assert(quot < u128::MAX) by (nonlinear_arith)
                    requires
                        quot == num as int / total as int,
                        num % total != 0,
                        num <= u128::MAX,
                        total > 0,
                ;
            }
            Some(quot + 1)
        } else {
            Some(quot)
        }
    }

    /// The price must be nonzero.
    pub fn validate(&self) -> (r: Result<(), SwapError>)
        ensures
            r is Ok <==> self.token_b_price != 0,
            r is Err ==> r == Result::<(), SwapError>::Err(SwapError::InvalidCurve),
    {
        if self.token_b_price == 0 {
            Err(SwapError::InvalidCurve)
        } else {
            Ok(())
        }
    }

    /// Token A must be funded; the pegged side may start empty.
    pub fn validate_supply(&self, token_a_amount: u64, _token_b_amount: u64) -> (r: Result<
        (),
        SwapError,
    >)
        ensures
            r is Ok <==> token_a_amount != 0,
            r is Err ==> r == Result::<(), SwapError>::Err(SwapError::EmptySupply),
    {
        if token_a_amount == 0 {
            Err(SwapError::EmptySupply)
        } else {
            Ok(())
        }
    }

    /// Appends the curve's 32-byte parameter slot.
    pub fn pack_into_slice(&self, output: &mut Vec<u8>)
        ensures
            final(output)@ == old(output)@ + spec_price_bytes(*self),
    {
        write_u64_le(output, self.token_b_price);
        write_zeros(output, 24);
        proof {
            assert(output@ =~= old(output)@ + spec_price_bytes(*self));
        }
    }

    /// Reads the curve back from the first 32 bytes of its parameter slot.
    pub fn unpack_from_slice(input: &[u8]) -> (r: ConstantPriceCurve)
        requires
            input@.len() >= 32,
        ensures
            r.token_b_price == spec_u64_from_le_bytes(input@.subrange(0, 8)),
    {
        ConstantPriceCurve { token_b_price: read_u64_le(input, 0) }
    }
}

} // verus!
