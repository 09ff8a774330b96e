//! The pricing curves, the orchestrator, and the integer square root.

use amm_core::base::{CurveType, SwapCurve};
use amm_core::calculator::{
    pool_tokens_to_trading_tokens, CurveCalculator, RoundDirection, TradeDirection,
    INITIAL_SWAP_POOL_AMOUNT,
};
use amm_core::constant_price::ConstantPriceCurve;
use amm_core::constant_product::{swap_without_fees, ConstantProductCurve};
use amm_core::error::SwapError;
use amm_core::fees::Fees;
use amm_core::math::sqrt;
use amm_core::offset::OffsetCurve;
use amm_core::processor::{to_u128, to_u64, Processor};
use amm_core::stable::{StableCurve, MAX_AMP, SOLVER_AMOUNT_BOUND};

fn cp_curve() -> SwapCurve {
    SwapCurve {
        curve_type: CurveType::ConstantProduct,
        calculator: CurveCalculator::ConstantProduct(ConstantProductCurve {}),
    }
}

fn zero_fees() -> Fees {
    Fees {
        trade_fee_numerator: 0,
        trade_fee_denominator: 10_000,
    }
}

#[test]
fn constant_product_swap_floor_division() {
    // 1000 - (1000 * 1000) / 1100 == 91 with floor division.
    let result = swap_without_fees(100, 1000, 1000).unwrap();
    assert_eq!(result.source_amount_swapped, 100);
    assert_eq!(result.destination_amount_swapped, 91);
}

#[test]
fn swap_with_zero_fees() {
    let curve = cp_curve();
    let fees = zero_fees();
    let result = curve
        .swap(100, 1000, 1000, TradeDirection::AtoB, &fees)
        .unwrap();
    assert_eq!(result.trade_fee, 0);
    assert_eq!(result.new_swap_amount, 100);
    assert_eq!(result.dest_amount, 91);
    assert_eq!(result.swap_source_amount, 1000);
    assert_eq!(result.dest_source_amount, 1000);
}

#[test]
fn swap_conserves_fee_plus_net() {
    let curve = cp_curve();
    let fees = Fees {
        trade_fee_numerator: 1,
        trade_fee_denominator: 100,
    };
    for source in [1u128, 2, 99, 100, 101, 1000, 123_456] {
        let result = curve
            .swap(source, 1_000_000, 2_000_000, TradeDirection::AtoB, &fees)
            .unwrap();
        assert_eq!(result.new_swap_amount + result.trade_fee, source);
    }
}

#[test]
fn swap_overflow_fails() {
    let curve = cp_curve();
    let fees = zero_fees();
    // The invariant product cannot be represented.
    assert!(curve
        .swap(1, u128::MAX, u128::MAX, TradeDirection::AtoB, &fees)
        .is_none());
}

#[test]
fn sqrt_bracketing_on_spread() {
    assert_eq!(sqrt(0), 0);
    assert_eq!(sqrt(1), 1);
    assert_eq!(sqrt(2), 1);
    assert_eq!(sqrt(3), 1);
    assert_eq!(sqrt(4), 2);
    assert_eq!(sqrt(99), 9);
    assert_eq!(sqrt(100), 10);
    assert_eq!(sqrt(u128::MAX), u64::MAX as u128);
    let exact = (u64::MAX as u128) * (u64::MAX as u128);
    assert_eq!(sqrt(exact), u64::MAX as u128);
    assert_eq!(sqrt(exact - 1), u64::MAX as u128 - 1);

    // A pseudo-random spread, checked against the bracketing property.
    let mut seed: u64 = 0x853c_49e6_748f_ea9b;
    for _ in 0..200 {
        seed = seed
            .wrapping_mul(6364136223846793005)
            .wrapping_add(1442695040888963407);
        let high = seed;
        seed = seed
            .wrapping_mul(6364136223846793005)
            .wrapping_add(1442695040888963407);
        let n = ((high as u128) << 64) | seed as u128;
        let r = sqrt(n);
        assert!(r * r <= n);
        // n < (r + 1)^2, stated without overflowing 128 bits.
        assert!(n / (r + 1) < r + 1);
    }
}

#[test]
fn deposit_single_geometric_mean() {
    let curve = cp_curve();
    let fees = zero_fees();
    // isqrt(1_010_000 * 1_000_000) = 1_004_987, so 1e9 * 4_987 / 1e6.
    let minted = curve
        .deposit_single_token_type(
            10_000,
            1_000_000,
            1_000_000,
            1_000_000_000,
            TradeDirection::AtoB,
            &fees,
        )
        .unwrap();
    assert_eq!(minted, 4_987_000);
    // Zero input mints zero.
    let minted = curve
        .deposit_single_token_type(
            0,
            1_000_000,
            1_000_000,
            1_000_000_000,
            TradeDirection::AtoB,
            &fees,
        )
        .unwrap();
    assert_eq!(minted, 0);
    // An empty reserve cannot price a deposit.
    assert!(curve
        .deposit_single_token_type(10, 0, 1_000_000, 1_000_000_000, TradeDirection::AtoB, &fees)
        .is_none());
}

#[test]
fn withdraw_single_rounds_up() {
    let curve = cp_curve();
    let fees = zero_fees();
    // isqrt(990_000 * 1_000_000) = 994_987, burn = ceil(1e9 * 5_013 / 1e6).
    let burned = curve
        .withdraw_single_token_type_exact_out(
            10_000,
            1_000_000,
            1_000_000,
            1_000_000_000,
            TradeDirection::AtoB,
            &fees,
        )
        .unwrap();
    assert_eq!(burned, 5_013_000);
    // Asking for more than the reserve fails.
    assert!(curve
        .withdraw_single_token_type_exact_out(
            2_000_000,
            1_000_000,
            1_000_000,
            1_000_000_000,
            TradeDirection::AtoB,
            &fees,
        )
        .is_none());
}

#[test]
fn deposit_charges_fee_on_half() {
    let curve = cp_curve();
    let fees = Fees {
        trade_fee_numerator: 1,
        trade_fee_denominator: 100,
    };
    // Half of 10_000 is 5_000; fee = 50; net deposit = 9_950.
    // isqrt(1_009_950 * 1_000_000) = 1_004_962, minted = 1e9 * 4_962 / 1e6.
    let minted = curve
        .deposit_single_token_type(
            10_000,
            1_000_000,
            1_000_000,
            1_000_000_000,
            TradeDirection::AtoB,
            &fees,
        )
        .unwrap();
    assert_eq!(minted, 4_962_000);
}

#[test]
fn constant_price_swaps_linearly() {
    let curve = SwapCurve {
        curve_type: CurveType::ConstantPrice,
        calculator: CurveCalculator::ConstantPrice(ConstantPriceCurve { token_b_price: 3 }),
    };
    let fees = zero_fees();
    let result = curve
        .swap(7, 1000, 1000, TradeDirection::BtoA, &fees)
        .unwrap();
    assert_eq!(result.dest_amount, 21);
    let result = curve
        .swap(7, 1000, 1000, TradeDirection::AtoB, &fees)
        .unwrap();
    assert_eq!(result.dest_amount, 2);
}

#[test]
fn constant_price_deposit_by_value() {
    let curve = ConstantPriceCurve { token_b_price: 2 };
    // Pool value = 100 + 50 * 2 = 200; depositing 40 token A mints
    // supply * 40 / 200.
    let minted = curve
        .deposit_single_token_type(40, 100, 50, 1000, TradeDirection::AtoB)
        .unwrap();
    assert_eq!(minted, 200);
    // Depositing 10 token B adds value 20.
    let minted = curve
        .deposit_single_token_type(10, 100, 50, 1000, TradeDirection::BtoA)
        .unwrap();
    assert_eq!(minted, 100);
    // Withdrawals round up: value 30 of 200 burns ceil(1000 * 30 / 200).
    let burned = curve
        .withdraw_single_token_type_exact_out(15, 100, 50, 1000, TradeDirection::BtoA)
        .unwrap();
    assert_eq!(burned, 150);
    let burned = curve
        .withdraw_single_token_type_exact_out(1, 100, 50, 1000, TradeDirection::AtoB)
        .unwrap();
    assert_eq!(burned, 5);
    let burned = curve
        .withdraw_single_token_type_exact_out(3, 100, 50, 999, TradeDirection::AtoB)
        .unwrap();
    // 999 * 3 / 200 = 14.985, rounded up.
    assert_eq!(burned, 15);
}

#[test]
fn offset_curve_prices_with_virtual_reserve() {
    let curve = SwapCurve {
        curve_type: CurveType::Offset,
        calculator: CurveCalculator::Offset(OffsetCurve { token_b_offset: 1000 }),
    };
    let fees = zero_fees();
    // Real token B reserve is zero; the offset makes it trade like a
    // (1000, 1000) constant-product pool.
    let result = curve.swap(100, 1000, 0, TradeDirection::AtoB, &fees).unwrap();
    assert_eq!(result.dest_amount, 91);
    // Single-sided deposits are not allowed on the offset curve.
    assert!(curve
        .deposit_single_token_type(10, 1000, 0, 1000, TradeDirection::AtoB, &fees)
        .is_none());
}

#[test]
fn stable_swap_near_parity() {
    let curve = SwapCurve {
        curve_type: CurveType::Stable,
        calculator: CurveCalculator::Stable(StableCurve { amp: 1 }),
    };
    let fees = zero_fees();
    let result = curve
        .swap(100, 1000, 1000, TradeDirection::AtoB, &fees)
        .unwrap();
    // At amp 1 the band is narrow but still beats constant product's 91.
    assert_eq!(result.dest_amount, 96);
    assert_eq!(result.new_swap_amount, 100);

    // Higher amplification holds the price closer to parity.
    let curve = SwapCurve {
        curve_type: CurveType::Stable,
        calculator: CurveCalculator::Stable(StableCurve { amp: 100 }),
    };
    let result = curve
        .swap(100, 1000, 1000, TradeDirection::AtoB, &fees)
        .unwrap();
    assert!(result.dest_amount > 96);
    assert!(result.dest_amount <= 100);
}

#[test]
fn stable_swap_larger_reserves() {
    let curve = SwapCurve {
        curve_type: CurveType::Stable,
        calculator: CurveCalculator::Stable(StableCurve { amp: 85 }),
    };
    let fees = Fees {
        trade_fee_numerator: 4,
        trade_fee_denominator: 10_000,
    };
    let result = curve
        .swap(
            1_000_000,
            500_000_000,
            400_000_000,
            TradeDirection::BtoA,
            &fees,
        )
        .unwrap();
    assert_eq!(result.trade_fee, 400);
    assert_eq!(result.new_swap_amount + result.trade_fee, 1_000_000);
    assert!(result.dest_amount > 0);
    assert!(result.dest_amount <= result.new_swap_amount + result.new_swap_amount / 10);
}

#[test]
fn stable_swap_succeeds_up_to_solver_bound() {
    // The solver promises success for reserves and amounts up to the bound.
    let curve = SwapCurve {
        curve_type: CurveType::Stable,
        calculator: CurveCalculator::Stable(StableCurve { amp: MAX_AMP }),
    };
    let fees = zero_fees();
    let result = curve
        .swap(
            SOLVER_AMOUNT_BOUND,
            SOLVER_AMOUNT_BOUND,
            SOLVER_AMOUNT_BOUND,
            TradeDirection::AtoB,
            &fees,
        )
        .unwrap();
    assert!(result.dest_amount > 0);
    assert!(result.dest_amount <= SOLVER_AMOUNT_BOUND);
    // An extremely lopsided pool still solves within the bound.
    let curve = SwapCurve {
        curve_type: CurveType::Stable,
        calculator: CurveCalculator::Stable(StableCurve { amp: 1 }),
    };
    let result = curve
        .swap(1, 1, SOLVER_AMOUNT_BOUND, TradeDirection::AtoB, &fees)
        .unwrap();
    assert!(result.dest_amount <= SOLVER_AMOUNT_BOUND);
}

#[test]
fn pool_token_conversion_rounding() {
    let floor = pool_tokens_to_trading_tokens(1, 3, 10, 20, RoundDirection::Floor).unwrap();
    assert_eq!(floor.token_a_amount, 3);
    assert_eq!(floor.token_b_amount, 6);
    let ceiling = pool_tokens_to_trading_tokens(1, 3, 10, 20, RoundDirection::Ceiling).unwrap();
    assert_eq!(ceiling.token_a_amount, 4);
    assert_eq!(ceiling.token_b_amount, 7);
    // Exact division is unchanged by the rounding policy.
    let exact = pool_tokens_to_trading_tokens(2, 4, 8, 16, RoundDirection::Ceiling).unwrap();
    assert_eq!(exact.token_a_amount, 4);
    assert_eq!(exact.token_b_amount, 8);
    // An empty pool supply cannot be converted against.
    assert!(pool_tokens_to_trading_tokens(1, 0, 10, 20, RoundDirection::Floor).is_none());
}

#[test]
fn curve_validation() {
    assert_eq!(
        CurveCalculator::ConstantProduct(ConstantProductCurve {}).validate(),
        Ok(())
    );
    assert_eq!(
        CurveCalculator::ConstantPrice(ConstantPriceCurve { token_b_price: 0 }).validate(),
        Err(SwapError::InvalidCurve)
    );
    assert_eq!(
        CurveCalculator::Stable(StableCurve { amp: 0 }).validate(),
        Err(SwapError::InvalidCurve)
    );
    assert_eq!(
        CurveCalculator::Stable(StableCurve { amp: MAX_AMP + 1 }).validate(),
        Err(SwapError::InvalidCurve)
    );
    assert_eq!(CurveCalculator::Stable(StableCurve { amp: 85 }).validate(), Ok(()));
    assert_eq!(
        CurveCalculator::Offset(OffsetCurve { token_b_offset: 0 }).validate(),
        Err(SwapError::InvalidCurve)
    );
}

#[test]
fn supply_validation() {
    let cp = CurveCalculator::ConstantProduct(ConstantProductCurve {});
    assert_eq!(cp.validate_supply(1, 1), Ok(()));
    assert_eq!(cp.validate_supply(0, 1), Err(SwapError::EmptySupply));
    assert_eq!(cp.validate_supply(1, 0), Err(SwapError::EmptySupply));
    let offset = CurveCalculator::Offset(OffsetCurve { token_b_offset: 5 });
    assert_eq!(offset.validate_supply(1, 0), Ok(()));
    assert_eq!(offset.validate_supply(0, 1), Err(SwapError::EmptySupply));
    assert!(!offset.allows_deposits());
    assert!(cp.allows_deposits());
}

#[test]
fn new_pool_supply_is_fixed() {
    let cp = CurveCalculator::ConstantProduct(ConstantProductCurve {});
    assert_eq!(cp.new_pool_supply(), INITIAL_SWAP_POOL_AMOUNT);
    assert_eq!(cp.new_pool_supply(), 1_000_000_000);
}

#[test]
fn curve_type_tags() {
    assert_eq!(CurveType::try_from(0).unwrap(), CurveType::ConstantProduct);
    assert_eq!(CurveType::try_from(1).unwrap(), CurveType::ConstantPrice);
    assert_eq!(CurveType::try_from(2).unwrap(), CurveType::Stable);
    assert_eq!(CurveType::try_from(3).unwrap(), CurveType::Offset);
    assert_eq!(CurveType::try_from(4).unwrap_err(), SwapError::InvalidAccountData);
    assert_eq!(CurveType::try_from(255).unwrap_err(), SwapError::InvalidAccountData);
    assert_eq!(CurveType::Stable.to_u8(), 2);
    assert_eq!(CurveType::default(), CurveType::ConstantProduct);
    let curve: SwapCurve = Default::default();
    assert_eq!(curve.curve_type, CurveType::ConstantProduct);
}

#[test]
fn processor_helpers() {
    assert_eq!(to_u128(7), Ok(7u128));
    assert_eq!(to_u64(7), Ok(7u64));
    assert_eq!(to_u64(u64::MAX as u128), Ok(u64::MAX));
    assert_eq!(
        to_u64(u64::MAX as u128 + 1),
        Err(SwapError::ConversionFailure)
    );
    // (10 + 10) * 100 / (100 + 100) == 10.
    assert_eq!(
        Processor::calculate_stable_lp_amount(100, 100, 100, 10, 10),
        Some(10)
    );
    assert_eq!(
        Processor::calculate_stable_lp_amount(100, 0, 0, 10, 10),
        None
    );
}
