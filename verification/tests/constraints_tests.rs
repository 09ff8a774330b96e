//! Owner-defined deployment constraints, over both schemas.

use amm_core::amm_constraints;
use amm_core::amm_fees;
use amm_core::base::{CurveType, SwapCurve};
use amm_core::calculator::CurveCalculator;
use amm_core::constant_product::ConstantProductCurve;
use amm_core::constraints;
use amm_core::error::SwapError;
use amm_core::fees;

#[test]
fn validate_fees() {
    let return_fee_numerator: u64 = 2;
    let fixed_fee_numerator: u64 = 1;
    let fee_denominator: u64 = 100;
    let owner_key = "";
    let curve_type = CurveType::ConstantProduct;
    let valid_fees = amm_fees::Fees {
        return_fee_numerator,
        fixed_fee_numerator,
        fee_denominator,
    };
    let calculator = ConstantProductCurve {};
    let swap_curve = SwapCurve {
        curve_type,
        calculator: CurveCalculator::ConstantProduct(calculator),
    };
    let constraints = amm_constraints::SwapConstraints {
        owner_key,
        valid_curve_types: &[curve_type],
        fees: &valid_fees,
    };

    constraints.validate_curve(&swap_curve).unwrap();
    constraints.validate_fees(&valid_fees).unwrap();

    let mut fees = valid_fees.clone();
    fees.return_fee_numerator = return_fee_numerator - 1;
    assert_eq!(Err(SwapError::InvalidFee), constraints.validate_fees(&fees));
    fees.return_fee_numerator = return_fee_numerator;

    // passing higher fee is ok
    fees.fixed_fee_numerator = fixed_fee_numerator - 1;
    assert_eq!(constraints.validate_fees(&valid_fees), Ok(()));
    fees.fixed_fee_numerator = fixed_fee_numerator;

    fees.fee_denominator = fee_denominator - 1;
    assert_eq!(Err(SwapError::InvalidFee), constraints.validate_fees(&fees));

    let swap_curve = SwapCurve {
        curve_type: CurveType::ConstantPrice,
        calculator: CurveCalculator::ConstantProduct(calculator),
    };
    assert_eq!(
        Err(SwapError::UnsupportedCurveType),
        constraints.validate_curve(&swap_curve),
    );
}

#[test]
fn validate_trade_fee_constraints() {
    let valid_fees = fees::Fees {
        trade_fee_numerator: 25,
        trade_fee_denominator: 10000,
    };
    let constraints = constraints::SwapConstraints {
        owner_key: "",
        valid_curve_types: &[CurveType::ConstantProduct, CurveType::Stable],
        fees: &valid_fees,
    };

    assert_eq!(constraints.validate_fees(&valid_fees), Ok(()));
    let higher = fees::Fees {
        trade_fee_numerator: 30,
        trade_fee_denominator: 10000,
    };
    assert_eq!(constraints.validate_fees(&higher), Ok(()));
    let lower = fees::Fees {
        trade_fee_numerator: 24,
        trade_fee_denominator: 10000,
    };
    assert_eq!(constraints.validate_fees(&lower), Err(SwapError::InvalidFee));
    let other_denominator = fees::Fees {
        trade_fee_numerator: 25,
        trade_fee_denominator: 1000,
    };
    assert_eq!(
        constraints.validate_fees(&other_denominator),
        Err(SwapError::InvalidFee)
    );

    let stable = SwapCurve {
        curve_type: CurveType::Stable,
        calculator: CurveCalculator::Stable(amm_core::stable::StableCurve { amp: 100 }),
    };
    assert_eq!(constraints.validate_curve(&stable), Ok(()));
    let offset = SwapCurve {
        curve_type: CurveType::Offset,
        calculator: CurveCalculator::Offset(amm_core::offset::OffsetCurve { token_b_offset: 5 }),
    };
    assert_eq!(
        constraints.validate_curve(&offset),
        Err(SwapError::UnsupportedCurveType)
    );
    let empty = constraints::SwapConstraints {
        owner_key: "",
        valid_curve_types: &[],
        fees: &valid_fees,
    };
    assert_eq!(
        empty.validate_curve(&stable),
        Err(SwapError::UnsupportedCurveType)
    );
}
