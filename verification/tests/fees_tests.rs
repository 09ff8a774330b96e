//! Fee arithmetic and fee-schedule validation, over both fee schemas.

use amm_core::amm_fees;
use amm_core::error::SwapError;
use amm_core::fees;

#[test]
fn pack_fees() {
    let return_fee_numerator: u64 = 2;
    let fixed_fee_numerator: u64 = 1;
    let fee_denominator: u64 = 100;
    let fees = amm_fees::Fees {
        return_fee_numerator,
        fixed_fee_numerator,
        fee_denominator,
    };

    let mut packed: Vec<u8> = Vec::new();
    fees.pack_into_slice(&mut packed);
    assert_eq!(packed.len(), 24);
    let unpacked = amm_fees::Fees::unpack_from_slice(&packed);
    assert_eq!(fees, unpacked);

    let mut packed: Vec<u8> = vec![];
    packed.extend_from_slice(&return_fee_numerator.to_le_bytes());
    packed.extend_from_slice(&fixed_fee_numerator.to_le_bytes());
    packed.extend_from_slice(&fee_denominator.to_le_bytes());
    let unpacked = amm_fees::Fees::unpack_from_slice(&packed);
    assert_eq!(fees, unpacked);
}

#[test]
fn pack_trade_fees() {
    let fees = fees::Fees {
        trade_fee_numerator: 3,
        trade_fee_denominator: 1000,
    };
    let mut packed: Vec<u8> = Vec::new();
    fees.pack_into_slice(&mut packed);
    assert_eq!(packed.len(), 16);
    let unpacked = fees::Fees::unpack_from_slice(&packed);
    assert_eq!(fees, unpacked);

    let mut packed: Vec<u8> = vec![];
    packed.extend_from_slice(&3u64.to_le_bytes());
    packed.extend_from_slice(&1000u64.to_le_bytes());
    let unpacked = fees::Fees::unpack_from_slice(&packed);
    assert_eq!(fees, unpacked);
}

#[test]
fn fee_floor_then_minimum() {
    assert_eq!(fees::calculate_fee(1000, 3, 1000), Some(3));
    assert_eq!(fees::calculate_fee(1, 3, 1000), Some(1));
    assert_eq!(amm_fees::calculate_fee(1000, 3, 1000), Some(3));
    assert_eq!(amm_fees::calculate_fee(1, 3, 1000), Some(1));
}

#[test]
fn fee_zero_cases() {
    assert_eq!(fees::calculate_fee(0, 3, 1000), Some(0));
    assert_eq!(fees::calculate_fee(1000, 0, 1000), Some(0));
    // Nonzero numerator with a zero denominator cannot be computed.
    assert_eq!(fees::calculate_fee(1000, 3, 0), None);
}

#[test]
fn fee_overflow_fails() {
    assert_eq!(fees::calculate_fee(u128::MAX, 2, 3), None);
    assert_eq!(amm_fees::calculate_fee(u128::MAX, u128::MAX, u128::MAX), None);
}

#[test]
fn fee_minimum_one_when_proper() {
    // Any nonzero amount against a nonzero proper fraction pays at least 1.
    for amount in [1u128, 2, 10, 999, 1000, 1001, 1_000_000_000] {
        let fee = fees::calculate_fee(amount, 3, 1000).unwrap();
        assert!(fee >= 1);
    }
}

#[test]
fn trading_fee_matches_helper() {
    let fees = fees::Fees {
        trade_fee_numerator: 25,
        trade_fee_denominator: 10000,
    };
    assert_eq!(fees.trading_fee(40000), Some(100));
    assert_eq!(fees.trading_fee(1), Some(1));
    assert_eq!(fees.trading_fee(0), Some(0));
}

#[test]
fn return_and_fixed_fees() {
    let fees = amm_fees::Fees {
        return_fee_numerator: 2,
        fixed_fee_numerator: 1,
        fee_denominator: 100,
    };
    assert_eq!(fees.return_fee(1000), Some(20));
    assert_eq!(fees.fixed_fee(1000), Some(10));
    assert_eq!(fees.return_fee(1), Some(1));
    assert_eq!(fees.fixed_fee(0), Some(0));
}

#[test]
fn validate_trade_fee_invariant() {
    let ok = fees::Fees {
        trade_fee_numerator: 3,
        trade_fee_denominator: 1000,
    };
    assert_eq!(ok.validate(), Ok(()));
    let equal = fees::Fees {
        trade_fee_numerator: 1000,
        trade_fee_denominator: 1000,
    };
    assert_eq!(equal.validate(), Err(SwapError::InvalidFee));
    let above = fees::Fees {
        trade_fee_numerator: 1001,
        trade_fee_denominator: 1000,
    };
    assert_eq!(above.validate(), Err(SwapError::InvalidFee));
    let disabled = fees::Fees {
        trade_fee_numerator: 0,
        trade_fee_denominator: 0,
    };
    assert_eq!(disabled.validate(), Ok(()));
    let zero_denominator = fees::Fees {
        trade_fee_numerator: 1,
        trade_fee_denominator: 0,
    };
    assert_eq!(zero_denominator.validate(), Err(SwapError::InvalidFee));
    assert_eq!(fees::validate_fraction(0, 1000), Ok(()));
}

#[test]
fn validate_summed_fee_invariant() {
    let ok = amm_fees::Fees {
        return_fee_numerator: 2,
        fixed_fee_numerator: 1,
        fee_denominator: 100,
    };
    assert_eq!(ok.validate(), Ok(()));
    let at_denominator = amm_fees::Fees {
        return_fee_numerator: 60,
        fixed_fee_numerator: 40,
        fee_denominator: 100,
    };
    assert_eq!(at_denominator.validate(), Err(SwapError::InvalidFee));
    let above = amm_fees::Fees {
        return_fee_numerator: 99,
        fixed_fee_numerator: 2,
        fee_denominator: 100,
    };
    assert_eq!(above.validate(), Err(SwapError::InvalidFee));
    let disabled = amm_fees::Fees {
        return_fee_numerator: 0,
        fixed_fee_numerator: 0,
        fee_denominator: 0,
    };
    assert_eq!(disabled.validate(), Ok(()));
    let zero_denominator = amm_fees::Fees {
        return_fee_numerator: 1,
        fixed_fee_numerator: 0,
        fee_denominator: 0,
    };
    assert_eq!(zero_denominator.validate(), Err(SwapError::InvalidFee));
    // The numerator sum is compared mathematically even where it would
    // overflow a u64.
    let huge = amm_fees::Fees {
        return_fee_numerator: u64::MAX,
        fixed_fee_numerator: u64::MAX,
        fee_denominator: u64::MAX,
    };
    assert_eq!(huge.validate(), Err(SwapError::InvalidFee));
}
