//! The versioned state codec: exact round trips, byte-level layout, and
//! decode failures, over both schemas.

use amm_core::amm_fees;
use amm_core::amm_state;
use amm_core::base::{CurveType, SwapCurve};
use amm_core::calculator::CurveCalculator;
use amm_core::constant_price::ConstantPriceCurve;
use amm_core::constant_product::ConstantProductCurve;
use amm_core::error::SwapError;
use amm_core::fees;
use amm_core::offset::OffsetCurve;
use amm_core::stable::StableCurve;
use amm_core::state;

const TEST_FEES: amm_fees::Fees = amm_fees::Fees {
    return_fee_numerator: 2,
    fixed_fee_numerator: 1,
    fee_denominator: 100,
};

const TEST_NONCE: u8 = 255;
const TEST_AMM_ID: [u8; 32] = [1u8; 32];
const TEST_DEX_PROGRAM_ID: [u8; 32] = [1u8; 32];
const TEST_MARKET_ID: [u8; 32] = [2u8; 32];
const TEST_TOKEN_PROGRAM_ID: [u8; 32] = [1u8; 32];
const TEST_TOKEN_A: [u8; 32] = [2u8; 32];
const TEST_TOKEN_B: [u8; 32] = [3u8; 32];
const TEST_POOL_MINT: [u8; 32] = [4u8; 32];
const TEST_TOKEN_A_MINT: [u8; 32] = [5u8; 32];
const TEST_TOKEN_B_MINT: [u8; 32] = [6u8; 32];
const TEST_SWAP_FEE_ACCOUNT_A: [u8; 32] = [7u8; 32];
const TEST_SWAP_FEE_ACCOUNT_B: [u8; 32] = [7u8; 32];

const TEST_CURVE_TYPE: u8 = 2;
const TEST_AMP: u64 = 1;
const TEST_CURVE: StableCurve = StableCurve { amp: TEST_AMP };

fn test_swap_v1() -> amm_state::SwapV1 {
    let curve_type = CurveType::try_from(TEST_CURVE_TYPE).unwrap();
    amm_state::SwapV1 {
        is_initialized: true,
        nonce: TEST_NONCE,
        amm_id: TEST_AMM_ID,
        dex_program_id: TEST_DEX_PROGRAM_ID,
        market_id: TEST_MARKET_ID,
        token_program_id: TEST_TOKEN_PROGRAM_ID,
        token_a: TEST_TOKEN_A,
        token_b: TEST_TOKEN_B,
        pool_mint: TEST_POOL_MINT,
        token_a_mint: TEST_TOKEN_A_MINT,
        token_b_mint: TEST_TOKEN_B_MINT,
        fixed_fee_account_a: TEST_SWAP_FEE_ACCOUNT_A,
        fixed_fee_account_b: TEST_SWAP_FEE_ACCOUNT_B,
        fees: TEST_FEES,
        swap_curve: SwapCurve {
            curve_type,
            calculator: CurveCalculator::Stable(TEST_CURVE),
        },
    }
}

#[test]
fn swap_version_pack() {
    let swap_v1 = test_swap_v1();
    let swap_curve = swap_v1.swap_curve;
    let swap_info = amm_state::SwapVersion::SwapV1(swap_v1);

    let packed = amm_state::SwapVersion::pack(swap_info);
    assert_eq!(packed.len(), amm_state::SwapVersion::LATEST_LEN);
    let unpacked = amm_state::SwapVersion::unpack(&packed).unwrap();

    let amm_state::SwapVersion::SwapV1(unpacked) = unpacked;
    assert!(unpacked.is_initialized);
    assert_eq!(unpacked.nonce, TEST_NONCE);
    assert_eq!(unpacked.token_program_id, TEST_TOKEN_PROGRAM_ID);
    assert_eq!(unpacked.token_a, TEST_TOKEN_A);
    assert_eq!(unpacked.token_b, TEST_TOKEN_B);
    assert_eq!(unpacked.pool_mint, TEST_POOL_MINT);
    assert_eq!(unpacked.token_a_mint, TEST_TOKEN_A_MINT);
    assert_eq!(unpacked.token_b_mint, TEST_TOKEN_B_MINT);
    assert_eq!(unpacked.fixed_fee_account_a, TEST_SWAP_FEE_ACCOUNT_A);
    assert_eq!(unpacked.fixed_fee_account_b, TEST_SWAP_FEE_ACCOUNT_B);
    assert_eq!(unpacked.fees, TEST_FEES);
    assert_eq!(unpacked.swap_curve, swap_curve);
}

#[test]
fn swap_v1_pack() {
    let swap_info = test_swap_v1();

    let mut packed: Vec<u8> = Vec::new();
    swap_info.pack_into_slice(&mut packed);
    assert_eq!(packed.len(), amm_state::SwapV1::LEN);
    let unpacked = amm_state::SwapV1::unpack(&packed).unwrap();
    assert_eq!(swap_info, unpacked);

    let mut packed: Vec<u8> = vec![1u8, TEST_NONCE];
    packed.extend_from_slice(&TEST_AMM_ID);
    packed.extend_from_slice(&TEST_DEX_PROGRAM_ID);
    packed.extend_from_slice(&TEST_MARKET_ID);
    packed.extend_from_slice(&TEST_TOKEN_PROGRAM_ID);
    packed.extend_from_slice(&TEST_TOKEN_A);
    packed.extend_from_slice(&TEST_TOKEN_B);
    packed.extend_from_slice(&TEST_POOL_MINT);
    packed.extend_from_slice(&TEST_TOKEN_A_MINT);
    packed.extend_from_slice(&TEST_TOKEN_B_MINT);
    packed.extend_from_slice(&TEST_SWAP_FEE_ACCOUNT_A);
    packed.extend_from_slice(&TEST_SWAP_FEE_ACCOUNT_B);
    packed.extend_from_slice(&TEST_FEES.return_fee_numerator.to_le_bytes());
    packed.extend_from_slice(&TEST_FEES.fixed_fee_numerator.to_le_bytes());
    packed.extend_from_slice(&TEST_FEES.fee_denominator.to_le_bytes());
    packed.push(TEST_CURVE_TYPE);
    packed.extend_from_slice(&TEST_AMP.to_le_bytes());
    packed.extend_from_slice(&[0u8; 24]);
    let unpacked = amm_state::SwapV1::unpack(&packed).unwrap();
    assert_eq!(swap_info, unpacked);

    let packed = vec![0u8; amm_state::SwapV1::LEN];
    let swap_info: amm_state::SwapV1 = Default::default();
    let unpack_unchecked = amm_state::SwapV1::unpack_unchecked(&packed).unwrap();
    assert_eq!(unpack_unchecked, swap_info);
    let err = amm_state::SwapV1::unpack(&packed).unwrap_err();
    assert_eq!(err, SwapError::UninitializedAccount);
}

fn curve_of(tag: u8) -> SwapCurve {
    match tag {
        0 => SwapCurve {
            curve_type: CurveType::ConstantProduct,
            calculator: CurveCalculator::ConstantProduct(ConstantProductCurve {}),
        },
        1 => SwapCurve {
            curve_type: CurveType::ConstantPrice,
            calculator: CurveCalculator::ConstantPrice(ConstantPriceCurve { token_b_price: 10_000 }),
        },
        2 => SwapCurve {
            curve_type: CurveType::Stable,
            calculator: CurveCalculator::Stable(StableCurve { amp: 144 }),
        },
        _ => SwapCurve {
            curve_type: CurveType::Offset,
            calculator: CurveCalculator::Offset(OffsetCurve { token_b_offset: 1_000_000 }),
        },
    }
}

#[test]
fn round_trip_all_curves_amm_schema() {
    for tag in 0u8..4 {
        let mut state = test_swap_v1();
        state.swap_curve = curve_of(tag);
        let packed = amm_state::SwapVersion::pack(amm_state::SwapVersion::SwapV1(state));
        let amm_state::SwapVersion::SwapV1(unpacked) =
            amm_state::SwapVersion::unpack(&packed).unwrap();
        assert_eq!(unpacked, state);
        // Re-encoding gives the identical bytes.
        let repacked = amm_state::SwapVersion::pack(amm_state::SwapVersion::SwapV1(unpacked));
        assert_eq!(repacked, packed);
    }
}

fn test_trade_swap_v1(tag: u8) -> state::SwapV1 {
    state::SwapV1 {
        is_initialized: true,
        nonce: 7,
        token_program_id: [11u8; 32],
        token_a: [12u8; 32],
        token_b: [13u8; 32],
        pool_mint: [14u8; 32],
        token_a_mint: [15u8; 32],
        token_b_mint: [16u8; 32],
        pool_fee_account: [17u8; 32],
        fees: fees::Fees {
            trade_fee_numerator: 25,
            trade_fee_denominator: 10_000,
        },
        swap_curve: curve_of(tag),
    }
}

#[test]
fn round_trip_all_curves_trade_schema() {
    for tag in 0u8..4 {
        let state = test_trade_swap_v1(tag);
        let packed = state::SwapVersion::pack(state::SwapVersion::SwapV1(state));
        assert_eq!(packed.len(), state::SwapVersion::LATEST_LEN);
        let state::SwapVersion::SwapV1(unpacked) = state::SwapVersion::unpack(&packed).unwrap();
        assert_eq!(unpacked, state);
        let repacked = state::SwapVersion::pack(state::SwapVersion::SwapV1(unpacked));
        assert_eq!(repacked, packed);
    }
}

#[test]
fn trade_schema_layout() {
    let state = test_trade_swap_v1(2);
    let packed = state::SwapVersion::pack(state::SwapVersion::SwapV1(state));
    assert_eq!(packed[0], 1); // version
    assert_eq!(packed[1], 1); // initialized
    assert_eq!(packed[2], 7); // nonce
    assert_eq!(&packed[3..35], &[11u8; 32]);
    assert_eq!(&packed[227..235], &25u64.to_le_bytes());
    assert_eq!(&packed[235..243], &10_000u64.to_le_bytes());
    assert_eq!(&packed[243..291], &[0u8; 48]); // fee slot padding
    assert_eq!(packed[291], 2); // stable curve tag
    assert_eq!(&packed[292..300], &144u64.to_le_bytes());
    assert_eq!(&packed[300..324], &[0u8; 24]); // curve slot padding
}

#[test]
fn short_buffer_fails_probe_stays_false() {
    // One byte shorter than the declared version length.
    let packed = amm_state::SwapVersion::pack(amm_state::SwapVersion::SwapV1(test_swap_v1()));
    let short = &packed[..packed.len() - 1];
    assert_eq!(
        amm_state::SwapVersion::unpack(short).unwrap_err(),
        SwapError::InvalidAccountData
    );
    assert!(!amm_state::SwapVersion::is_initialized(short));

    let packed = state::SwapVersion::pack(state::SwapVersion::SwapV1(test_trade_swap_v1(0)));
    let short = &packed[..packed.len() - 1];
    assert_eq!(
        state::SwapVersion::unpack(short).unwrap_err(),
        SwapError::InvalidAccountData
    );
    assert!(!state::SwapVersion::is_initialized(short));
}

#[test]
fn decode_failures_by_cause() {
    // Empty buffer.
    assert_eq!(
        state::SwapVersion::unpack(&[]).unwrap_err(),
        SwapError::InvalidAccountData
    );
    // Unknown version tag.
    let mut packed = state::SwapVersion::pack(state::SwapVersion::SwapV1(test_trade_swap_v1(0)));
    packed[0] = 2;
    assert_eq!(
        state::SwapVersion::unpack(&packed).unwrap_err(),
        SwapError::UninitializedAccount
    );
    // A flag byte no encoder writes.
    packed[0] = 1;
    packed[1] = 3;
    assert_eq!(
        state::SwapVersion::unpack(&packed).unwrap_err(),
        SwapError::InvalidAccountData
    );
    // An unknown curve discriminant.
    packed[1] = 1;
    packed[291] = 9;
    assert_eq!(
        state::SwapVersion::unpack(&packed).unwrap_err(),
        SwapError::InvalidAccountData
    );
    // An uninitialized record.
    packed[291] = 0;
    packed[1] = 0;
    assert_eq!(
        state::SwapVersion::unpack(&packed).unwrap_err(),
        SwapError::UninitializedAccount
    );
    // All of these probe as false.
    assert!(!state::SwapVersion::is_initialized(&packed));

    let good = state::SwapVersion::pack(state::SwapVersion::SwapV1(test_trade_swap_v1(0)));
    assert!(state::SwapVersion::is_initialized(&good));
}

#[test]
fn is_initialized_probe_amm_schema() {
    let packed = amm_state::SwapVersion::pack(amm_state::SwapVersion::SwapV1(test_swap_v1()));
    assert!(amm_state::SwapVersion::is_initialized(&packed));
    let mut uninit = test_swap_v1();
    uninit.is_initialized = false;
    let packed = amm_state::SwapVersion::pack(amm_state::SwapVersion::SwapV1(uninit));
    assert!(!amm_state::SwapVersion::is_initialized(&packed));
    assert!(!amm_state::SwapVersion::is_initialized(&[]));
}
