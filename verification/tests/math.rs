use ggoldca::error::ErrorCode;
use ggoldca::math::lp_price::LpPrice;
use ggoldca::math::mul_div::MulDiv;
use ggoldca::math::safe_arithmetics::{SafeArithmetics, SafeMulDiv};
use ggoldca::math::u256::{mul_wide, U256};

#[test]
fn test_safe_mul_div() {
    let number = 11_u64;
    let multiplier = 5;
    let divisor = 4;

    let result = number.safe_mul_div(multiplier, divisor).unwrap();
    let result_up = number.safe_mul_div_round_up(multiplier, divisor).unwrap();

    let expected_floor = 13;
    let expected_ceil = 14;

    assert_eq!(result, expected_floor);
    assert_eq!(result_up, expected_ceil);
}

#[test]
fn test_safe_mul_div_2() {
    let number = 56_u64;
    let multiplier = 23;
    let divisor = 3;

    let result = number.safe_mul_div(multiplier, divisor).unwrap();
    let result_up = number.safe_mul_div_round_up(multiplier, divisor).unwrap();

    let expected_floor = 429;
    let expected_ceil = 430;

    assert_eq!(result, expected_floor);
    assert_eq!(result_up, expected_ceil);
}

#[test]
fn test_safe_mul_div_3() {
    let number = 8_u64;
    let multiplier = 3;
    let divisor = 2;

    let result = number.safe_mul_div(multiplier, divisor).unwrap();
    let result_up = number.safe_mul_div_round_up(multiplier, divisor).unwrap();

    let expected_floor = 12;
    let expected_ceil = 12;

    assert_eq!(result, expected_floor);
    assert_eq!(result_up, expected_ceil);
}

#[test]
fn test_lp_price_cmp() {
    let price = LpPrice {
        minted_tokens: 10_000,
        total_tokens: 10_000,
    };

    let same_price = LpPrice {
        minted_tokens: 20_000,
        total_tokens: 20_000,
    };

    let greater_price = LpPrice {
        minted_tokens: 10_000,
        total_tokens: 15_000,
    };

    assert_eq!(price, same_price);
    assert!(greater_price > price);
}

#[test]
fn lp_price_conversions() {
    let fresh = LpPrice::default();
    assert_eq!(fresh.token_to_lp(77), Ok(77));
    assert_eq!(fresh.lp_to_token(77), Ok(77));

    let price = LpPrice {
        total_tokens: 15_000,
        minted_tokens: 10_000,
    };
    assert_eq!(price.token_to_lp(300), Ok(200));
    assert_eq!(price.lp_to_token(200), Ok(300));
    assert_eq!(price.token_to_lp(1), Ok(0));
    assert_eq!(price.lp_to_token(u64::MAX), Err(ErrorCode::MathOverflowConversion));

    let broken = LpPrice {
        total_tokens: 0,
        minted_tokens: 5,
    };
    assert_eq!(broken.token_to_lp(1), Err(ErrorCode::MathZeroDivision));
}

#[test]
fn mul_div_on_u64() {
    assert_eq!(7_u64.mul_div(3, 2), Ok(10));
    assert_eq!(u64::MAX.mul_div(u64::MAX, u64::MAX), Ok(u64::MAX));
    assert_eq!(u64::MAX.mul_div(2, 1), Err(ErrorCode::MathOverflowConversion));
    assert_eq!(1_u64.mul_div(1, 0), Err(ErrorCode::MathZeroDivision));
}

#[test]
fn safe_arithmetics_on_u64() {
    assert_eq!(1_u64.safe_add(2), Ok(3));
    assert_eq!(u64::MAX.safe_add(1), Err(ErrorCode::MathOverflowAdd));
    assert_eq!(3_u64.safe_sub(2), Ok(1));
    assert_eq!(2_u64.safe_sub(3), Err(ErrorCode::MathOverflowSub));
    assert_eq!(6_u64.safe_mul(7), Ok(42));
    assert_eq!(u64::MAX.safe_mul(2), Err(ErrorCode::MathOverflowMul));
    assert_eq!(7_u64.safe_div(2), Ok(3));
    assert_eq!(7_u64.safe_div(0), Err(ErrorCode::MathZeroDivision));
}

#[test]
fn safe_arithmetics_on_u128() {
    assert_eq!(u128::MAX.safe_add(1), Err(ErrorCode::MathOverflowAdd));
    assert_eq!((1_u128 << 100).safe_add(1), Ok((1_u128 << 100) + 1));
    assert_eq!(0_u128.safe_sub(1), Err(ErrorCode::MathOverflowSub));
    assert_eq!((1_u128 << 64).safe_mul(1 << 64), Err(ErrorCode::MathOverflowMul));
    assert_eq!((1_u128 << 64).safe_mul(1 << 63), Ok(1 << 127));
    assert_eq!(9_u128.safe_div(0), Err(ErrorCode::MathZeroDivision));
    assert_eq!(9_u128.safe_div(4), Ok(2));
}

#[test]
fn safe_arithmetics_on_u256() {
    let max = U256 { hi: u128::MAX, lo: u128::MAX };
    let one = U256::one();
    assert_eq!(max.safe_add(one), Err(ErrorCode::MathOverflowAdd));
    assert_eq!(
        U256::from_u128(u128::MAX).safe_add(one),
        Ok(U256 { hi: 1, lo: 0 })
    );
    assert_eq!(U256::zero().safe_sub(one), Err(ErrorCode::MathOverflowSub));
    assert_eq!(
        U256 { hi: 1, lo: 0 }.safe_sub(one),
        Ok(U256::from_u128(u128::MAX))
    );
    assert_eq!(
        U256 { hi: 1, lo: 0 }.safe_mul(U256 { hi: 1, lo: 0 }),
        Err(ErrorCode::MathOverflowMul)
    );
    assert_eq!(
        U256 { hi: 1 << 126, lo: 0 }.safe_mul(U256::from_u64(2)),
        Ok(U256 { hi: 1 << 127, lo: 0 })
    );
    assert_eq!(
        U256 { hi: 1 << 127, lo: 0 }.safe_mul(U256::from_u64(2)),
        Err(ErrorCode::MathOverflowMul)
    );
    assert_eq!(max.safe_div(U256::zero()), Err(ErrorCode::MathZeroDivision));
    assert_eq!(max.safe_div(max), Ok(one));
    assert_eq!(
        max.safe_div(U256::from_u64(2)),
        Ok(U256 { hi: u128::MAX >> 1, lo: u128::MAX })
    );
    assert_eq!(
        max.safe_div(U256 { hi: 1, lo: 0 }),
        Ok(U256::from_u128(u128::MAX))
    );
}

#[test]
fn wide_product_of_two_u128() {
    assert_eq!(mul_wide(0, u128::MAX), U256::zero());
    assert_eq!(mul_wide(3, 5), U256::from_u64(15));
    assert_eq!(mul_wide(1 << 64, 1 << 64), U256 { hi: 1, lo: 0 });
    assert_eq!(
        mul_wide(u128::MAX, u128::MAX),
        U256 { hi: u128::MAX - 1, lo: 1 }
    );
    assert_eq!(
        mul_wide(
            0x1234_5678_9abc_def0_1122_3344_5566_7788,
            0x0fed_cba9_8765_4321_8877_6655_4433_2211
        ),
        U256 {
            hi: 0x0121_fa00_ad77_d742_2cfc_0f67_02e3_0766,
            lo: 0xe67a_8979_b197_9207_0a3e_9633_37c6_0008,
        }
    );
}

#[test]
fn u256_shifts_and_narrowing() {
    let x = U256 { hi: 0xaabb, lo: (0xccdd_u128 << 64) | 0xeeff };
    assert_eq!(
        x.shl_word(),
        U256 { hi: (0xaabb_u128 << 64) | 0xccdd, lo: 0xeeff_u128 << 64 }
    );
    assert_eq!(x.shr_word(), U256 { hi: 0, lo: (0xaabb_u128 << 64) | 0xccdd });
    assert_eq!(x.low_word(), 0xeeff);
    let top = U256 { hi: 1 << 64, lo: 0 };
    assert_eq!(top.shl_word(), U256::zero());
    assert_eq!(U256::from_u64(9).try_into_u64(), Some(9));
    assert_eq!(U256::from_u128(1 << 64).try_into_u64(), None);
    assert_eq!(U256::from_u128(1 << 64).try_into_u128(), Some(1 << 64));
    assert_eq!(U256 { hi: 1, lo: 0 }.try_into_u128(), None);
    assert!(U256::from_u64(1).lt(&U256 { hi: 1, lo: 0 }));
    assert!(!U256 { hi: 1, lo: 0 }.lt(&U256::from_u128(u128::MAX)));
    assert!(U256::from_u64(4).le(&U256::from_u64(4)));
}

#[test]
fn safe_mul_div_on_u128() {
    let q64: u128 = 1 << 64;
    assert_eq!(q64.safe_mul_div(3, 2), Ok(3 << 63));
    assert_eq!(u128::MAX.safe_mul_div(u128::MAX, u128::MAX), Ok(u128::MAX));
    assert_eq!(10_u128.safe_mul_div_round_up(10, 3), Ok(34));
    assert_eq!(10_u128.safe_mul_div(10, 3), Ok(33));
    assert_eq!(u128::MAX.safe_mul_div(2, 1), Err(ErrorCode::MathOverflowConversion));
    assert_eq!(5_u128.safe_mul_div(2, 0), Err(ErrorCode::MathZeroDivision));
    assert_eq!(5_u128.safe_mul_div_round_up(2, 0), Err(ErrorCode::MathZeroDivision));
    assert_eq!(0_u128.safe_mul_div_round_up(2, 0), Err(ErrorCode::MathOverflowSub));
    assert_eq!(0_u64.safe_mul_div_round_up(0, 0), Err(ErrorCode::MathOverflowSub));
    assert_eq!(0_u64.safe_mul_div(0, 0), Err(ErrorCode::MathZeroDivision));
    assert_eq!(u64::MAX.safe_mul_div(2, 1), Err(ErrorCode::MathOverflowConversion));
}
