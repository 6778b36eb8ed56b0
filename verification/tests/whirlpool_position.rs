use ggoldca::error::ErrorCode;
use ggoldca::interfaces::whirlpool_position::{
    est_liquidity_for_token_a, est_liquidity_for_token_b, est_liquidity_from_sqrt_prices,
    est_liquidity_from_token_amounts, token_amounts_from_sqrt_prices, PositionAccounts,
};
use orca_whirlpools_core::{tick_index_to_sqrt_price, try_get_amount_delta_a, try_get_amount_delta_b};

const Q64: u128 = 1 << 64;
const SQRT_PRICE_AT_MINUS_1280: u128 = 17303193532643067809;
const SQRT_PRICE_AT_1280: u128 = 19665870712188713155;

fn liquidity_at(curr_tick: i32, lower_tick: i32, upper_tick: i32, a: u64, b: u64) -> u128 {
    est_liquidity_from_token_amounts(
        tick_index_to_sqrt_price(curr_tick),
        curr_tick,
        lower_tick,
        upper_tick,
        a,
        b,
    )
    .unwrap()
}

#[test]
fn test_est_liquidity_from_token_amounts_case_1() {
    assert_eq!(liquidity_at(0, -1280, 1280, 167_000, 167_000), 2693896);
}

#[test]
fn test_est_liquidity_from_token_amounts_case_2() {
    assert_eq!(liquidity_at(500, 7168, 8960, 1_000_000, 0), 16698106);
}

#[test]
fn test_est_liquidity_from_token_amounts_case_3() {
    assert_eq!(liquidity_at(1300, -1280, 1280, 0, 167_000), 1303862);
}

#[test]
fn test_est_liquidity_from_token_amounts_case_4() {
    assert_eq!(
        liquidity_at(-443621, -443632, -443624, 0, u64::MAX),
        197997328626229089162140962642757
    );
}

#[test]
fn test_est_liquidity_from_token_amounts_case_5() {
    assert_eq!(
        liquidity_at(443635, 436488, 436496, 0, u64::MAX),
        15348006551864
    );
}

#[test]
fn tick_prices_come_from_the_pool() {
    let at = |tick: i32| PositionAccounts {
        sqrt_price: Q64,
        tick_current_index: 0,
        tick_lower_index: tick,
        tick_upper_index: tick + 64,
        liquidity: 0,
    };
    // One unit of token B funds 2^64 / (upper - lower) of liquidity above the range.
    let above = PositionAccounts {
        sqrt_price: SQRT_PRICE_AT_1280 + 1,
        tick_current_index: 1281,
        tick_lower_index: -1280,
        tick_upper_index: 1280,
        liquidity: 0,
    };
    assert_eq!(
        above.liquidity_from_token_amounts(0, 1000),
        Ok(1000 * Q64 / (SQRT_PRICE_AT_1280 - SQRT_PRICE_AT_MINUS_1280))
    );
    assert_eq!(at(0).liquidity(), 0);
    assert_eq!(tick_index_to_sqrt_price(-1280), SQRT_PRICE_AT_MINUS_1280);
    assert_eq!(tick_index_to_sqrt_price(1280), SQRT_PRICE_AT_1280);
}

#[test]
fn liquidity_per_side() {
    assert_eq!(est_liquidity_for_token_b(3 * Q64, Q64, 10), Ok(5));
    assert_eq!(est_liquidity_for_token_b(Q64, 3 * Q64, 10), Ok(5));
    assert_eq!(
        est_liquidity_for_token_b(Q64, Q64, 10),
        Err(ErrorCode::MathZeroDivision)
    );
    // 10 * 3 * 1 / (3 - 1) in Q64.64
    assert_eq!(est_liquidity_for_token_a(Q64, 3 * Q64, 10), Ok(15));
    assert_eq!(est_liquidity_for_token_a(3 * Q64, Q64, 10), Ok(15));
    assert_eq!(
        est_liquidity_for_token_a(Q64, Q64, 10),
        Err(ErrorCode::MathZeroDivision)
    );
    assert_eq!(
        est_liquidity_for_token_a(u128::MAX, u128::MAX - 1, u64::MAX),
        Err(ErrorCode::MathOverflowMul)
    );
    assert_eq!(
        est_liquidity_for_token_a(1 << 96, (1 << 96) - 1, 1 << 63),
        Err(ErrorCode::MathOverflowConversion)
    );
}

#[test]
fn liquidity_takes_the_smaller_side_in_range() {
    let lower = Q64;
    let upper = 4 * Q64;
    let current = 2 * Q64;
    // token A funds 10 * 4 * 2 / 2 = 40, token B funds 7 / 1 = 7
    assert_eq!(
        est_liquidity_from_sqrt_prices(current, 5, 0, 10, lower, upper, 10, 7),
        Ok(7)
    );
    assert_eq!(
        est_liquidity_from_sqrt_prices(current, 5, 0, 10, lower, upper, 1, 7),
        Ok(4)
    );
    // at the upper tick only token B counts, over the whole range
    assert_eq!(
        est_liquidity_from_sqrt_prices(upper, 10, 0, 10, lower, upper, 10, 7),
        Ok(2)
    );
    // below the lower tick only token A counts: 10 * 4 * 1 / 3
    assert_eq!(
        est_liquidity_from_sqrt_prices(lower - 1, -1, 0, 10, lower, upper, 10, 7),
        Ok(13)
    );
    // at the lower tick token B has no room
    assert_eq!(
        est_liquidity_from_sqrt_prices(lower, 0, 0, 10, lower, upper, 10, 7),
        Err(ErrorCode::MathZeroDivision)
    );
}

#[test]
fn token_amounts_in_the_three_regimes() {
    let lower = SQRT_PRICE_AT_MINUS_1280;
    let upper = SQRT_PRICE_AT_1280;
    let liquidity = 2693896;
    assert_eq!(
        token_amounts_from_sqrt_prices(Q64, lower, upper, liquidity, false),
        Ok((166999, 166999))
    );
    assert_eq!(
        token_amounts_from_sqrt_prices(Q64, lower, upper, liquidity, true),
        Ok((167000, 167000))
    );
    assert_eq!(
        token_amounts_from_sqrt_prices(lower - 1, lower, upper, liquidity, false),
        Ok((345036, 0))
    );
    assert_eq!(
        token_amounts_from_sqrt_prices(lower - 1, lower, upper, liquidity, true),
        Ok((345037, 0))
    );
    assert_eq!(
        token_amounts_from_sqrt_prices(upper, lower, upper, liquidity, false),
        Ok((0, 345036))
    );
    assert_eq!(
        token_amounts_from_sqrt_prices(upper, lower, upper, liquidity, true),
        Ok((0, 345037))
    );
    assert_eq!(
        token_amounts_from_sqrt_prices(Q64, lower, upper, 0, true),
        Ok((0, 0))
    );
}

#[test]
fn token_amounts_errors() {
    // the prices in the wrong order
    assert_eq!(
        token_amounts_from_sqrt_prices(1, 10, 5, 1, false),
        Err(ErrorCode::MathOverflowSub)
    );
    assert_eq!(
        token_amounts_from_sqrt_prices(20, 10, 5, 1, false),
        Err(ErrorCode::MathOverflowSub)
    );
    // a lower price of zero below the range
    assert_eq!(
        token_amounts_from_sqrt_prices(0, 0, 5, 1, false),
        Err(ErrorCode::MathZeroDivision)
    );
    assert_eq!(
        token_amounts_from_sqrt_prices(0, 1, 5, 0, false),
        Ok((0, 0))
    );
    // liquidity * 2^64 * (upper - lower) leaves 256 bits
    assert_eq!(
        token_amounts_from_sqrt_prices(0, 1, u128::MAX, u128::MAX, false),
        Err(ErrorCode::MathOverflowMul)
    );
    // an amount that leaves 64 bits
    assert_eq!(
        token_amounts_from_sqrt_prices(Q64, 1, 2 * Q64, u128::MAX, false),
        Err(ErrorCode::MathOverflowConversion)
    );
}

#[test]
fn amounts_of_funded_liquidity_stay_within_the_amounts() {
    let ticks: [(i32, i32, i32); 5] = [
        (0, -1280, 1280),
        (500, 7168, 8960),
        (1300, -1280, 1280),
        (-64, -128, 0),
        (100, 64, 128),
    ];
    let amounts: [(u64, u64); 4] = [(167_000, 167_000), (1, 1_000_000), (1_000_000, 1), (0, 0)];
    for (curr, lower, upper) in ticks {
        for (a, b) in amounts {
            let position = PositionAccounts {
                sqrt_price: tick_index_to_sqrt_price(curr),
                tick_current_index: curr,
                tick_lower_index: lower,
                tick_upper_index: upper,
                liquidity: 0,
            };
            let liquidity = position.liquidity_from_token_amounts(a, b).unwrap();
            let (down_a, down_b) = position.token_amounts_from_liquidity(liquidity).unwrap();
            let (up_a, up_b) = position
                .token_amounts_from_liquidity_round_up(liquidity)
                .unwrap();
            assert!(down_a <= up_a && up_a <= a);
            assert!(down_b <= up_b && up_b <= b);
        }
    }
}

#[test]
fn token_amounts_are_the_pools_own() {
    let ticks: [(i32, i32, i32); 6] = [
        (0, -1280, 1280),
        (500, 7168, 8960),
        (1300, -1280, 1280),
        (-64, -128, 0),
        (100, 64, 128),
        (-443_000, -443_632, -443_624),
    ];
    let liquidities: [u128; 5] = [0, 1, 2_693_896, 16_698_106, 1 << 70];
    for (curr, lower, upper) in ticks {
        let current = tick_index_to_sqrt_price(curr);
        let low = tick_index_to_sqrt_price(lower);
        let high = tick_index_to_sqrt_price(upper);
        for liquidity in liquidities {
            for round_up in [false, true] {
                let a = |from: u128| try_get_amount_delta_a(from, high, liquidity, round_up).ok();
                let b = |to: u128| try_get_amount_delta_b(low, to, liquidity, round_up).ok();
                let expected = if curr < lower {
                    a(low).map(|amount| (amount, 0))
                } else if curr < upper {
                    a(current).zip(b(current))
                } else {
                    b(high).map(|amount| (0, amount))
                };
                assert_eq!(
                    token_amounts_from_sqrt_prices(current, low, high, liquidity, round_up).ok(),
                    expected
                );
            }
        }
    }
}

#[test]
fn less_liquidity_is_worth_no_more() {
    let lower = SQRT_PRICE_AT_MINUS_1280;
    let upper = SQRT_PRICE_AT_1280;
    for current in [lower - 1, lower, Q64, upper - 1, upper, upper + 1] {
        let mut last = (0, 0);
        for liquidity in [0_u128, 1, 2, 1_000, 2_693_896, 2_693_897, 1 << 40] {
            let (down_a, down_b) =
                token_amounts_from_sqrt_prices(current, lower, upper, liquidity, false).unwrap();
            let (up_a, up_b) =
                token_amounts_from_sqrt_prices(current, lower, upper, liquidity, true).unwrap();
            assert!(last.0 <= down_a && down_a <= up_a);
            assert!(last.1 <= down_b && down_b <= up_b);
            assert!(up_a - down_a <= 1 && up_b - down_b <= 1);
            last = (up_a.min(down_a), up_b.min(down_b));
        }
    }
}
