use crate::error::ErrorCode;
use crate::math::safe_arithmetics::{lemma_half_product, SafeArithmetics};
use crate::math::u256::{pow128, pow256, pow64, U256, WORD};
use crate::math::division::{
    lemma_ceil_at_most,
    lemma_floor_at_most,
    lemma_floor_below,
    lemma_floor_bounds,
    lemma_quotients_ordered,
};
use vstd::prelude::*;

verus! {

/// The square-root price, as a Q64.64 number, that the pool gives for a tick
/// index.
pub uninterp spec fn sqrt_price_at_tick(tick_index: i32) -> u128;

/// Calls `orca_whirlpools_core::tick_index_to_sqrt_price`, which computes the
/// price from the bits of the tick index alone, with fixed constants. The
/// contract only gives that result its name. The smallest `i32` is left out:
/// the pool's code takes the absolute value of a negative tick index.
#[verifier::external_body]
fn sqrt_price_from_tick_index(tick_index: i32) -> (r: u128)
    requires
        tick_index > i32::MIN,
    ensures
        r == sqrt_price_at_tick(tick_index),
{
    orca_whirlpools_core::tick_index_to_sqrt_price(tick_index)
}

/// The smaller of two numbers.
pub open spec fn spec_min(a: int, b: int) -> int {
    if a <= b {
        a
    } else {
        b
    }
}

/// The larger of two numbers.
pub open spec fn spec_max(a: int, b: int) -> int {
    if a >= b {
        a
    } else {
        b
    }
}

/// The liquidity that `token_amount` of token A funds between two sqrt
/// prices: `amount * upper * lower / 2^64 / (upper - lower)`, each division
/// rounded down, with the product held in 256 bits.
pub open spec fn liquidity_for_token_a(sqrt_price_1: u128, sqrt_price_2: u128, token_amount: u64)
    -> Result<u128, ErrorCode> {
    let lower = spec_min(sqrt_price_1 as int, sqrt_price_2 as int);
    let upper = spec_max(sqrt_price_1 as int, sqrt_price_2 as int);
    if token_amount * upper * lower >= pow256() {
        Err(ErrorCode::MathOverflowMul)
    } else if upper == lower {
        Err(ErrorCode::MathZeroDivision)
    } else if (token_amount * upper * lower / pow64()) / (upper - lower) >= pow128() {
        Err(ErrorCode::MathOverflowConversion)
    } else {
        Ok(((token_amount * upper * lower / pow64()) / (upper - lower)) as u128)
    }
}

/// The liquidity that `token_amount` of token B funds between two sqrt
/// prices: `amount * 2^64 / (upper - lower)`, rounded down.
pub open spec fn liquidity_for_token_b(sqrt_price_1: u128, sqrt_price_2: u128, token_amount: u64)
    -> Result<u128, ErrorCode> {
    let lower = spec_min(sqrt_price_1 as int, sqrt_price_2 as int);
    let upper = spec_max(sqrt_price_1 as int, sqrt_price_2 as int);
    if upper == lower {
        Err(ErrorCode::MathZeroDivision)
    } else {
        Ok(((token_amount * pow64()) / (upper - lower)) as u128)
    }
}

/// The liquidity that the two amounts fund in a position whose ticks have
/// the sqrt prices `lower_sqrt_price` and `upper_sqrt_price`. At or above
/// the upper tick only token B counts, below the lower tick only token A,
/// and in between the smaller of what each side funds.
pub open spec fn liquidity_for_amounts(
    curr_sqrt_price: u128,
    curr_tick: i32,
    lower_tick: i32,
    upper_tick: i32,
    lower_sqrt_price: u128,
    upper_sqrt_price: u128,
    token_amount_a: u64,
    token_amount_b: u64,
) -> Result<u128, ErrorCode> {
    if curr_tick >= upper_tick {
        liquidity_for_token_b(upper_sqrt_price, lower_sqrt_price, token_amount_b)
    } else if curr_tick < lower_tick {
        liquidity_for_token_a(lower_sqrt_price, upper_sqrt_price, token_amount_a)
    } else {
        match liquidity_for_token_a(curr_sqrt_price, upper_sqrt_price, token_amount_a) {
            Err(e) => Err(e),
            Ok(liquidity_a) => match liquidity_for_token_b(
                curr_sqrt_price,
                lower_sqrt_price,
                token_amount_b,
            ) {
                Err(e) => Err(e),
                Ok(liquidity_b) => Ok(spec_min(liquidity_a as int, liquidity_b as int) as u128),
            },
        }
    }
}

proof fn lemma_triple_product_bound(a: int, b: int, c: int)
    by (nonlinear_arith)
    requires
        0 <= a < 0x1_0000_0000_0000_0000,
        0 <= b < 0x1_0000_0000_0000_0000_0000_0000_0000_0000int,
        0 <= c,
    ensures
        0 <= a * b < 0x1_0000_0000_0000_0000_0000_0000_0000_0000_0000_0000_0000_0000int,
        0 <= a * b * c,
{
}

/// The liquidity that `token_amount` of token A funds between two sqrt
/// prices, given in either order.
pub fn est_liquidity_for_token_a(sqrt_price_1: u128, sqrt_price_2: u128, token_amount: u64) -> (r:
    Result<u128, ErrorCode>)
    ensures
        r == liquidity_for_token_a(sqrt_price_1, sqrt_price_2, token_amount),
{
    let lower: u128 = if sqrt_price_1 <= sqrt_price_2 {
        sqrt_price_1
    } else {
        sqrt_price_2
    };
    let upper: u128 = if sqrt_price_1 >= sqrt_price_2 {
        sqrt_price_1
    } else {
        sqrt_price_2
    };
    let lower_sqrt_price_x64 = U256::from_u128(lower);
    let upper_sqrt_price_x64 = U256::from_u128(upper);
    proof {
        lemma_triple_product_bound(token_amount as int, upper as int, lower as int);
    }
    let num = U256::from_u64(token_amount).safe_mul(upper_sqrt_price_x64)?.safe_mul(
        lower_sqrt_price_x64,
    )?.shr_word();
    let den = upper_sqrt_price_x64.safe_sub(lower_sqrt_price_x64)?;
    match num.safe_div(den)?.try_into_u128() {
        Some(liquidity) => Ok(liquidity),
        None => Err(ErrorCode::MathOverflowConversion),
    }
}

/// The liquidity that `token_amount` of token B funds between two sqrt
/// prices, given in either order.
pub fn est_liquidity_for_token_b(sqrt_price_1: u128, sqrt_price_2: u128, token_amount: u64) -> (r:
    Result<u128, ErrorCode>)
    ensures
        r == liquidity_for_token_b(sqrt_price_1, sqrt_price_2, token_amount),
{
    let lower_sqrt_price_x64: u128 = if sqrt_price_1 <= sqrt_price_2 {
        sqrt_price_1
    } else {
        sqrt_price_2
    };
    let upper_sqrt_price_x64: u128 = if sqrt_price_1 >= sqrt_price_2 {
        sqrt_price_1
    } else {
        sqrt_price_2
    };
    let delta = upper_sqrt_price_x64.safe_sub(lower_sqrt_price_x64)?;
    let token_amount_x64: u128 = (token_amount as u128) * WORD;
    token_amount_x64.safe_div(delta)
}

/// The liquidity that the two amounts fund, from the sqrt prices of the
/// position's two ticks.
pub fn est_liquidity_from_sqrt_prices(
    curr_sqrt_price: u128,
    curr_tick: i32,
    lower_tick: i32,
    upper_tick: i32,
    lower_sqrt_price: u128,
    upper_sqrt_price: u128,
    token_amount_a: u64,
    token_amount_b: u64,
) -> (r: Result<u128, ErrorCode>)
    ensures
        r == liquidity_for_amounts(
            curr_sqrt_price,
            curr_tick,
            lower_tick,
            upper_tick,
            lower_sqrt_price,
            upper_sqrt_price,
            token_amount_a,
            token_amount_b,
        ),
{
    if curr_tick >= upper_tick {
        est_liquidity_for_token_b(upper_sqrt_price, lower_sqrt_price, token_amount_b)
    } else if curr_tick < lower_tick {
        est_liquidity_for_token_a(lower_sqrt_price, upper_sqrt_price, token_amount_a)
    } else {
        let est_liquidity_amount_a = est_liquidity_for_token_a(
            curr_sqrt_price,
            upper_sqrt_price,
            token_amount_a,
        )?;
        let est_liquidity_amount_b = est_liquidity_for_token_b(
            curr_sqrt_price,
            lower_sqrt_price,
            token_amount_b,
        )?;
        if est_liquidity_amount_a <= est_liquidity_amount_b {
            Ok(est_liquidity_amount_a)
        } else {
            Ok(est_liquidity_amount_b)
        }
    }
}

/// The liquidity that the two amounts fund in the position between
/// `lower_tick` and `upper_tick`, at the pool's current price and tick.
pub fn est_liquidity_from_token_amounts(
    curr_sqrt_price: u128,
    curr_tick: i32,
    lower_tick: i32,
    upper_tick: i32,
    token_amount_a: u64,
    token_amount_b: u64,
) -> (r: Result<u128, ErrorCode>)
    requires
        lower_tick > i32::MIN,
        upper_tick > i32::MIN,
    ensures
        r == liquidity_for_amounts(
            curr_sqrt_price,
            curr_tick,
            lower_tick,
            upper_tick,
            sqrt_price_at_tick(lower_tick),
            sqrt_price_at_tick(upper_tick),
            token_amount_a,
            token_amount_b,
        ),
{
    let lower_sqrt_price = sqrt_price_from_tick_index(lower_tick);
    let upper_sqrt_price = sqrt_price_from_tick_index(upper_tick);
    est_liquidity_from_sqrt_prices(
        curr_sqrt_price,
        curr_tick,
        lower_tick,
        upper_tick,
        lower_sqrt_price,
        upper_sqrt_price,
        token_amount_a,
        token_amount_b,
    )
}

/// The amount of token A that `liquidity` stands for between the sqrt
/// prices `lower` and `upper`: `liquidity * 2^64 * (upper - lower) / (upper *
/// lower)`, rounded down, or up where `round_up` is set.
pub open spec fn amount_a_between(liquidity: int, lower: int, upper: int, round_up: bool) -> int {
    if round_up {
        (liquidity * pow64() * (upper - lower) + upper * lower - 1) / (upper * lower)
    } else {
        (liquidity * pow64() * (upper - lower)) / (upper * lower)
    }
}

/// The amount of token B that `liquidity` stands for between the sqrt
/// prices `lower` and `upper`: `liquidity * (upper - lower) / 2^64`, rounded
/// down, or up where `round_up` is set.
pub open spec fn amount_b_between(liquidity: int, lower: int, upper: int, round_up: bool) -> int {
    if round_up && (liquidity * (upper - lower)) % pow64() != 0 {
        (liquidity * (upper - lower)) / pow64() + 1
    } else {
        (liquidity * (upper - lower)) / pow64()
    }
}

/// `amount_a_between`, or the error of the first step of the computation
/// that leaves 256 bits or divides by zero.
pub open spec fn token_a_outcome(liquidity: u128, lower: u128, upper: u128, round_up: bool)
    -> Result<int, ErrorCode> {
    let numerator = liquidity * pow64() * (upper - lower);
    let denominator = upper * lower;
    if upper < lower {
        Err(ErrorCode::MathOverflowSub)
    } else if numerator >= pow256() {
        Err(ErrorCode::MathOverflowMul)
    } else if round_up && numerator + denominator >= pow256() {
        Err(ErrorCode::MathOverflowAdd)
    } else if round_up && numerator + denominator == 0 {
        Err(ErrorCode::MathOverflowSub)
    } else if denominator == 0 {
        Err(ErrorCode::MathZeroDivision)
    } else {
        Ok(amount_a_between(liquidity as int, lower as int, upper as int, round_up))
    }
}

/// `amount_b_between`, or an error where the prices are in the wrong order.
pub open spec fn token_b_outcome(liquidity: u128, lower: u128, upper: u128, round_up: bool)
    -> Result<int, ErrorCode> {
    if upper < lower {
        Err(ErrorCode::MathOverflowSub)
    } else {
        Ok(amount_b_between(liquidity as int, lower as int, upper as int, round_up))
    }
}

/// The amounts of both tokens that `liquidity` stands for in a position
/// between the sqrt prices `lower_price` and `upper_price`, at the pool's
/// `current_price`: below the range all of it is token A, above the range all
/// of it is token B, inside the range token A covers the part above the
/// current price and token B the part below. An amount that does not fit in
/// 64 bits is an error.
pub open spec fn token_amounts_for_liquidity(
    current_price: u128,
    lower_price: u128,
    upper_price: u128,
    liquidity: u128,
    round_up: bool,
) -> Result<(u64, u64), ErrorCode> {
    let token_a = if current_price < lower_price {
        token_a_outcome(liquidity, lower_price, upper_price, round_up)
    } else if current_price < upper_price {
        token_a_outcome(liquidity, current_price, upper_price, round_up)
    } else {
        Ok(0int)
    };
    let token_b = if current_price < lower_price {
        Ok(0int)
    } else if current_price < upper_price {
        token_b_outcome(liquidity, lower_price, current_price, round_up)
    } else {
        token_b_outcome(liquidity, lower_price, upper_price, round_up)
    };
    match token_a {
        Err(e) => Err(e),
        Ok(a) => match token_b {
            Err(e) => Err(e),
            Ok(b) => if a >= pow64() || b >= pow64() {
                Err(ErrorCode::MathOverflowConversion)
            } else {
                Ok((a as u64, b as u64))
            },
        },
    }
}

proof fn lemma_shifted_liquidity(liquidity: int, delta: int)
    by (nonlinear_arith)
    requires
        0 <= liquidity < 0x1_0000_0000_0000_0000_0000_0000_0000_0000int,
        0 <= delta,
    ensures
        0 <= liquidity * 0x1_0000_0000_0000_0000
            < 0x1_0000_0000_0000_0000_0000_0000_0000_0000_0000_0000_0000_0000int,
        0 <= liquidity * 0x1_0000_0000_0000_0000 * delta,
{
}

/// Token A between two sqrt prices, with every step checked.
fn token_a_from_liquidity(liquidity: u128, lower: u128, upper: u128, round_up: bool) -> (r: Result<
    U256,
    ErrorCode,
>)
    ensures
        match r {
            Ok(v) => token_a_outcome(liquidity, lower, upper, round_up) == Ok::<int, ErrorCode>(
                v@ as int,
            ),
            Err(e) => token_a_outcome(liquidity, lower, upper, round_up) == Err::<int, ErrorCode>(
                e,
            ),
        },
{
    let liquidity_x64 = U256::from_u128(liquidity).shl_word();
    let upper_price = U256::from_u128(upper);
    let lower_price = U256::from_u128(lower);
    let delta = upper_price.safe_sub(lower_price)?;
    proof {
        lemma_shifted_liquidity(liquidity as int, upper - lower);
        lemma_half_product(upper as int, lower as int);
    }
    let mut numerator = liquidity_x64.safe_mul(delta)?;
    let denominator = upper_price.safe_mul(lower_price)?;
    if round_up {
        numerator = numerator.safe_add(denominator)?.safe_sub(U256::one())?;
    }
    numerator.safe_div(denominator)
}

/// Token B between two sqrt prices, with every step checked.
fn token_b_from_liquidity(liquidity: u128, lower: u128, upper: u128, round_up: bool) -> (r: Result<
    U256,
    ErrorCode,
>)
    ensures
        match r {
            Ok(v) => token_b_outcome(liquidity, lower, upper, round_up) == Ok::<int, ErrorCode>(
                v@ as int,
            ),
            Err(e) => token_b_outcome(liquidity, lower, upper, round_up) == Err::<int, ErrorCode>(
                e,
            ),
        },
{
    let delta = U256::from_u128(upper).safe_sub(U256::from_u128(lower))?;
    proof {
        lemma_half_product(liquidity as int, upper - lower);
    }
    let x64 = U256::from_u128(liquidity).safe_mul(delta)?;
    let result = x64.shr_word();
    if round_up && x64.low_word() > 0 {
        proof {
            assert(x64@ / (pow64() as nat) <= x64@);
        }
        result.safe_add(U256::one())
    } else {
        Ok(result)
    }
}

/// The amounts of both tokens that `liquidity` stands for, from the sqrt
/// prices of the position's two ticks.
pub fn token_amounts_from_sqrt_prices(
    current_price: u128,
    lower_price: u128,
    upper_price: u128,
    liquidity: u128,
    round_up: bool,
) -> (r: Result<(u64, u64), ErrorCode>)
    ensures
        r == token_amounts_for_liquidity(
            current_price,
            lower_price,
            upper_price,
            liquidity,
            round_up,
        ),
{
    let token_a;
    let token_b;
    if current_price < lower_price {
        token_a = token_a_from_liquidity(liquidity, lower_price, upper_price, round_up)?;
        token_b = U256::zero();
    } else if current_price < upper_price {
        token_a = token_a_from_liquidity(liquidity, current_price, upper_price, round_up)?;
        token_b = token_b_from_liquidity(liquidity, lower_price, current_price, round_up)?;
    } else {
        token_a = U256::zero();
        token_b = token_b_from_liquidity(liquidity, lower_price, upper_price, round_up)?;
    }
    let token_a = match token_a.try_into_u64() {
        Some(v) => v,
        None => {
            return Err(ErrorCode::MathOverflowConversion);
        },
    };
    let token_b = match token_b.try_into_u64() {
        Some(v) => v,
        None => {
            return Err(ErrorCode::MathOverflowConversion);
        },
    };
    Ok((token_a, token_b))
}

/// The arguments of a change of a position's liquidity: how much liquidity
/// to add or remove, and the most of each token to pay for adding it, or the
/// least of each token to get for removing it.
#[derive(Clone, Copy, Debug, PartialEq, Eq, Structural)]
pub struct ModifyLiquidity {
    pub liquidity_amount: u128,
    pub token_limit_a: u64,
    pub token_limit_b: u64,
}

/// What the logic reads of a pool and of one position in it.
#[derive(Clone, Copy, Debug, PartialEq, Eq, Structural)]
pub struct PositionAccounts {
    /// The pool's current sqrt price, a Q64.64 number
    pub sqrt_price: u128,
    /// The pool's current tick index
    pub tick_current_index: i32,
    /// The position's lower tick index
    pub tick_lower_index: i32,
    /// The position's upper tick index
    pub tick_upper_index: i32,
    /// The position's liquidity
    pub liquidity: u128,
}

impl PositionAccounts {
    /// The position's liquidity.
    pub fn liquidity(&self) -> (r: u128)
        ensures
            r == self.liquidity,
    {
        self.liquidity
    }

    /// The liquidity that the two amounts fund in this position.
    pub fn liquidity_from_token_amounts(&self, token_amount_a: u64, token_amount_b: u64) -> (r:
        Result<u128, ErrorCode>)
        requires
            self.tick_lower_index > i32::MIN,
            self.tick_upper_index > i32::MIN,
        ensures
            r == liquidity_for_amounts(
                self.sqrt_price,
                self.tick_current_index,
                self.tick_lower_index,
                self.tick_upper_index,
                sqrt_price_at_tick(self.tick_lower_index),
                sqrt_price_at_tick(self.tick_upper_index),
                token_amount_a,
                token_amount_b,
            ),
    {
        est_liquidity_from_token_amounts(
            self.sqrt_price,
            self.tick_current_index,
            self.tick_lower_index,
            self.tick_upper_index,
            token_amount_a,
            token_amount_b,
        )
    }

    /// The amounts of both tokens that `liquidity` stands for in this
    /// position, rounded down.
    pub fn token_amounts_from_liquidity(&self, liquidity: u128) -> (r: Result<
        (u64, u64),
        ErrorCode,
    >)
        requires
            self.tick_lower_index > i32::MIN,
            self.tick_upper_index > i32::MIN,
        ensures
            r == token_amounts_for_liquidity(
                self.sqrt_price,
                sqrt_price_at_tick(self.tick_lower_index),
                sqrt_price_at_tick(self.tick_upper_index),
                liquidity,
                false,
            ),
    {
        self.token_amounts_from_liquidity_is_round(liquidity, false)
    }

    /// The amounts of both tokens that `liquidity` stands for in this
    /// position, rounded up.
    pub fn token_amounts_from_liquidity_round_up(&self, liquidity: u128) -> (r: Result<
        (u64, u64),
        ErrorCode,
    >)
        requires
            self.tick_lower_index > i32::MIN,
            self.tick_upper_index > i32::MIN,
        ensures
            r == token_amounts_for_liquidity(
                self.sqrt_price,
                sqrt_price_at_tick(self.tick_lower_index),
                sqrt_price_at_tick(self.tick_upper_index),
                liquidity,
                true,
            ),
    {
        self.token_amounts_from_liquidity_is_round(liquidity, true)
    }

    fn token_amounts_from_liquidity_is_round(&self, liquidity: u128, round_up: bool) -> (r: Result<
        (u64, u64),
        ErrorCode,
    >)
        requires
            self.tick_lower_index > i32::MIN,
            self.tick_upper_index > i32::MIN,
        ensures
            r == token_amounts_for_liquidity(
                self.sqrt_price,
                sqrt_price_at_tick(self.tick_lower_index),
                sqrt_price_at_tick(self.tick_upper_index),
                liquidity,
                round_up,
            ),
    {
        let lower_price = sqrt_price_from_tick_index(self.tick_lower_index);
        let upper_price = sqrt_price_from_tick_index(self.tick_upper_index);
        token_amounts_from_sqrt_prices(
            self.sqrt_price,
            lower_price,
            upper_price,
            liquidity,
            round_up,
        )
    }
}

/// A pool's price and tick agree with the sqrt prices of a position's two
/// ticks: the lower one is below the upper one, neither price is zero, and
/// the current price lies on the same side of each as the current tick does.
pub open spec fn price_agrees_with_ticks(
    curr_sqrt_price: u128,
    curr_tick: i32,
    lower_tick: i32,
    upper_tick: i32,
    lower_sqrt_price: u128,
    upper_sqrt_price: u128,
) -> bool {
    &&& lower_tick < upper_tick
    &&& 0 < lower_sqrt_price < upper_sqrt_price
    &&& (curr_tick < lower_tick <==> curr_sqrt_price < lower_sqrt_price)
    &&& (curr_tick >= upper_tick <==> curr_sqrt_price >= upper_sqrt_price)
}

/// The current price, held to the position's range: the point up to which
/// token B and from which token A makes up the position.
pub open spec fn price_in_range(curr_sqrt_price: u128, lower_sqrt_price: u128, upper_sqrt_price: u128)
    -> int {
    if curr_sqrt_price < lower_sqrt_price {
        lower_sqrt_price as int
    } else if curr_sqrt_price < upper_sqrt_price {
        curr_sqrt_price as int
    } else {
        upper_sqrt_price as int
    }
}

proof fn lemma_token_a_side(liquidity: int, amount: int, lower: int, upper: int, funded: int)
    requires
        0 <= liquidity <= funded,
        0 < lower < upper,
        0 <= amount,
        funded == ((amount * upper * lower) / pow64()) / (upper - lower),
    ensures
        liquidity * pow64() * (upper - lower) <= amount * (upper * lower),
        amount * upper * lower == amount * (upper * lower),
        0 <= liquidity * pow64() * (upper - lower),
{
    let total = amount * upper * lower;
    assert(total == amount * (upper * lower)) by (nonlinear_arith)
        requires
            total == amount * upper * lower,
    ;
    assert(0 <= total) by (nonlinear_arith)
        requires
            total == amount * (upper * lower),
            0 <= amount,
            0 < lower,
            0 < upper,
    ;
    lemma_floor_bounds(total, pow64());
    lemma_floor_bounds(total / pow64(), upper - lower);
    let scaled = total / pow64();
    assert(liquidity * (upper - lower) <= funded * (upper - lower)) by (nonlinear_arith)
        requires
            0 <= liquidity <= funded,
            0 < upper - lower,
    ;
    assert(0 <= liquidity * (upper - lower)) by (nonlinear_arith)
        requires
            0 <= liquidity,
            0 < upper - lower,
    ;
    let part = liquidity * (upper - lower);
    assert(part * pow64() <= scaled * pow64()) by (nonlinear_arith)
        requires
            part <= scaled,
    ;
    assert(liquidity * pow64() * (upper - lower) == part * pow64()) by (nonlinear_arith)
        requires
            part == liquidity * (upper - lower),
    ;
    assert(0 <= part * pow64()) by (nonlinear_arith)
        requires
            0 <= part,
    ;
}

proof fn lemma_token_b_side(liquidity: int, amount: int, lower: int, upper: int, funded: int)
    requires
        0 <= liquidity <= funded,
        0 <= lower < upper,
        0 <= amount,
        funded == (amount * pow64()) / (upper - lower),
    ensures
        0 <= liquidity * (upper - lower) <= amount * pow64(),
{
    lemma_floor_bounds(amount * pow64(), upper - lower);
    assert(liquidity * (upper - lower) <= funded * (upper - lower)) by (nonlinear_arith)
        requires
            0 <= liquidity <= funded,
            0 < upper - lower,
    ;
    assert(0 <= liquidity * (upper - lower)) by (nonlinear_arith)
        requires
            0 <= liquidity,
            0 < upper - lower,
    ;
}

/// Liquidity sized from two amounts never asks for more than they fund:
/// in exact arithmetic, the token A it stands for above the current price is
/// at most `token_amount_a`, and the token B below it at most
/// `token_amount_b`. So the liquidity is at most the largest that the
/// amounts could fund in the range.
pub proof fn lemma_liquidity_within_funding(
    curr_sqrt_price: u128,
    curr_tick: i32,
    lower_tick: i32,
    upper_tick: i32,
    lower_sqrt_price: u128,
    upper_sqrt_price: u128,
    token_amount_a: u64,
    token_amount_b: u64,
)
    requires
        price_agrees_with_ticks(
            curr_sqrt_price,
            curr_tick,
            lower_tick,
            upper_tick,
            lower_sqrt_price,
            upper_sqrt_price,
        ),
        liquidity_for_amounts(
            curr_sqrt_price,
            curr_tick,
            lower_tick,
            upper_tick,
            lower_sqrt_price,
            upper_sqrt_price,
            token_amount_a,
            token_amount_b,
        ) is Ok,
    ensures
        ({
            let liquidity = liquidity_for_amounts(
                curr_sqrt_price,
                curr_tick,
                lower_tick,
                upper_tick,
                lower_sqrt_price,
                upper_sqrt_price,
                token_amount_a,
                token_amount_b,
            )->Ok_0;
            let price = price_in_range(curr_sqrt_price, lower_sqrt_price, upper_sqrt_price);
            &&& 0 <= liquidity * pow64() * (upper_sqrt_price - price) <= token_amount_a * (
            upper_sqrt_price * price)
            &&& 0 <= liquidity * (price - lower_sqrt_price) <= token_amount_b * pow64()
            &&& price < upper_sqrt_price ==> token_amount_a * (upper_sqrt_price * price)
                < pow256()
        }),
{
    let liquidity = liquidity_for_amounts(
        curr_sqrt_price,
        curr_tick,
        lower_tick,
        upper_tick,
        lower_sqrt_price,
        upper_sqrt_price,
        token_amount_a,
        token_amount_b,
    )->Ok_0 as int;
    let price = price_in_range(curr_sqrt_price, lower_sqrt_price, upper_sqrt_price);
    let lower = lower_sqrt_price as int;
    let upper = upper_sqrt_price as int;
    let a = token_amount_a as int;
    let b = token_amount_b as int;
    if curr_tick >= upper_tick {
        assert(price == upper);
        let funded = liquidity_for_token_b(upper_sqrt_price, lower_sqrt_price, token_amount_b);
        assert(funded is Ok);
        lemma_floor_bounds(b * pow64(), upper - lower);
        lemma_token_b_side(liquidity, b, lower, upper, (b * pow64()) / (upper - lower));
        assert(liquidity * pow64() * (upper - price) == 0) by (nonlinear_arith)
            requires
                upper - price == 0,
        ;
        assert(0 <= a * (upper * price)) by (nonlinear_arith)
            requires
                0 <= a,
                0 <= upper,
                0 <= price,
        ;
    } else if curr_tick < lower_tick {
        assert(price == lower);
        let funded = liquidity_for_token_a(lower_sqrt_price, upper_sqrt_price, token_amount_a);
        assert(funded is Ok);
        lemma_token_a_side(
            liquidity,
            a,
            lower,
            upper,
            ((a * upper * lower) / pow64()) / (upper - lower),
        );
        assert(liquidity * (price - lower) == 0) by (nonlinear_arith)
            requires
                price - lower == 0,
        ;
    } else {
        assert(price == curr_sqrt_price);
        let funded_a = liquidity_for_token_a(curr_sqrt_price, upper_sqrt_price, token_amount_a);
        let funded_b = liquidity_for_token_b(curr_sqrt_price, lower_sqrt_price, token_amount_b);
        assert(funded_a is Ok && funded_b is Ok);
        lemma_floor_bounds(b * pow64(), price - lower);
        lemma_token_a_side(
            liquidity,
            a,
            price,
            upper,
            ((a * upper * price) / pow64()) / (upper - price),
        );
        lemma_token_b_side(liquidity, b, lower, price, (b * pow64()) / (price - lower));
    }
}

/// Turning amounts into liquidity and the liquidity back into amounts never
/// gives more than was put in, whichever way the amounts are rounded; and
/// rounded down it always succeeds.
pub proof fn lemma_round_trip_never_gains(
    curr_sqrt_price: u128,
    curr_tick: i32,
    lower_tick: i32,
    upper_tick: i32,
    lower_sqrt_price: u128,
    upper_sqrt_price: u128,
    token_amount_a: u64,
    token_amount_b: u64,
    round_up: bool,
)
    requires
        price_agrees_with_ticks(
            curr_sqrt_price,
            curr_tick,
            lower_tick,
            upper_tick,
            lower_sqrt_price,
            upper_sqrt_price,
        ),
        liquidity_for_amounts(
            curr_sqrt_price,
            curr_tick,
            lower_tick,
            upper_tick,
            lower_sqrt_price,
            upper_sqrt_price,
            token_amount_a,
            token_amount_b,
        ) is Ok,
    ensures
        ({
            let liquidity = liquidity_for_amounts(
                curr_sqrt_price,
                curr_tick,
                lower_tick,
                upper_tick,
                lower_sqrt_price,
                upper_sqrt_price,
                token_amount_a,
                token_amount_b,
            )->Ok_0;
            let back = token_amounts_for_liquidity(
                curr_sqrt_price,
                lower_sqrt_price,
                upper_sqrt_price,
                liquidity,
                round_up,
            );
            &&& !round_up ==> back is Ok
            &&& back is Ok ==> back->Ok_0.0 <= token_amount_a && back->Ok_0.1 <= token_amount_b
        }),
{
    lemma_liquidity_within_funding(
        curr_sqrt_price,
        curr_tick,
        lower_tick,
        upper_tick,
        lower_sqrt_price,
        upper_sqrt_price,
        token_amount_a,
        token_amount_b,
    );
    let liquidity = liquidity_for_amounts(
        curr_sqrt_price,
        curr_tick,
        lower_tick,
        upper_tick,
        lower_sqrt_price,
        upper_sqrt_price,
        token_amount_a,
        token_amount_b,
    )->Ok_0;
    let price = price_in_range(curr_sqrt_price, lower_sqrt_price, upper_sqrt_price);
    let upper = upper_sqrt_price as int;
    let lower = lower_sqrt_price as int;
    if price < upper {
        let numerator = liquidity * pow64() * (upper - price);
        let denominator = upper * price;
        assert(denominator > 0) by (nonlinear_arith)
            requires
                denominator == upper * price,
                upper > 0,
                price > 0,
        ;
        assert(token_amount_a * (upper * price) == token_amount_a * denominator);
        lemma_floor_at_most(numerator, denominator, token_amount_a as int);
        lemma_ceil_at_most(numerator, denominator, token_amount_a as int);
    }
    if lower < price {
        let x64 = liquidity * (price - lower);
        lemma_floor_at_most(x64, pow64(), token_amount_b as int);
        if x64 % pow64() != 0 {
            if x64 == token_amount_b * pow64() {
                vstd::arithmetic::div_mod::lemma_mod_multiples_basic(
                    token_amount_b as int,
                    pow64(),
                );
            }
            lemma_floor_below(x64, pow64(), token_amount_b as int);
        }
    }
}

proof fn lemma_scaled_order(less: int, more: int, scale: int)
    by (nonlinear_arith)
    requires
        0 <= less <= more,
        0 <= scale,
    ensures
        0 <= less * scale <= more * scale,
{
}

/// At one price, less liquidity stands for no more of either token, also
/// where the amounts of the smaller liquidity are rounded down and those of
/// the larger one up: what the pool pays for liquidity taken out is never
/// more than what it has charged for at least as much liquidity put in.
pub proof fn lemma_less_liquidity_is_worth_no_more(
    current_price: u128,
    lower_price: u128,
    upper_price: u128,
    less: u128,
    more: u128,
    round_up: bool,
)
    requires
        less <= more,
        token_amounts_for_liquidity(current_price, lower_price, upper_price, more, round_up)
            is Ok,
    ensures
        ({
            let charged = token_amounts_for_liquidity(
                current_price,
                lower_price,
                upper_price,
                more,
                round_up,
            )->Ok_0;
            let paid = token_amounts_for_liquidity(
                current_price,
                lower_price,
                upper_price,
                less,
                false,
            );
            &&& paid is Ok
            &&& paid->Ok_0.0 <= charged.0
            &&& paid->Ok_0.1 <= charged.1
        }),
{
    let lower_a: int = if current_price < lower_price {
        lower_price as int
    } else {
        current_price as int
    };
    let upper_a = upper_price as int;
    let lower_b = lower_price as int;
    let upper_b: int = if current_price < upper_price {
        current_price as int
    } else {
        upper_price as int
    };
    if current_price < upper_price {
        // token A is computed
        let d = upper_a * lower_a;
        lemma_scaled_order(less as int, more as int, pow64());
        lemma_scaled_order(less * pow64(), more * pow64(), upper_a - lower_a);
        let n_less = less * pow64() * (upper_a - lower_a);
        let n_more = more * pow64() * (upper_a - lower_a);
        assert(d > 0) by (nonlinear_arith)
            requires
                d == upper_a * lower_a,
                d != 0,
                upper_a >= 0,
                lower_a >= 0,
        ;
        lemma_quotients_ordered(n_less, n_more, d);
        lemma_floor_bounds(n_less, d);
    }
    if current_price >= lower_price {
        // token B is computed
        lemma_scaled_order(less as int, more as int, upper_b - lower_b);
        let x_less = less * (upper_b - lower_b);
        let x_more = more * (upper_b - lower_b);
        lemma_quotients_ordered(x_less, x_more, pow64());
        lemma_floor_bounds(x_less, pow64());
    }
}

} // verus!
