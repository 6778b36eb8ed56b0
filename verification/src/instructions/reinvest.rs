use crate::error::ErrorCode;
use crate::instructions::swap_rewards::SwapEvent;
use crate::interfaces::whirlpool_position::{
    liquidity_for_amounts,
    sqrt_price_at_tick,
    token_amounts_for_liquidity,
    ModifyLiquidity,
    PositionAccounts,
};
use crate::math::division::{lemma_floor_below, lemma_floor_bounds};
use crate::math::safe_arithmetics::{SafeArithmetics, SafeMulDiv};
use crate::math::u256::{mul_wide, pow128, pow192, pow256, pow64, U256, WORD};
use crate::state::{Pubkey, VaultAccount};
use vstd::prelude::*;

verus! {

/// The lowest sqrt price a pool can have: the price limit of a swap from
/// token A to token B that accepts any price.
pub const MIN_SQRT_PRICE_X64: u128 = 4295048016;

/// The highest sqrt price a pool can have: the price limit of a swap from
/// token B to token A that accepts any price.
pub const MAX_SQRT_PRICE_X64: u128 = 79226673515401279992447579055;

/// The arguments of a swap on the pool: the amount that goes in, the least
/// that must come out, and the sqrt price at which the swap stops.
#[derive(Clone, Copy, Debug, PartialEq, Eq, Structural)]
pub struct SwapParams {
    pub amount: u64,
    pub other_amount_threshold: u64,
    pub sqrt_price_limit: u128,
    pub amount_specified_is_input: bool,
    pub a_to_b: bool,
}

/// Sell `amount_a` of token A for token B, at whatever price.
pub open spec fn swap_from_a_to_b(amount_a: u64) -> SwapParams {
    SwapParams {
        amount: amount_a,
        other_amount_threshold: 1,
        sqrt_price_limit: MIN_SQRT_PRICE_X64,
        amount_specified_is_input: true,
        a_to_b: true,
    }
}

/// Sell `amount_b` of token B for token A, at whatever price.
pub open spec fn swap_from_b_to_a(amount_b: u64) -> SwapParams {
    SwapParams {
        amount: amount_b,
        other_amount_threshold: 1,
        sqrt_price_limit: MAX_SQRT_PRICE_X64,
        amount_specified_is_input: true,
        a_to_b: false,
    }
}

/// The swap that sells `amount_a` of token A.
pub fn swap_params_from_a_to_b(amount_a: u64) -> (r: SwapParams)
    ensures
        r == swap_from_a_to_b(amount_a),
{
    SwapParams {
        amount: amount_a,
        other_amount_threshold: 1,
        sqrt_price_limit: MIN_SQRT_PRICE_X64,
        amount_specified_is_input: true,
        a_to_b: true,
    }
}

/// The swap that sells `amount_b` of token B.
pub fn swap_params_from_b_to_a(amount_b: u64) -> (r: SwapParams)
    ensures
        r == swap_from_b_to_a(amount_b),
{
    SwapParams {
        amount: amount_b,
        other_amount_threshold: 1,
        sqrt_price_limit: MAX_SQRT_PRICE_X64,
        amount_specified_is_input: true,
        a_to_b: false,
    }
}

/// The swap that brings the idle amounts to the ratio `position_amount_a /
/// position_amount_b` of the position. With `ratio` the Q64.64 quotient of
/// the two, rounded down, and `price` the square of the pool's sqrt price,
/// the amount to swap is
/// `|amount_a * 2^64 - ratio * amount_b| * 2^128 / (2^192 + ratio * price)`,
/// rounded down; token A is sold where the difference is positive, token B
/// where it is not.
pub open spec fn ratio_swap(
    amount_a: u64,
    amount_b: u64,
    position_amount_a: u64,
    position_amount_b: u64,
    sqrt_price: u128,
) -> Result<SwapParams, ErrorCode> {
    let ratio_x64 = (pow64() * position_amount_a) / (position_amount_b as int);
    let ratio_times_price_x192 = ratio_x64 * (sqrt_price * sqrt_price);
    let ratio_amount_b_x64 = ratio_x64 * amount_b;
    let amount_a_x64 = amount_a * pow64();
    if position_amount_b == 0 {
        Err(ErrorCode::MathZeroDivision)
    } else if ratio_times_price_x192 >= pow256() {
        Err(ErrorCode::MathOverflowMul)
    } else if ratio_amount_b_x64 >= pow128() {
        Err(ErrorCode::MathOverflowMul)
    } else if pow192() + ratio_times_price_x192 >= pow256() {
        Err(ErrorCode::MathOverflowAdd)
    } else if amount_a_x64 > ratio_amount_b_x64 {
        Ok(
            swap_from_a_to_b(
                (((amount_a_x64 - ratio_amount_b_x64) * pow128()) / (pow192()
                    + ratio_times_price_x192)) as u64,
            ),
        )
    } else {
        Ok(
            swap_from_b_to_a(
                (((ratio_amount_b_x64 - amount_a_x64) * pow128()) / (pow192()
                    + ratio_times_price_x192)) as u64,
            ),
        )
    }
}

/// The swap that a reinvestment makes before it deposits: none where
/// nothing is idle; all of token A where the position holds no token B; all
/// of token B where it holds no token A; else the swap that brings the idle
/// amounts to the position's ratio.
pub open spec fn reinvest_swap(
    amount_a: u64,
    amount_b: u64,
    position_amount_a: u64,
    position_amount_b: u64,
    sqrt_price: u128,
) -> Result<Option<SwapParams>, ErrorCode> {
    if amount_a == 0 && amount_b == 0 {
        Ok(None)
    } else if position_amount_b == 0 {
        Ok(Some(swap_from_a_to_b(amount_a)))
    } else if position_amount_a == 0 {
        Ok(Some(swap_from_b_to_a(amount_b)))
    } else {
        match ratio_swap(amount_a, amount_b, position_amount_a, position_amount_b, sqrt_price) {
            Ok(params) => Ok(Some(params)),
            Err(e) => Err(e),
        }
    }
}

proof fn lemma_ratio_fits(position_amount_a: int, position_amount_b: int)
    requires
        0 <= position_amount_a < pow64(),
        0 < position_amount_b,
    ensures
        0 <= (pow64() * position_amount_a) / position_amount_b < pow128(),
{
    let x = pow64() * position_amount_a;
    assert(x < pow128() * position_amount_b) by (nonlinear_arith)
        requires
            x == pow64() * position_amount_a,
            0 <= position_amount_a < pow64(),
            1 <= position_amount_b,
            pow64() * pow64() == pow128(),
    ;
    lemma_floor_below(x, position_amount_b, pow128());
    lemma_floor_bounds(x, position_amount_b);
}

proof fn lemma_swap_amount_fits(numerator_x64: int, denominator: int)
    requires
        0 <= numerator_x64 < pow128(),
        pow192() <= denominator,
    ensures
        0 <= numerator_x64 * pow128() < pow256(),
        0 <= (numerator_x64 * pow128()) / denominator < pow64(),
{
    let n = numerator_x64 * pow128();
    assert(0 <= n < pow256()) by (nonlinear_arith)
        requires
            n == numerator_x64 * pow128(),
            0 <= numerator_x64 < pow128(),
            pow128() * pow128() == pow256(),
            pow128() > 0,
    ;
    assert(n < pow64() * denominator) by (nonlinear_arith)
        requires
            n < pow256(),
            pow192() <= denominator,
            pow64() * pow192() == pow256(),
    ;
    lemma_floor_below(n, denominator, pow64());
    lemma_floor_bounds(n, denominator);
}

/// The swap that brings the idle amounts to the position's ratio.
pub fn swap_params_for_ratio(
    amount_a: u64,
    amount_b: u64,
    position_amount_a: u64,
    position_amount_b: u64,
    sqrt_price: u128,
) -> (r: Result<SwapParams, ErrorCode>)
    ensures
        r == ratio_swap(amount_a, amount_b, position_amount_a, position_amount_b, sqrt_price),
{
    let price_x128: U256 = mul_wide(sqrt_price, sqrt_price);
    proof {
        if position_amount_b != 0 {
            lemma_ratio_fits(position_amount_a as int, position_amount_b as int);
        }
    }
    let ratio_x64: u128 = WORD.safe_mul_div(position_amount_a as u128, position_amount_b as u128)?;
    let ratio_times_price_x192 = U256::from_u128(ratio_x64).safe_mul(price_x128)?;
    let ratio_amount_b_x64: u128 = ratio_x64.safe_mul(amount_b as u128)?;
    let amount_a_x64: u128 = (amount_a as u128) * WORD;
    let is_delta_a_positive = amount_a_x64 > ratio_amount_b_x64;
    let numerator_x64: u128 = if is_delta_a_positive {
        amount_a_x64.safe_sub(ratio_amount_b_x64)?
    } else {
        ratio_amount_b_x64.safe_sub(amount_a_x64)?
    };
    let numerator_x192 = U256 { hi: numerator_x64, lo: 0 };
    let denominator_x192 = (U256 { hi: WORD, lo: 0 }).safe_add(ratio_times_price_x192)?;
    proof {
        lemma_swap_amount_fits(numerator_x64 as int, denominator_x192@ as int);
    }
    let amount_to_swap: u64 = match numerator_x192.safe_div(denominator_x192)?.try_into_u64() {
        Some(v) => v,
        None => {
            return Err(ErrorCode::MathOverflowConversion);
        },
    };
    if is_delta_a_positive {
        Ok(swap_params_from_a_to_b(amount_to_swap))
    } else {
        Ok(swap_params_from_b_to_a(amount_to_swap))
    }
}

/// The swap that a reinvestment makes before it deposits, from the idle
/// amounts, the amounts that the position's liquidity stands for, and the
/// pool's sqrt price.
pub fn swap_params_for_reinvest(
    amount_a: u64,
    amount_b: u64,
    position_amount_a: u64,
    position_amount_b: u64,
    sqrt_price: u128,
) -> (r: Result<Option<SwapParams>, ErrorCode>)
    ensures
        r == reinvest_swap(amount_a, amount_b, position_amount_a, position_amount_b, sqrt_price),
{
    if amount_a == 0 && amount_b == 0 {
        Ok(None)
    } else if position_amount_b == 0 {
        Ok(Some(swap_params_from_a_to_b(amount_a)))
    } else if position_amount_a == 0 {
        Ok(Some(swap_params_from_b_to_a(amount_b)))
    } else {
        let params = swap_params_for_ratio(
            amount_a,
            amount_b,
            position_amount_a,
            position_amount_b,
            sqrt_price,
        )?;
        Ok(Some(params))
    }
}

/// What a reinvestment starts with.
#[derive(Clone, Copy, Debug, PartialEq, Eq, Structural)]
pub struct ReinvestStart {
    /// The position's liquidity before anything is done
    pub liquidity_before: u128,
    /// The swap to make first, if any
    pub swap: Option<SwapParams>,
}

/// The record of a reinvestment.
#[derive(Clone, Copy, Debug, PartialEq, Eq, Structural)]
pub struct ReinvestEvent {
    pub vault_account: Pubkey,
    pub lp_supply: u64,
    pub liquidity: u128,
    pub liquidity_increase: u128,
    pub elapsed_slots: u64,
}

/// Whether a reinvestment may start at `current_slot`, and after how many
/// slots: not before `min_slots_for_reinvest` slots have passed since the
/// last one.
pub open spec fn elapsed_slots(vault: VaultAccount, current_slot: u64) -> Result<u64, ErrorCode> {
    if current_slot < vault.last_reinvestment_slot {
        Err(ErrorCode::MathOverflowSub)
    } else if current_slot - vault.last_reinvestment_slot < vault.min_slots_for_reinvest {
        Err(ErrorCode::NotEnoughSlots)
    } else {
        Ok((current_slot - vault.last_reinvestment_slot) as u64)
    }
}

/// The cooldown of reinvestments, which whoever asks for one checks first:
/// the slots that have passed since the last one, if they are enough.
pub fn check_cooldown(vault: &VaultAccount, current_slot: u64) -> (r: Result<u64, ErrorCode>)
    ensures
        r == elapsed_slots(*vault, current_slot),
{
    let last_slot = vault.last_reinvestment_slot;
    let elapsed_slots = current_slot.safe_sub(last_slot)?;
    if !(elapsed_slots >= vault.min_slots_for_reinvest) {
        return Err(ErrorCode::NotEnoughSlots);
    }
    Ok(elapsed_slots)
}

/// What the first step of a reinvestment gives: the position's liquidity,
/// and the swap sized from the amounts that this liquidity stands for,
/// rounded down.
pub open spec fn reinvest_start(
    position: PositionAccounts,
    lower_sqrt_price: u128,
    upper_sqrt_price: u128,
    amount_a: u64,
    amount_b: u64,
) -> Result<ReinvestStart, ErrorCode> {
    match token_amounts_for_liquidity(
        position.sqrt_price,
        lower_sqrt_price,
        upper_sqrt_price,
        position.liquidity,
        false,
    ) {
        Err(e) => Err(e),
        Ok(held) => match reinvest_swap(amount_a, amount_b, held.0, held.1, position.sqrt_price) {
            Err(e) => Err(e),
            Ok(swap) => Ok(ReinvestStart { liquidity_before: position.liquidity, swap }),
        },
    }
}

/// The first step of a reinvestment of the idle `amount_a` and `amount_b`
/// into the active position: sizes the swap that brings the two amounts to
/// the position's ratio.
pub fn handler(position: &PositionAccounts, amount_a: u64, amount_b: u64) -> (r: Result<
    ReinvestStart,
    ErrorCode,
>)
    requires
        position.tick_lower_index > i32::MIN,
        position.tick_upper_index > i32::MIN,
    ensures
        r == reinvest_start(
            *position,
            sqrt_price_at_tick(position.tick_lower_index),
            sqrt_price_at_tick(position.tick_upper_index),
            amount_a,
            amount_b,
        ),
{
    let liquidity_before = position.liquidity();
    let (position_amount_a, position_amount_b) = position.token_amounts_from_liquidity(
        liquidity_before,
    )?;
    let swap = swap_params_for_reinvest(
        amount_a,
        amount_b,
        position_amount_a,
        position_amount_b,
        position.sqrt_price,
    )?;
    Ok(ReinvestStart { liquidity_before, swap })
}

/// The record of a swap: what went in, and by how much the balance of the
/// token that came out has grown.
pub fn swap_event(
    vault_account: Pubkey,
    swap_params: &SwapParams,
    mint_a: Pubkey,
    mint_b: Pubkey,
    amount_a_before: u64,
    amount_b_before: u64,
    amount_a_after: u64,
    amount_b_after: u64,
) -> (r: Result<SwapEvent, ErrorCode>)
    ensures
        swap_params.a_to_b && amount_b_after >= amount_b_before ==> r == Ok::<
            SwapEvent,
            ErrorCode,
        >(
            SwapEvent {
                vault_account,
                mint_in: mint_a,
                amount_in: swap_params.amount,
                mint_out: mint_b,
                amount_out: (amount_b_after - amount_b_before) as u64,
            },
        ),
        !swap_params.a_to_b && amount_a_after >= amount_a_before ==> r == Ok::<
            SwapEvent,
            ErrorCode,
        >(
            SwapEvent {
                vault_account,
                mint_in: mint_b,
                amount_in: swap_params.amount,
                mint_out: mint_a,
                amount_out: (amount_a_after - amount_a_before) as u64,
            },
        ),
        swap_params.a_to_b && amount_b_after < amount_b_before ==> r == Err::<
            SwapEvent,
            ErrorCode,
        >(ErrorCode::MathOverflowSub),
        !swap_params.a_to_b && amount_a_after < amount_a_before ==> r == Err::<
            SwapEvent,
            ErrorCode,
        >(ErrorCode::MathOverflowSub),
{
    if swap_params.a_to_b {
        Ok(
            SwapEvent {
                vault_account,
                mint_in: mint_a,
                amount_in: swap_params.amount,
                mint_out: mint_b,
                amount_out: amount_b_after.safe_sub(amount_b_before)?,
            },
        )
    } else {
        Ok(
            SwapEvent {
                vault_account,
                mint_in: mint_b,
                amount_in: swap_params.amount,
                mint_out: mint_a,
                amount_out: amount_a_after.safe_sub(amount_a_before)?,
            },
        )
    }
}

/// The liquidity to add after the swap: as much as both idle amounts fund,
/// with the amounts as the most to pay; nothing where either amount is zero.
pub open spec fn max_possible_deposit(
    position: PositionAccounts,
    lower_sqrt_price: u128,
    upper_sqrt_price: u128,
    amount_a: u64,
    amount_b: u64,
) -> Result<Option<ModifyLiquidity>, ErrorCode> {
    if amount_a > 0 && amount_b > 0 {
        match liquidity_for_amounts(
            position.sqrt_price,
            position.tick_current_index,
            position.tick_lower_index,
            position.tick_upper_index,
            lower_sqrt_price,
            upper_sqrt_price,
            amount_a,
            amount_b,
        ) {
            Ok(liquidity) => Ok(
                Some(
                    ModifyLiquidity {
                        liquidity_amount: liquidity,
                        token_limit_a: amount_a,
                        token_limit_b: amount_b,
                    },
                ),
            ),
            Err(e) => Err(e),
        }
    } else {
        Ok(None)
    }
}

/// The second step of a reinvestment: what to add to the position from the
/// amounts that are idle after the swap.
pub fn deposit_max_possible_liquidity(position: &PositionAccounts, amount_a: u64, amount_b: u64)
    -> (r: Result<Option<ModifyLiquidity>, ErrorCode>)
    requires
        position.tick_lower_index > i32::MIN,
        position.tick_upper_index > i32::MIN,
    ensures
        r == max_possible_deposit(
            *position,
            sqrt_price_at_tick(position.tick_lower_index),
            sqrt_price_at_tick(position.tick_upper_index),
            amount_a,
            amount_b,
        ),
{
    if amount_a > 0 && amount_b > 0 {
        let liquidity = position.liquidity_from_token_amounts(amount_a, amount_b)?;
        Ok(
            Some(
                ModifyLiquidity {
                    liquidity_amount: liquidity,
                    token_limit_a: amount_a,
                    token_limit_b: amount_b,
                },
            ),
        )
    } else {
        Ok(None)
    }
}

/// The last step of a reinvestment, made at `current_slot`: the vault
/// notes the slot, and by how much the position's liquidity has grown. A
/// liquidity that has shrunk is an error and leaves the vault as before.
pub fn complete(
    vault: &mut VaultAccount,
    vault_account: Pubkey,
    lp_supply: u64,
    liquidity_before: u128,
    liquidity_after: u128,
    elapsed_slots: u64,
    current_slot: u64,
) -> (r: Result<ReinvestEvent, ErrorCode>)
    ensures
        liquidity_after < liquidity_before ==> r == Err::<ReinvestEvent, ErrorCode>(
            ErrorCode::MathOverflowSub,
        ) && *final(vault) == *old(vault),
        liquidity_after >= liquidity_before ==> r == Ok::<ReinvestEvent, ErrorCode>(
            ReinvestEvent {
                vault_account,
                lp_supply,
                liquidity: liquidity_after,
                liquidity_increase: (liquidity_after - liquidity_before) as u128,
                elapsed_slots,
            },
        ) && *final(vault) == (VaultAccount {
            last_liquidity_increase: (liquidity_after - liquidity_before) as u128,
            last_reinvestment_slot: current_slot,
            ..*old(vault)
        }) && final(vault).last_liquidity_increase <= liquidity_after,
        old(vault).wf() ==> final(vault).wf(),
{
    let liquidity_increase = liquidity_after.safe_sub(liquidity_before)?;
    vault.last_liquidity_increase = liquidity_increase;
    vault.last_reinvestment_slot = current_slot;
    Ok(
        ReinvestEvent {
            vault_account,
            lp_supply,
            liquidity: liquidity_after,
            liquidity_increase,
            elapsed_slots,
        },
    )
}

} // verus!
