use crate::error::ErrorCode;
use crate::instructions::deposit::{deposit_plan, DepositWithdrawEvent};
use crate::interfaces::whirlpool_position::ModifyLiquidity;
use crate::math::division::{lemma_ceil_reaches, lemma_floor_at_most, lemma_floor_bounds};
use crate::math::safe_arithmetics::{mul_div_u128, mul_div_u64, SafeArithmetics, SafeMulDiv};
use crate::state::Pubkey;
use vstd::prelude::*;

verus! {

/// What a withdrawal of `lp_amount` shares consists of.
#[derive(Clone, Copy, Debug, PartialEq, Eq, Structural)]
pub struct WithdrawPlan {
    /// Token A paid out of the vault's idle balance
    pub amount_a: u64,
    /// Token B paid out of the vault's idle balance
    pub amount_b: u64,
    /// The liquidity to remove from the active position for the
    /// withdrawer, and the least of each token that it must still give
    pub decrease: ModifyLiquidity,
    /// The shares to burn
    pub lp_amount: u64,
}

/// The withdrawer's part of an idle balance: `vault_amount * lp_amount /
/// supply`, rounded down. Nothing is paid out of an empty balance.
pub open spec fn withdraw_share(vault_amount: u64, lp_amount: u64, supply: u64) -> Result<
    u64,
    ErrorCode,
> {
    if vault_amount == 0 {
        Ok(0u64)
    } else {
        mul_div_u64(vault_amount, lp_amount, supply, false)
    }
}

/// What is left of a minimum once `paid` has been paid towards it.
pub open spec fn remaining_minimum(min_amount: u64, paid: u64) -> u64 {
    if min_amount > paid {
        (min_amount - paid) as u64
    } else {
        0
    }
}

/// What a withdrawal of `lp_amount` shares consists of: the same part of
/// both idle balances as the shares are of the supply, and the same part of
/// the position's liquidity without the last reinvested increase, each
/// rounded down. What the idle balances pay counts towards the minimums.
pub open spec fn withdraw_plan(
    lp_amount: u64,
    min_amount_a: u64,
    min_amount_b: u64,
    supply: u64,
    liquidity: u128,
    last_liquidity_increase: u128,
    vault_amount_a: u64,
    vault_amount_b: u64,
) -> Result<WithdrawPlan, ErrorCode> {
    if lp_amount == 0 {
        Err(ErrorCode::ZeroLpAmount)
    } else {
        match withdraw_share(vault_amount_a, lp_amount, supply) {
            Err(e) => Err(e),
            Ok(amount_a) => match withdraw_share(vault_amount_b, lp_amount, supply) {
                Err(e) => Err(e),
                Ok(amount_b) => if liquidity < last_liquidity_increase {
                    Err(ErrorCode::MathOverflowSub)
                } else {
                    match mul_div_u128(
                        (liquidity - last_liquidity_increase) as u128,
                        lp_amount as u128,
                        supply as u128,
                        false,
                    ) {
                        Err(e) => Err(e),
                        Ok(user_liquidity) => Ok(
                            WithdrawPlan {
                                amount_a,
                                amount_b,
                                decrease: ModifyLiquidity {
                                    liquidity_amount: user_liquidity,
                                    token_limit_a: remaining_minimum(min_amount_a, amount_a),
                                    token_limit_b: remaining_minimum(min_amount_b, amount_b),
                                },
                                lp_amount,
                            },
                        ),
                    }
                },
            },
        }
    }
}

fn share_of_balance(vault_amount: u64, lp_amount: u64, supply: u64) -> (r: Result<u64, ErrorCode>)
    ensures
        r == withdraw_share(vault_amount, lp_amount, supply),
{
    if vault_amount > 0 {
        vault_amount.safe_mul_div(lp_amount, supply)
    } else {
        Ok(0)
    }
}

/// Plans a withdrawal of `lp_amount` shares from a vault with `supply`
/// shares, `liquidity` in its active position, of which
/// `last_liquidity_increase` came with the last reinvestment, and the idle
/// balances `vault_amount_a` and `vault_amount_b`, for a withdrawer who wants
/// at least `min_amount_a` and `min_amount_b`.
pub fn handler(
    lp_amount: u64,
    min_amount_a: u64,
    min_amount_b: u64,
    supply: u64,
    liquidity: u128,
    last_liquidity_increase: u128,
    vault_amount_a: u64,
    vault_amount_b: u64,
) -> (r: Result<WithdrawPlan, ErrorCode>)
    ensures
        r == withdraw_plan(
            lp_amount,
            min_amount_a,
            min_amount_b,
            supply,
            liquidity,
            last_liquidity_increase,
            vault_amount_a,
            vault_amount_b,
        ),
{
    if !(lp_amount > 0) {
        return Err(ErrorCode::ZeroLpAmount);
    }
    let amount_a = share_of_balance(vault_amount_a, lp_amount, supply)?;
    let min_amount_a = min_amount_a.saturating_sub(amount_a);
    let amount_b = share_of_balance(vault_amount_b, lp_amount, supply)?;
    let min_amount_b = min_amount_b.saturating_sub(amount_b);
    let past_liquidity = liquidity.safe_sub(last_liquidity_increase)?;
    let user_liquidity = past_liquidity.safe_mul_div(lp_amount as u128, supply as u128)?;
    Ok(
        WithdrawPlan {
            amount_a,
            amount_b,
            decrease: ModifyLiquidity {
                liquidity_amount: user_liquidity,
                token_limit_a: min_amount_a,
                token_limit_b: min_amount_b,
            },
            lp_amount,
        },
    )
}

/// The record of a withdrawal: what has come into the withdrawer's two
/// accounts.
pub fn withdraw_event(
    vault_account: Pubkey,
    amount_user_a_before: u64,
    amount_user_b_before: u64,
    amount_user_a_after: u64,
    amount_user_b_after: u64,
    liquidity: u128,
) -> (r: Result<DepositWithdrawEvent, ErrorCode>)
    ensures
        amount_user_a_after >= amount_user_a_before && amount_user_b_after
            >= amount_user_b_before ==> r == Ok::<DepositWithdrawEvent, ErrorCode>(
            DepositWithdrawEvent {
                vault_account,
                amount_a: (amount_user_a_after - amount_user_a_before) as u64,
                amount_b: (amount_user_b_after - amount_user_b_before) as u64,
                liquidity,
            },
        ),
        amount_user_a_after < amount_user_a_before || amount_user_b_after
            < amount_user_b_before ==> r == Err::<DepositWithdrawEvent, ErrorCode>(
            ErrorCode::MathOverflowSub,
        ),
{
    let amount_user_a_diff = amount_user_a_after.safe_sub(amount_user_a_before)?;
    let amount_user_b_diff = amount_user_b_after.safe_sub(amount_user_b_before)?;
    Ok(
        DepositWithdrawEvent {
            vault_account,
            amount_a: amount_user_a_diff,
            amount_b: amount_user_b_diff,
            liquidity,
        },
    )
}

/// A part `paid` of at least `balance * shares / supply`, put on top of the
/// balance, is not exceeded by the same shares' part, rounded down, of what
/// the balance then is.
proof fn lemma_share_round_trip(balance: int, shares: int, supply: int, paid: int)
    requires
        0 <= balance,
        0 < shares,
        0 <= supply,
        0 <= paid,
        paid * supply >= balance * shares,
    ensures
        0 <= (balance + paid) * shares,
        ((balance + paid) * shares) / (supply + shares) <= paid,
{
    let total = (balance + paid) * shares;
    assert(total == balance * shares + paid * shares) by (nonlinear_arith)
        requires
            total == (balance + paid) * shares,
    ;
    assert(paid * (supply + shares) == paid * supply + paid * shares) by (nonlinear_arith);
    assert(0 <= balance * shares && 0 <= paid * shares) by (nonlinear_arith)
        requires
            0 <= balance,
            0 <= paid,
            0 < shares,
    ;
    lemma_floor_at_most(total, supply + shares, paid);
}

/// Fewer units put in give no more out of the same division.
proof fn lemma_smaller_balance(balance: int, less: int, shares: int, supply: int)
    requires
        0 <= less <= balance,
        0 < shares,
        0 < supply,
    ensures
        0 <= less * shares <= balance * shares,
        (less * shares) / supply <= (balance * shares) / supply,
{
    assert(0 <= less * shares <= balance * shares) by (nonlinear_arith)
        requires
            0 <= less <= balance,
            0 < shares,
    ;
    vstd::arithmetic::div_mod::lemma_div_is_ordered(less * shares, balance * shares, supply);
}

/// A deposit followed at once by a withdrawal of the same shares, with the
/// pool's price unchanged, gives back no more than the deposit paid: not of
/// either idle balance, and not of liquidity. The vault is one that holds
/// nothing while it has no shares, and whose last reinvested increase is
/// part of its liquidity.
pub proof fn lemma_deposit_then_withdraw_never_gains(
    lp_amount: u64,
    max_amount_a: u64,
    max_amount_b: u64,
    min_amount_a: u64,
    min_amount_b: u64,
    supply: u64,
    liquidity: u128,
    last_liquidity_increase: u128,
    vault_amount_a: u64,
    vault_amount_b: u64,
)
    requires
        lp_amount > 0,
        last_liquidity_increase <= liquidity,
        supply == 0 ==> liquidity == 0 && vault_amount_a == 0 && vault_amount_b == 0,
        deposit_plan(
            lp_amount,
            max_amount_a,
            max_amount_b,
            supply,
            liquidity,
            vault_amount_a,
            vault_amount_b,
        ) is Ok,
        ({
            let paid = deposit_plan(
                lp_amount,
                max_amount_a,
                max_amount_b,
                supply,
                liquidity,
                vault_amount_a,
                vault_amount_b,
            )->Ok_0;
            &&& supply + lp_amount <= u64::MAX
            &&& vault_amount_a + paid.amount_a <= u64::MAX
            &&& vault_amount_b + paid.amount_b <= u64::MAX
            &&& liquidity + paid.increase.liquidity_amount <= u128::MAX
        }),
    ensures
        ({
            let paid = deposit_plan(
                lp_amount,
                max_amount_a,
                max_amount_b,
                supply,
                liquidity,
                vault_amount_a,
                vault_amount_b,
            )->Ok_0;
            let back = withdraw_plan(
                lp_amount,
                min_amount_a,
                min_amount_b,
                (supply + lp_amount) as u64,
                (liquidity + paid.increase.liquidity_amount) as u128,
                last_liquidity_increase,
                (vault_amount_a + paid.amount_a) as u64,
                (vault_amount_b + paid.amount_b) as u64,
            );
            &&& back is Ok
            &&& back->Ok_0.amount_a <= paid.amount_a
            &&& back->Ok_0.amount_b <= paid.amount_b
            &&& back->Ok_0.decrease.liquidity_amount <= paid.increase.liquidity_amount
        }),
{
    let paid = deposit_plan(
        lp_amount,
        max_amount_a,
        max_amount_b,
        supply,
        liquidity,
        vault_amount_a,
        vault_amount_b,
    )->Ok_0;
    let shares = lp_amount as int;
    let s = supply as int;
    let added = paid.increase.liquidity_amount as int;
    if supply > 0 {
        if vault_amount_a > 0 {
            lemma_ceil_reaches(vault_amount_a * lp_amount, s);
        }
        if vault_amount_b > 0 {
            lemma_ceil_reaches(vault_amount_b * lp_amount, s);
        }
        assert(0 <= liquidity * lp_amount) by (nonlinear_arith);
        lemma_ceil_reaches(liquidity * lp_amount, s);
    }
    assert(paid.amount_a * s >= vault_amount_a * shares) by {
        if supply == 0 || vault_amount_a == 0 {
            assert(paid.amount_a * s >= 0) by (nonlinear_arith)
                requires
                    paid.amount_a >= 0,
                    s >= 0,
            ;
            assert(vault_amount_a * shares == 0) by (nonlinear_arith)
                requires
                    vault_amount_a == 0,
            ;
        }
    }
    assert(paid.amount_b * s >= vault_amount_b * shares) by {
        if supply == 0 || vault_amount_b == 0 {
            assert(paid.amount_b * s >= 0) by (nonlinear_arith)
                requires
                    paid.amount_b >= 0,
                    s >= 0,
            ;
            assert(vault_amount_b * shares == 0) by (nonlinear_arith)
                requires
                    vault_amount_b == 0,
            ;
        }
    }
    assert(added * s >= liquidity * shares) by {
        if supply == 0 {
            assert(added * s == 0) by (nonlinear_arith)
                requires
                    s == 0,
            ;
            assert(liquidity * shares == 0) by (nonlinear_arith)
                requires
                    liquidity == 0,
            ;
        }
    }
    lemma_share_round_trip(vault_amount_a as int, shares, s, paid.amount_a as int);
    lemma_share_round_trip(vault_amount_b as int, shares, s, paid.amount_b as int);
    lemma_share_round_trip(liquidity as int, shares, s, added);
    lemma_smaller_balance(
        liquidity + added,
        liquidity + added - last_liquidity_increase,
        shares,
        s + shares,
    );
    lemma_floor_bounds((vault_amount_a + paid.amount_a) * shares, s + shares);
    lemma_floor_bounds((vault_amount_b + paid.amount_b) * shares, s + shares);
    lemma_floor_bounds((liquidity + added - last_liquidity_increase) * shares, s + shares);
}

/// A withdrawal of no more shares than there are never pays out more than
/// the vault holds: not of either idle balance, and not of the liquidity
/// that was in the position before the last reinvestment.
pub proof fn lemma_withdrawal_within_holdings(
    lp_amount: u64,
    min_amount_a: u64,
    min_amount_b: u64,
    supply: u64,
    liquidity: u128,
    last_liquidity_increase: u128,
    vault_amount_a: u64,
    vault_amount_b: u64,
)
    requires
        lp_amount <= supply,
        withdraw_plan(
            lp_amount,
            min_amount_a,
            min_amount_b,
            supply,
            liquidity,
            last_liquidity_increase,
            vault_amount_a,
            vault_amount_b,
        ) is Ok,
    ensures
        ({
            let plan = withdraw_plan(
                lp_amount,
                min_amount_a,
                min_amount_b,
                supply,
                liquidity,
                last_liquidity_increase,
                vault_amount_a,
                vault_amount_b,
            )->Ok_0;
            &&& plan.amount_a <= vault_amount_a
            &&& plan.amount_b <= vault_amount_b
            &&& plan.decrease.liquidity_amount <= liquidity - last_liquidity_increase
        }),
{
    let shares = lp_amount as int;
    let s = supply as int;
    lemma_part_of_whole(vault_amount_a as int, shares, s);
    lemma_part_of_whole(vault_amount_b as int, shares, s);
    lemma_part_of_whole(liquidity - last_liquidity_increase, shares, s);
}

/// No more shares than there are stand for no more than the whole.
proof fn lemma_part_of_whole(whole: int, shares: int, supply: int)
    requires
        0 <= whole,
        0 < shares <= supply,
    ensures
        (whole * shares) / supply <= whole,
{
    assert(0 <= whole * shares <= whole * supply) by (nonlinear_arith)
        requires
            0 <= whole,
            0 < shares <= supply,
    ;
    lemma_floor_at_most(whole * shares, supply, whole);
}

} // verus!
