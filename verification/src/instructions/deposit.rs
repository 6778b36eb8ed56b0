use crate::error::ErrorCode;
use crate::interfaces::whirlpool_position::ModifyLiquidity;
use crate::math::division::lemma_ceil_reaches;
use crate::math::safe_arithmetics::{mul_div_u128, mul_div_u64, SafeArithmetics, SafeMulDiv};
use crate::state::Pubkey;
use vstd::prelude::*;

verus! {

/// The record of a deposit or of a withdrawal.
#[derive(Clone, Copy, Debug, PartialEq, Eq, Structural)]
pub struct DepositWithdrawEvent {
    pub vault_account: Pubkey,
    pub amount_a: u64,
    pub amount_b: u64,
    pub liquidity: u128,
}

/// What a deposit of `lp_amount` shares consists of.
#[derive(Clone, Copy, Debug, PartialEq, Eq, Structural)]
pub struct DepositPlan {
    /// Token A that the depositor pays into the vault's idle balance
    pub amount_a: u64,
    /// Token B that the depositor pays into the vault's idle balance
    pub amount_b: u64,
    /// The liquidity that the depositor adds to the active position, and
    /// the most of each token that may still be spent on it
    pub increase: ModifyLiquidity,
    /// The shares to mint to the depositor
    pub lp_amount: u64,
}

/// The depositor's part of an idle balance: `vault_amount * lp_amount /
/// supply`, rounded up, and at most `max_amount`. Nothing is owed of an
/// empty balance.
pub open spec fn deposit_share(vault_amount: u64, lp_amount: u64, supply: u64, max_amount: u64)
    -> Result<u64, ErrorCode> {
    if vault_amount == 0 {
        Ok(0u64)
    } else {
        match mul_div_u64(vault_amount, lp_amount, supply, true) {
            Err(e) => Err(e),
            Ok(amount) => if amount > max_amount {
                Err(ErrorCode::ExceededTokenMax)
            } else {
                Ok(amount)
            },
        }
    }
}

/// What a deposit of `lp_amount` shares consists of. The first shares of a
/// vault stand for as many units of liquidity, and nothing else. Later shares
/// pay the same part of the position's liquidity and of both idle balances
/// as they are of the supply, each rounded up.
pub open spec fn deposit_plan(
    lp_amount: u64,
    max_amount_a: u64,
    max_amount_b: u64,
    supply: u64,
    liquidity: u128,
    vault_amount_a: u64,
    vault_amount_b: u64,
) -> Result<DepositPlan, ErrorCode> {
    if supply == 0 {
        Ok(
            DepositPlan {
                amount_a: 0,
                amount_b: 0,
                increase: ModifyLiquidity {
                    liquidity_amount: lp_amount as u128,
                    token_limit_a: max_amount_a,
                    token_limit_b: max_amount_b,
                },
                lp_amount,
            },
        )
    } else {
        match mul_div_u128(liquidity, lp_amount as u128, supply as u128, true) {
            Err(e) => Err(e),
            Ok(user_liquidity) => match deposit_share(
                vault_amount_a,
                lp_amount,
                supply,
                max_amount_a,
            ) {
                Err(e) => Err(e),
                Ok(amount_a) => match deposit_share(
                    vault_amount_b,
                    lp_amount,
                    supply,
                    max_amount_b,
                ) {
                    Err(e) => Err(e),
                    Ok(amount_b) => Ok(
                        DepositPlan {
                            amount_a,
                            amount_b,
                            increase: ModifyLiquidity {
                                liquidity_amount: user_liquidity,
                                token_limit_a: (max_amount_a - amount_a) as u64,
                                token_limit_b: (max_amount_b - amount_b) as u64,
                            },
                            lp_amount,
                        },
                    ),
                },
            },
        }
    }
}

fn share_of_balance(vault_amount: u64, lp_amount: u64, supply: u64, max_amount: u64) -> (r: Result<
    u64,
    ErrorCode,
>)
    ensures
        r == deposit_share(vault_amount, lp_amount, supply, max_amount),
{
    if vault_amount > 0 {
        let amount = vault_amount.safe_mul_div_round_up(lp_amount, supply)?;
        if !(amount <= max_amount) {
            return Err(ErrorCode::ExceededTokenMax);
        }
        Ok(amount)
    } else {
        Ok(0)
    }
}

/// Plans a deposit of `lp_amount` shares into a vault with `supply` shares,
/// `liquidity` in its active position and the idle balances `vault_amount_a`
/// and `vault_amount_b`, for a depositor who pays at most `max_amount_a` and
/// `max_amount_b`.
pub fn handler(
    lp_amount: u64,
    max_amount_a: u64,
    max_amount_b: u64,
    supply: u64,
    liquidity: u128,
    vault_amount_a: u64,
    vault_amount_b: u64,
) -> (r: Result<DepositPlan, ErrorCode>)
    ensures
        r == deposit_plan(
            lp_amount,
            max_amount_a,
            max_amount_b,
            supply,
            liquidity,
            vault_amount_a,
            vault_amount_b,
        ),
{
    let user_liquidity: u128 = if supply > 0 {
        liquidity.safe_mul_div_round_up(lp_amount as u128, supply as u128)?
    } else {
        lp_amount as u128
    };
    let mut max_amount_a = max_amount_a;
    let mut max_amount_b = max_amount_b;
    let mut amount_a: u64 = 0;
    let mut amount_b: u64 = 0;
    if supply > 0 {
        amount_a = share_of_balance(vault_amount_a, lp_amount, supply, max_amount_a)?;
        max_amount_a = max_amount_a.safe_sub(amount_a)?;
        amount_b = share_of_balance(vault_amount_b, lp_amount, supply, max_amount_b)?;
        max_amount_b = max_amount_b.safe_sub(amount_b)?;
    }
    Ok(
        DepositPlan {
            amount_a,
            amount_b,
            increase: ModifyLiquidity {
                liquidity_amount: user_liquidity,
                token_limit_a: max_amount_a,
                token_limit_b: max_amount_b,
            },
            lp_amount,
        },
    )
}

/// The record of a deposit: what has left the depositor's two accounts.
pub fn deposit_event(
    vault_account: Pubkey,
    amount_user_a_before: u64,
    amount_user_b_before: u64,
    amount_user_a_after: u64,
    amount_user_b_after: u64,
    liquidity: u128,
) -> (r: Result<DepositWithdrawEvent, ErrorCode>)
    ensures
        amount_user_a_before >= amount_user_a_after && amount_user_b_before
            >= amount_user_b_after ==> r == Ok::<DepositWithdrawEvent, ErrorCode>(
            DepositWithdrawEvent {
                vault_account,
                amount_a: (amount_user_a_before - amount_user_a_after) as u64,
                amount_b: (amount_user_b_before - amount_user_b_after) as u64,
                liquidity,
            },
        ),
        amount_user_a_before < amount_user_a_after || amount_user_b_before
            < amount_user_b_after ==> r == Err::<DepositWithdrawEvent, ErrorCode>(
            ErrorCode::MathOverflowSub,
        ),
{
    let amount_user_a_diff = amount_user_a_before.safe_sub(amount_user_a_after)?;
    let amount_user_b_diff = amount_user_b_before.safe_sub(amount_user_b_after)?;
    Ok(
        DepositWithdrawEvent {
            vault_account,
            amount_a: amount_user_a_diff,
            amount_b: amount_user_b_diff,
            liquidity,
        },
    )
}

/// A deposit into a vault that has shares pays at least its part: of
/// either idle balance and of the position's liquidity, the depositor adds
/// no smaller a fraction than the new shares are of the supply. So a deposit
/// never lessens what one of the shares there were stands for.
pub proof fn lemma_deposit_pays_its_part(
    lp_amount: u64,
    max_amount_a: u64,
    max_amount_b: u64,
    supply: u64,
    liquidity: u128,
    vault_amount_a: u64,
    vault_amount_b: u64,
)
    requires
        supply > 0,
        deposit_plan(
            lp_amount,
            max_amount_a,
            max_amount_b,
            supply,
            liquidity,
            vault_amount_a,
            vault_amount_b,
        ) is Ok,
    ensures
        ({
            let plan = deposit_plan(
                lp_amount,
                max_amount_a,
                max_amount_b,
                supply,
                liquidity,
                vault_amount_a,
                vault_amount_b,
            )->Ok_0;
            &&& plan.amount_a * supply >= vault_amount_a * lp_amount
            &&& plan.amount_b * supply >= vault_amount_b * lp_amount
            &&& plan.increase.liquidity_amount * supply >= liquidity * lp_amount
            &&& plan.amount_a <= max_amount_a
            &&& plan.amount_b <= max_amount_b
            &&& plan.amount_a + plan.increase.token_limit_a == max_amount_a
            &&& plan.amount_b + plan.increase.token_limit_b == max_amount_b
        }),
{
    let s = supply as int;
    assert(0 <= vault_amount_a * lp_amount) by (nonlinear_arith);
    assert(0 <= vault_amount_b * lp_amount) by (nonlinear_arith);
    assert(0 <= liquidity * lp_amount) by (nonlinear_arith);
    lemma_ceil_reaches(vault_amount_a * lp_amount, s);
    lemma_ceil_reaches(vault_amount_b * lp_amount, s);
    lemma_ceil_reaches(liquidity * lp_amount, s);
    let plan = deposit_plan(
        lp_amount,
        max_amount_a,
        max_amount_b,
        supply,
        liquidity,
        vault_amount_a,
        vault_amount_b,
    )->Ok_0;
    if vault_amount_a == 0 {
        assert(plan.amount_a * supply >= 0) by (nonlinear_arith)
            requires
                plan.amount_a >= 0,
                supply >= 0,
        ;
    }
    if vault_amount_b == 0 {
        assert(plan.amount_b * supply >= 0) by (nonlinear_arith)
            requires
                plan.amount_b >= 0,
                supply >= 0,
        ;
    }
}

} // verus!
