use crate::error::ErrorCode;
use crate::math::division::{lemma_ceil_at_most, lemma_floor_bounds, lemma_quotients_ordered};
use crate::math::safe_arithmetics::{mul_div_u64, SafeArithmetics, SafeMulDiv};
use crate::state::{holds_key, Pubkey, VaultAccount};
use crate::FEE_SCALE;
use vstd::prelude::*;

verus! {

/// The record of a harvest of fees.
#[derive(Clone, Copy, Debug, PartialEq, Eq, Structural)]
pub struct CollectFeesEvent {
    pub vault_account: Pubkey,
    pub total_fees_token_a: u64,
    pub total_fees_token_b: u64,
    pub treasury_fee_token_a: u64,
    pub treasury_fee_token_b: u64,
}

/// The treasury's part of `delta` at the fee `fee`: `delta * fee /
/// FEE_SCALE`, rounded up.
pub open spec fn treasury_cut(delta: u64, fee: u64) -> int {
    (delta * fee + FEE_SCALE - 1) / (FEE_SCALE as int)
}

/// The treasury's part of `delta` and what is left of it.
pub open spec fn skim_outcome(delta: u64, fee: u64) -> Result<(u64, u64), ErrorCode> {
    if treasury_cut(delta, fee) > u64::MAX {
        Err(ErrorCode::MathOverflowConversion)
    } else if treasury_cut(delta, fee) > delta {
        Err(ErrorCode::MathOverflowSub)
    } else {
        Ok((treasury_cut(delta, fee) as u64, (delta - treasury_cut(delta, fee)) as u64))
    }
}

/// `mul_div_u64` with `FEE_SCALE` as the divisor is the treasury's part.
pub proof fn lemma_cut_is_mul_div(delta: u64, fee: u64)
    ensures
        0 <= treasury_cut(delta, fee),
        treasury_cut(delta, fee) <= u64::MAX ==> mul_div_u64(delta, fee, FEE_SCALE, true) == Ok::<
            u64,
            ErrorCode,
        >(treasury_cut(delta, fee) as u64),
        treasury_cut(delta, fee) > u64::MAX ==> mul_div_u64(delta, fee, FEE_SCALE, true) == Err::<
            u64,
            ErrorCode,
        >(ErrorCode::MathOverflowConversion),
{
    assert(0 <= delta * fee) by (nonlinear_arith);
    lemma_floor_bounds(delta * fee + FEE_SCALE - 1, FEE_SCALE as int);
}

/// Splits `delta` into the treasury's part, rounded up, and the rest.
pub fn skim(delta: u64, fee: u64) -> (r: Result<(u64, u64), ErrorCode>)
    ensures
        r == skim_outcome(delta, fee),
        fee <= FEE_SCALE ==> r is Ok,
{
    proof {
        lemma_cut_is_mul_div(delta, fee);
        lemma_cut_within_delta(delta, fee);
    }
    let cut = delta.safe_mul_div_round_up(fee, FEE_SCALE)?;
    let net = delta.safe_sub(cut)?;
    Ok((cut, net))
}

/// A fee of at most `FEE_SCALE` never takes more than there is.
pub proof fn lemma_cut_within_delta(delta: u64, fee: u64)
    ensures
        fee <= FEE_SCALE ==> treasury_cut(delta, fee) <= delta,
        fee == 0 ==> treasury_cut(delta, fee) == 0,
{
    if fee <= FEE_SCALE {
        assert(0 <= delta * fee <= delta * FEE_SCALE) by (nonlinear_arith)
            requires
                0 <= fee <= FEE_SCALE,
                0 <= delta,
        ;
        lemma_ceil_at_most(delta * fee, FEE_SCALE as int, delta as int);
    }
    if fee == 0 {
        assert(delta * fee == 0) by (nonlinear_arith)
            requires
                fee == 0,
        ;
    }
}

/// The treasury's part never shrinks when what was harvested grows.
pub proof fn lemma_cut_grows_with_delta(smaller: u64, larger: u64, fee: u64)
    requires
        smaller <= larger,
    ensures
        treasury_cut(smaller, fee) <= treasury_cut(larger, fee),
        skim_outcome(smaller, fee) is Ok && skim_outcome(larger, fee) is Ok ==> skim_outcome(
            smaller,
            fee,
        )->Ok_0.0 <= skim_outcome(larger, fee)->Ok_0.0,
{
    assert(0 <= smaller * fee <= larger * fee) by (nonlinear_arith)
        requires
            0 <= smaller <= larger,
            0 <= fee,
    ;
    lemma_quotients_ordered(smaller * fee, larger * fee, FEE_SCALE as int);
}

/// The treasury's part of one harvested amount. With no fee nothing is
/// taken. With a fee, a harvest of at most `FEE_SCALE` units is refused with
/// `shortfall`, unless the position is drained and this is its last harvest.
pub open spec fn harvest_cut(
    amount_increase: u64,
    fee: u64,
    has_zero_liquidity: bool,
    shortfall: ErrorCode,
) -> Result<u64, ErrorCode> {
    if fee == 0 {
        Ok(0u64)
    } else if !has_zero_liquidity && amount_increase <= FEE_SCALE {
        Err(shortfall)
    } else {
        mul_div_u64(amount_increase, fee, FEE_SCALE, true)
    }
}

/// Starts a harvest from `position`, which holds `position_liquidity`: the
/// position must be one of the vault's. The result says whether the pool is
/// first to bring the position's fees and rewards up to date, which it
/// refuses to do for a position without liquidity.
pub fn begin(vault: &VaultAccount, position: Pubkey, position_liquidity: u128) -> (r: Result<
    bool,
    ErrorCode,
>)
    ensures
        !holds_key(vault.positions@, position) ==> r == Err::<bool, ErrorCode>(
            ErrorCode::PositionNonExistence,
        ),
        holds_key(vault.positions@, position) ==> r == Ok::<bool, ErrorCode>(
            position_liquidity != 0,
        ),
{
    if !vault.position_address_exists(position) {
        return Err(ErrorCode::PositionNonExistence);
    }
    Ok(position_liquidity != 0)
}

/// What a harvest of fees in both tokens gives: the amounts by which the
/// two balances have grown, and the treasury's part of each.
pub open spec fn collect_fees_outcome(
    vault: VaultAccount,
    vault_account: Pubkey,
    position_liquidity: u128,
    amount_a_before: u64,
    amount_b_before: u64,
    amount_a_after: u64,
    amount_b_after: u64,
) -> Result<CollectFeesEvent, ErrorCode> {
    let drained = position_liquidity == 0;
    let increase_a = (amount_a_after - amount_a_before) as u64;
    let increase_b = (amount_b_after - amount_b_before) as u64;
    if amount_a_after < amount_a_before || amount_b_after < amount_b_before {
        Err(ErrorCode::MathOverflowSub)
    } else if vault.fee > 0 && !drained && (increase_a <= FEE_SCALE || increase_b <= FEE_SCALE) {
        Err(ErrorCode::NotEnoughFees)
    } else {
        match harvest_cut(increase_a, vault.fee, drained, ErrorCode::NotEnoughFees) {
            Err(e) => Err(e),
            Ok(fee_a) => match harvest_cut(
                increase_b,
                vault.fee,
                drained,
                ErrorCode::NotEnoughFees,
            ) {
                Err(e) => Err(e),
                Ok(fee_b) => if vault.earned_rewards_token_a + increase_a > u64::MAX
                    || vault.earned_rewards_token_b + increase_b > u64::MAX {
                    Err(ErrorCode::MathOverflowAdd)
                } else {
                    Ok(
                        CollectFeesEvent {
                            vault_account,
                            total_fees_token_a: increase_a,
                            total_fees_token_b: increase_b,
                            treasury_fee_token_a: fee_a,
                            treasury_fee_token_b: fee_b,
                        },
                    )
                },
            },
        }
    }
}

/// Accounts for a harvest of the fees of a position that holds
/// `position_liquidity`: the vault's two balances have gone from the amounts
/// `before` to the amounts `after`. The vault adds the growth to what it has
/// earned; the event says what is owed to the treasury. On an error the
/// vault is as before.
pub fn handler(
    vault: &mut VaultAccount,
    vault_account: Pubkey,
    position_liquidity: u128,
    amount_a_before: u64,
    amount_b_before: u64,
    amount_a_after: u64,
    amount_b_after: u64,
) -> (r: Result<CollectFeesEvent, ErrorCode>)
    ensures
        r == collect_fees_outcome(
            *old(vault),
            vault_account,
            position_liquidity,
            amount_a_before,
            amount_b_before,
            amount_a_after,
            amount_b_after,
        ),
        r is Err ==> *final(vault) == *old(vault),
        r is Ok ==> *final(vault) == (VaultAccount {
            earned_rewards_token_a: (old(vault).earned_rewards_token_a
                + r->Ok_0.total_fees_token_a) as u64,
            earned_rewards_token_b: (old(vault).earned_rewards_token_b
                + r->Ok_0.total_fees_token_b) as u64,
            ..*old(vault)
        }),
        old(vault).wf() ==> final(vault).wf(),
        r is Ok && old(vault).fee <= FEE_SCALE ==> r->Ok_0.treasury_fee_token_a
            <= r->Ok_0.total_fees_token_a && r->Ok_0.treasury_fee_token_b
            <= r->Ok_0.total_fees_token_b,
{
    let has_zero_liquidity = position_liquidity == 0;
    let amount_a_increase = amount_a_after.safe_sub(amount_a_before)?;
    let amount_b_increase = amount_b_after.safe_sub(amount_b_before)?;
    let mut treasury_fee_a: u64 = 0;
    let mut treasury_fee_b: u64 = 0;
    if vault.fee > 0 {
        // A harvest of a few units would lose most of itself to rounding;
        // the last harvest of a drained position is let through all the same.
        if !has_zero_liquidity {
            if !(amount_a_increase > FEE_SCALE) {
                return Err(ErrorCode::NotEnoughFees);
            }
            if !(amount_b_increase > FEE_SCALE) {
                return Err(ErrorCode::NotEnoughFees);
            }
        }
        treasury_fee_a = amount_a_increase.safe_mul_div_round_up(vault.fee, FEE_SCALE)?;
        treasury_fee_b = amount_b_increase.safe_mul_div_round_up(vault.fee, FEE_SCALE)?;
    }
    proof {
        lemma_cut_is_mul_div(amount_a_increase, vault.fee);
        lemma_cut_is_mul_div(amount_b_increase, vault.fee);
        lemma_cut_within_delta(amount_a_increase, vault.fee);
        lemma_cut_within_delta(amount_b_increase, vault.fee);
    }
    let earned_a = vault.earned_rewards_token_a.safe_add(amount_a_increase)?;
    let earned_b = vault.earned_rewards_token_b.safe_add(amount_b_increase)?;
    vault.earned_rewards_token_a = earned_a;
    vault.earned_rewards_token_b = earned_b;
    Ok(
        CollectFeesEvent {
            vault_account,
            total_fees_token_a: amount_a_increase,
            total_fees_token_b: amount_b_increase,
            treasury_fee_token_a: treasury_fee_a,
            treasury_fee_token_b: treasury_fee_b,
        },
    )
}

} // verus!
