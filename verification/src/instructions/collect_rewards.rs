use crate::error::ErrorCode;
use crate::instructions::collect_fees::{
    harvest_cut,
    lemma_cut_is_mul_div,
    lemma_cut_within_delta,
};
use crate::math::safe_arithmetics::{SafeArithmetics, SafeMulDiv};
use crate::state::{Pubkey, VaultAccount};
use crate::FEE_SCALE;
use vstd::prelude::*;

verus! {

/// The record of a harvest of rewards.
#[derive(Clone, Copy, Debug, PartialEq, Eq, Structural)]
pub struct CollectRewardsEvent {
    pub vault_account: Pubkey,
    pub total_rewards: u64,
    pub treasury_fee: u64,
}

/// What a harvest of one reward token gives: the amount by which the
/// balance has grown, and the treasury's part of it.
pub open spec fn collect_rewards_outcome(
    fee: u64,
    vault_account: Pubkey,
    position_liquidity: u128,
    amount_before: u64,
    amount_after: u64,
) -> Result<CollectRewardsEvent, ErrorCode> {
    if amount_after < amount_before {
        Err(ErrorCode::MathOverflowSub)
    } else {
        match harvest_cut(
            (amount_after - amount_before) as u64,
            fee,
            position_liquidity == 0,
            ErrorCode::NotEnoughRewards,
        ) {
            Err(e) => Err(e),
            Ok(treasury_fee) => Ok(
                CollectRewardsEvent {
                    vault_account,
                    total_rewards: (amount_after - amount_before) as u64,
                    treasury_fee,
                },
            ),
        }
    }
}

/// Accounts for a harvest of one reward token of a position that holds
/// `position_liquidity`: the vault's balance of it has gone from
/// `amount_before` to `amount_after`. The event says what is owed to the
/// treasury.
pub fn handler(
    vault: &VaultAccount,
    vault_account: Pubkey,
    position_liquidity: u128,
    amount_before: u64,
    amount_after: u64,
) -> (r: Result<CollectRewardsEvent, ErrorCode>)
    ensures
        r == collect_rewards_outcome(
            vault.fee,
            vault_account,
            position_liquidity,
            amount_before,
            amount_after,
        ),
        r is Ok && vault.fee <= FEE_SCALE ==> r->Ok_0.treasury_fee <= r->Ok_0.total_rewards,
{
    let has_zero_liquidity = position_liquidity == 0;
    let amount_increase = amount_after.safe_sub(amount_before)?;
    let mut treasury_fee: u64 = 0;
    if vault.fee > 0 {
        if !has_zero_liquidity {
            if !(amount_increase > FEE_SCALE) {
                return Err(ErrorCode::NotEnoughRewards);
            }
        }
        treasury_fee = amount_increase.safe_mul_div_round_up(vault.fee, FEE_SCALE)?;
    }
    proof {
        lemma_cut_is_mul_div(amount_increase, vault.fee);
        lemma_cut_within_delta(amount_increase, vault.fee);
    }
    Ok(CollectRewardsEvent { vault_account, total_rewards: amount_increase, treasury_fee })
}

} // verus!
