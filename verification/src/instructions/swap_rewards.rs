use crate::error::ErrorCode;
use crate::instructions::reinvest::{SwapParams, MAX_SQRT_PRICE_X64, MIN_SQRT_PRICE_X64};
use crate::math::safe_arithmetics::SafeArithmetics;
use crate::state::{MarketRewards, Pubkey, VaultAccount};
use vstd::prelude::*;

verus! {

/// The record of a swap.
#[derive(Clone, Copy, Debug, PartialEq, Eq, Structural)]
pub struct SwapEvent {
    pub vault_account: Pubkey,
    pub mint_in: Pubkey,
    pub amount_in: u64,
    pub mint_out: Pubkey,
    pub amount_out: u64,
}

/// The address of the program behind the `OrcaV2` market.
pub open spec fn orca_swap_v2_key() -> Pubkey {
    Pubkey {
        hi: 0x7e54_771a_57a6_f14c_a9e4_02d5_4aee_45f7,
        lo: 0x378a_ca36_5c7b_169a_7ec8_3f51_82b2_98f0,
    }
}

/// The address of the program behind the `OrcaV2` market.
pub fn orca_swap_program_v2_id() -> (r: Pubkey)
    ensures
        r == orca_swap_v2_key(),
{
    Pubkey {
        hi: 0x7e54_771a_57a6_f14c_a9e4_02d5_4aee_45f7,
        lo: 0x378a_ca36_5c7b_169a_7ec8_3f51_82b2_98f0,
    }
}

/// The accounts of its pool that a swap on the `OrcaV2` market is handed.
pub const ORCA_SWAP_ACCOUNTS: usize = 6;

/// The accounts of its pool that a swap on the `Whirlpool` market is handed.
pub const WHIRLPOOL_SWAP_ACCOUNTS: usize = 7;

/// A sale of rewards on one of the two markets.
#[derive(Clone, Copy, Debug, PartialEq, Eq, Structural)]
pub enum RewardsSwap {
    /// On a constant-product pool: all of `amount_in`, for no less than
    /// `minimum_amount_out`
    OrcaV2 { amount_in: u64, minimum_amount_out: u64 },
    /// On a concentrated-liquidity pool
    Whirlpool { params: SwapParams },
}

/// What the sale of rewards needs to know.
#[derive(Clone, Copy, Debug, PartialEq, Eq, Structural)]
pub struct SwapRewardsInput {
    /// The mint of the rewards to sell
    pub rewards_mint: Pubkey,
    /// The account that the proceeds go to
    pub destination_token_account: Pubkey,
    /// The program that was handed in to swap on
    pub swap_program: Pubkey,
    /// The address of the concentrated-liquidity pools' program
    pub whirlpool_program: Pubkey,
    /// The number of the market pool's accounts that were handed in
    pub remaining_accounts: usize,
    /// The first mint of the market pool, where it is a concentrated-liquidity pool
    pub market_token_mint_a: Pubkey,
    /// The rewards to sell: all of the vault's balance
    pub amount_to_swap: u64,
}

/// The sale of the rewards, as the vault's market entry for their token
/// directs it. There must be an entry, and it must name a market; the
/// proceeds must go to the entry's account; the program and the number of
/// accounts must be the market's. All the rewards are sold for no less than
/// the entry's minimum, on a concentrated-liquidity pool at whatever price.
pub open spec fn rewards_swap(vault: VaultAccount, input: SwapRewardsInput) -> Result<
    RewardsSwap,
    ErrorCode,
> {
    match vault.market_of(input.rewards_mint) {
        None => Err(ErrorCode::SwapNotSet),
        Some(market) => if market.id != MarketRewards::OrcaV2 && market.id
            != MarketRewards::Whirlpool {
            Err(ErrorCode::SwapNotSet)
        } else if input.destination_token_account != market.destination_token_account {
            Err(ErrorCode::InvalidDestinationAccount)
        } else if market.id == MarketRewards::OrcaV2 {
            if input.swap_program != orca_swap_v2_key() {
                Err(ErrorCode::SwapInvalidProgramId)
            } else if input.remaining_accounts != ORCA_SWAP_ACCOUNTS {
                Err(ErrorCode::InvalidNumberOfAccounts)
            } else {
                Ok(
                    RewardsSwap::OrcaV2 {
                        amount_in: input.amount_to_swap,
                        minimum_amount_out: market.min_amount_out,
                    },
                )
            }
        } else {
            if input.swap_program != input.whirlpool_program {
                Err(ErrorCode::SwapInvalidProgramId)
            } else if input.remaining_accounts != WHIRLPOOL_SWAP_ACCOUNTS {
                Err(ErrorCode::InvalidNumberOfAccounts)
            } else {
                Ok(
                    RewardsSwap::Whirlpool {
                        params: SwapParams {
                            amount: input.amount_to_swap,
                            other_amount_threshold: market.min_amount_out,
                            sqrt_price_limit: if input.rewards_mint == input.market_token_mint_a {
                                MIN_SQRT_PRICE_X64
                            } else {
                                MAX_SQRT_PRICE_X64
                            },
                            amount_specified_is_input: true,
                            a_to_b: input.rewards_mint == input.market_token_mint_a,
                        },
                    },
                )
            }
        },
    }
}

/// Plans the sale of the vault's rewards in one token.
pub fn handler(vault: &VaultAccount, input: &SwapRewardsInput) -> (r: Result<
    RewardsSwap,
    ErrorCode,
>)
    ensures
        r == rewards_swap(*vault, *input),
{
    let market_rewards = match vault.market_for(input.rewards_mint) {
        Some(market) => market,
        None => {
            return Err(ErrorCode::SwapNotSet);
        },
    };
    match market_rewards.id {
        MarketRewards::OrcaV2 => {},
        MarketRewards::Whirlpool => {},
        _ => {
            return Err(ErrorCode::SwapNotSet);
        },
    }
    if !(input.destination_token_account == market_rewards.destination_token_account) {
        return Err(ErrorCode::InvalidDestinationAccount);
    }
    match market_rewards.id {
        MarketRewards::OrcaV2 => swap_orca(input, market_rewards.min_amount_out),
        _ => swap_whirlpool(input, market_rewards.min_amount_out),
    }
}

fn swap_orca(input: &SwapRewardsInput, min_amount_out: u64) -> (r: Result<RewardsSwap, ErrorCode>)
    ensures
        input.swap_program != orca_swap_v2_key() ==> r == Err::<RewardsSwap, ErrorCode>(
            ErrorCode::SwapInvalidProgramId,
        ),
        input.swap_program == orca_swap_v2_key() && input.remaining_accounts
            != ORCA_SWAP_ACCOUNTS ==> r == Err::<RewardsSwap, ErrorCode>(
            ErrorCode::InvalidNumberOfAccounts,
        ),
        input.swap_program == orca_swap_v2_key() && input.remaining_accounts
            == ORCA_SWAP_ACCOUNTS ==> r == Ok::<RewardsSwap, ErrorCode>(
            RewardsSwap::OrcaV2 {
                amount_in: input.amount_to_swap,
                minimum_amount_out: min_amount_out,
            },
        ),
{
    if !(input.swap_program == orca_swap_program_v2_id()) {
        return Err(ErrorCode::SwapInvalidProgramId);
    }
    if !(input.remaining_accounts == ORCA_SWAP_ACCOUNTS) {
        return Err(ErrorCode::InvalidNumberOfAccounts);
    }
    Ok(RewardsSwap::OrcaV2 { amount_in: input.amount_to_swap, minimum_amount_out: min_amount_out })
}

fn swap_whirlpool(input: &SwapRewardsInput, min_amount_out: u64) -> (r: Result<
    RewardsSwap,
    ErrorCode,
>)
    ensures
        input.swap_program != input.whirlpool_program ==> r == Err::<RewardsSwap, ErrorCode>(
            ErrorCode::SwapInvalidProgramId,
        ),
        input.swap_program == input.whirlpool_program && input.remaining_accounts
            != WHIRLPOOL_SWAP_ACCOUNTS ==> r == Err::<RewardsSwap, ErrorCode>(
            ErrorCode::InvalidNumberOfAccounts,
        ),
        input.swap_program == input.whirlpool_program && input.remaining_accounts
            == WHIRLPOOL_SWAP_ACCOUNTS ==> r == Ok::<RewardsSwap, ErrorCode>(
            RewardsSwap::Whirlpool {
                params: SwapParams {
                    amount: input.amount_to_swap,
                    other_amount_threshold: min_amount_out,
                    sqrt_price_limit: if input.rewards_mint == input.market_token_mint_a {
                        MIN_SQRT_PRICE_X64
                    } else {
                        MAX_SQRT_PRICE_X64
                    },
                    amount_specified_is_input: true,
                    a_to_b: input.rewards_mint == input.market_token_mint_a,
                },
            },
        ),
{
    if !(input.swap_program == input.whirlpool_program) {
        return Err(ErrorCode::SwapInvalidProgramId);
    }
    if !(input.remaining_accounts == WHIRLPOOL_SWAP_ACCOUNTS) {
        return Err(ErrorCode::InvalidNumberOfAccounts);
    }
    let rewards_acc_is_token_a = input.rewards_mint == input.market_token_mint_a;
    let is_swap_from_a_to_b = rewards_acc_is_token_a;
    let sqrt_price_limit = if is_swap_from_a_to_b {
        MIN_SQRT_PRICE_X64
    } else {
        MAX_SQRT_PRICE_X64
    };
    Ok(
        RewardsSwap::Whirlpool {
            params: SwapParams {
                amount: input.amount_to_swap,
                other_amount_threshold: min_amount_out,
                sqrt_price_limit,
                amount_specified_is_input: true,
                a_to_b: is_swap_from_a_to_b,
            },
        },
    )
}

/// What the sale of rewards has brought: the vault adds the growth of the
/// destination's balance to what it has earned in that token, which is
/// token A where `destination_mint` is the first input mint and token B
/// else. On an error the vault is as before.
pub fn account_for_swap(
    vault: &mut VaultAccount,
    vault_account: Pubkey,
    rewards_mint: Pubkey,
    destination_mint: Pubkey,
    amount_to_swap: u64,
    amount_out_before: u64,
    amount_out_after: u64,
) -> (r: Result<SwapEvent, ErrorCode>)
    ensures
        ({
            let to_token_a = destination_mint == old(vault).input_token_a_mint_pubkey;
            let earned = if to_token_a {
                old(vault).earned_rewards_token_a
            } else {
                old(vault).earned_rewards_token_b
            };
            if amount_out_after < amount_out_before {
                r == Err::<SwapEvent, ErrorCode>(ErrorCode::MathOverflowSub) && *final(vault)
                    == *old(vault)
            } else if earned + (amount_out_after - amount_out_before) > u64::MAX {
                r == Err::<SwapEvent, ErrorCode>(ErrorCode::MathOverflowAdd) && *final(vault)
                    == *old(vault)
            } else {
                &&& r == Ok::<SwapEvent, ErrorCode>(
                    SwapEvent {
                        vault_account,
                        mint_in: rewards_mint,
                        amount_in: amount_to_swap,
                        mint_out: destination_mint,
                        amount_out: (amount_out_after - amount_out_before) as u64,
                    },
                )
                &&& to_token_a ==> *final(vault) == (VaultAccount {
                    earned_rewards_token_a: (earned + (amount_out_after
                        - amount_out_before)) as u64,
                    ..*old(vault)
                })
                &&& !to_token_a ==> *final(vault) == (VaultAccount {
                    earned_rewards_token_b: (earned + (amount_out_after
                        - amount_out_before)) as u64,
                    ..*old(vault)
                })
            }
        }),
        old(vault).wf() ==> final(vault).wf(),
{
    let amount_out_increase = amount_out_after.safe_sub(amount_out_before)?;
    if destination_mint == vault.input_token_a_mint_pubkey {
        let earned = vault.earned_rewards_token_a.safe_add(amount_out_increase)?;
        vault.earned_rewards_token_a = earned;
    } else {
        let earned = vault.earned_rewards_token_b.safe_add(amount_out_increase)?;
        vault.earned_rewards_token_b = earned;
    }
    Ok(
        SwapEvent {
            vault_account,
            mint_in: rewards_mint,
            amount_in: amount_to_swap,
            mint_out: destination_mint,
            amount_out: amount_out_increase,
        },
    )
}

} // verus!
