use crate::error::ErrorCode;
use crate::state::{MarketRewards, MarketRewardsInfo, Pubkey, VaultAccount};
use vstd::prelude::*;

verus! {

/// What an administrator says of a market entry.
#[derive(Clone, Copy, Debug, PartialEq, Eq, Structural)]
pub struct MarketRewardsInfoInput {
    /// Id of market associated
    pub id: MarketRewards,
    /// Minimum number of lamports to receive during swap
    pub min_amount_out: u64,
}

/// `i` is the first of the pool's reward tokens with the mint `mint`.
pub open spec fn first_reward_with_mint(reward_mints: Seq<Pubkey>, mint: Pubkey, i: int) -> bool {
    &&& 0 <= i < reward_mints.len()
    &&& reward_mints[i] == mint
    &&& forall|j: int| 0 <= j < i ==> reward_mints[j] != mint
}

/// No reward token of the pool has the mint `mint`.
pub open spec fn no_reward_with_mint(reward_mints: Seq<Pubkey>, mint: Pubkey) -> bool {
    forall|j: int| 0 <= j < reward_mints.len() ==> reward_mints[j] != mint
}

/// The place of `mint` among the pool's reward tokens.
pub fn reward_index(reward_mints: &[Pubkey; 3], mint: Pubkey) -> (r: Option<usize>)
    ensures
        match r {
            Some(i) => first_reward_with_mint(reward_mints@, mint, i as int),
            None => no_reward_with_mint(reward_mints@, mint),
        },
{
    let mut i: usize = 0;
    while i < 3
        invariant
            i <= 3,
            forall|j: int| 0 <= j < i ==> reward_mints@[j] != mint,
        decreases 3 - i,
    {
        if reward_mints[i] == mint {
            return Some(i);
        }
        i = i + 1;
    }
    None
}

/// Sets what is done with the rewards in the token `rewards_mint`, which
/// must be one of the pool's reward tokens, whose mints are `reward_mints`.
/// The entry is validated against the mint of the destination account and
/// the vault's two input mints. On an error the vault is as before.
pub fn handler(
    vault: &mut VaultAccount,
    market_rewards: MarketRewardsInfoInput,
    reward_mints: &[Pubkey; 3],
    rewards_mint: Pubkey,
    destination_token_account: Pubkey,
    destination_mint: Pubkey,
) -> (r: Result<(), ErrorCode>)
    ensures
        ({
            let market = MarketRewardsInfo {
                id: market_rewards.id,
                rewards_mint,
                destination_token_account,
                min_amount_out: market_rewards.min_amount_out,
            };
            let valid = market.validate_spec(
                destination_mint,
                old(vault).input_token_a_mint_pubkey,
                old(vault).input_token_b_mint_pubkey,
            );
            match r {
                Ok(()) => {
                    &&& valid is Ok
                    &&& exists|i: int|
                        first_reward_with_mint(reward_mints@, rewards_mint, i) && final(vault).market_rewards@ == old(vault).market_rewards@.update(i, market)
                    &&& *final(vault) == (VaultAccount {
                        market_rewards: final(vault).market_rewards,
                        ..*old(vault)
                    })
                },
                Err(e) => {
                    &&& *final(vault) == *old(vault)
                    &&& if no_reward_with_mint(reward_mints@, rewards_mint) {
                        e == ErrorCode::InvalidRewardMint
                    } else {
                        valid == Err::<(), ErrorCode>(e)
                    }
                },
            }
        }),
        old(vault).wf() ==> final(vault).wf(),
{
    let index: usize = match reward_index(reward_mints, rewards_mint) {
        Some(index) => index,
        None => {
            return Err(ErrorCode::InvalidRewardMint);
        },
    };
    let market = MarketRewardsInfo {
        id: market_rewards.id,
        rewards_mint,
        destination_token_account,
        min_amount_out: market_rewards.min_amount_out,
    };
    market.validate(
        destination_mint,
        vault.input_token_a_mint_pubkey,
        vault.input_token_b_mint_pubkey,
    )?;
    let current = vault.market_rewards;
    let first = if index == 0 {
        market
    } else {
        current[0]
    };
    let second = if index == 1 {
        market
    } else {
        current[1]
    };
    let third = if index == 2 {
        market
    } else {
        current[2]
    };
    vault.market_rewards = [first, second, third];
    proof {
        assert(vault.market_rewards@ =~= old(vault).market_rewards@.update(index as int, market));
        assert(first_reward_with_mint(reward_mints@, rewards_mint, index as int));
    }
    Ok(())
}

} // verus!
