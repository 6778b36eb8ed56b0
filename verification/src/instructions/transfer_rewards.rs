use crate::error::ErrorCode;
use crate::state::{MarketRewards, Pubkey, VaultAccount};
use vstd::prelude::*;

verus! {

/// Whether the rewards in the token `rewards_mint` may be sent to
/// `destination_token_account`: the vault must have a market entry for the
/// token, the entry must say to transfer, and to that account.
pub open spec fn transfer_check(
    vault: VaultAccount,
    rewards_mint: Pubkey,
    destination_token_account: Pubkey,
) -> Result<(), ErrorCode> {
    match vault.market_of(rewards_mint) {
        None => Err(ErrorCode::TransferNotSet),
        Some(market) => if market.id != MarketRewards::Transfer {
            Err(ErrorCode::InvalidDestinationAccount)
        } else if destination_token_account != market.destination_token_account {
            Err(ErrorCode::InvalidDestinationAccount)
        } else {
            Ok(())
        },
    }
}

/// Sends all `amount` of the vault's rewards in the token `rewards_mint`
/// to `destination_token_account`, if the vault's market entry says so. The
/// result is the amount to transfer.
pub fn handler(
    vault: &VaultAccount,
    rewards_mint: Pubkey,
    destination_token_account: Pubkey,
    amount: u64,
) -> (r: Result<u64, ErrorCode>)
    ensures
        match r {
            Ok(sent) => sent == amount && transfer_check(
                *vault,
                rewards_mint,
                destination_token_account,
            ) is Ok,
            Err(e) => transfer_check(*vault, rewards_mint, destination_token_account) == Err::<
                (),
                ErrorCode,
            >(e),
        },
{
    let market_rewards = match vault.market_for(rewards_mint) {
        Some(market) => market,
        None => {
            return Err(ErrorCode::TransferNotSet);
        },
    };
    if !(market_rewards.id == MarketRewards::Transfer) {
        return Err(ErrorCode::InvalidDestinationAccount);
    }
    if !(destination_token_account == market_rewards.destination_token_account) {
        return Err(ErrorCode::InvalidDestinationAccount);
    }
    Ok(amount)
}

} // verus!
