use crate::error::ErrorCode;
use crate::state::{Bumps, Pubkey, VaultAccount, VaultAccountParams};
use crate::{FEE_SCALE, VAULT_VERSION};
use vstd::prelude::*;

verus! {

/// Whether a vault may be made for a pool: the two input mints must be the
/// pool's two mints, in order, and the fee at most `FEE_SCALE`.
pub open spec fn initialize_check(
    input_token_a_mint: Pubkey,
    input_token_b_mint: Pubkey,
    pool_token_mint_a: Pubkey,
    pool_token_mint_b: Pubkey,
    fee: u64,
) -> Result<(), ErrorCode> {
    if input_token_a_mint != pool_token_mint_a {
        Err(ErrorCode::InvalidInputMint)
    } else if input_token_b_mint != pool_token_mint_b {
        Err(ErrorCode::InvalidInputMint)
    } else if fee > FEE_SCALE {
        Err(ErrorCode::InvalidFee)
    } else {
        Ok(())
    }
}

/// Makes the vault number `id` of the pool `whirlpool_id`, whose two mints
/// are `pool_token_mint_a` and `pool_token_mint_b`.
pub fn handler(
    id: u8,
    bumps: Bumps,
    whirlpool_id: Pubkey,
    input_token_a_mint: Pubkey,
    input_token_b_mint: Pubkey,
    pool_token_mint_a: Pubkey,
    pool_token_mint_b: Pubkey,
    fee: u64,
    min_slots_for_reinvest: u64,
) -> (r: Result<VaultAccount, ErrorCode>)
    ensures
        match r {
            Err(e) => initialize_check(
                input_token_a_mint,
                input_token_b_mint,
                pool_token_mint_a,
                pool_token_mint_b,
                fee,
            ) == Err::<(), ErrorCode>(e),
            Ok(vault) => {
                &&& initialize_check(
                    input_token_a_mint,
                    input_token_b_mint,
                    pool_token_mint_a,
                    pool_token_mint_b,
                    fee,
                ) is Ok
                &&& vault.wf()
                &&& vault.version == VAULT_VERSION
                &&& vault.id == id
                &&& vault.bumps == bumps
                &&& vault.whirlpool_id == whirlpool_id
                &&& vault.input_token_a_mint_pubkey == input_token_a_mint
                &&& vault.input_token_b_mint_pubkey == input_token_b_mint
                &&& vault.fee == fee
                &&& vault.min_slots_for_reinvest == min_slots_for_reinvest
                &&& !vault.is_paused
                &&& vault.last_liquidity_increase == 0
                &&& vault.last_reinvestment_slot == 0
                &&& vault.earned_rewards_token_a == 0
                &&& vault.earned_rewards_token_b == 0
                &&& vault.positions@.len() == 0
            },
        },
{
    if !(input_token_a_mint == pool_token_mint_a) {
        return Err(ErrorCode::InvalidInputMint);
    }
    if !(input_token_b_mint == pool_token_mint_b) {
        return Err(ErrorCode::InvalidInputMint);
    }
    // Fee can't be more than 100%
    if !(fee <= FEE_SCALE) {
        return Err(ErrorCode::InvalidFee);
    }
    Ok(
        VaultAccount::new(
            VaultAccountParams {
                id,
                bumps,
                whirlpool_id,
                input_token_a_mint_pubkey: input_token_a_mint,
                input_token_b_mint_pubkey: input_token_b_mint,
                fee,
                min_slots_for_reinvest,
            },
        ),
    )
}

} // verus!
