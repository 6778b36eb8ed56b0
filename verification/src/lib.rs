//! Liquidity accounting for a vault that holds a concentrated-liquidity
//! position on behalf of share holders: checked fixed-point arithmetic,
//! conversions between liquidity and token amounts, share-proportional
//! deposits and withdrawals, treasury fees, the position registry, and the
//! sizing rules of rebalancing and reinvesting.
use crate::error::ErrorCode;
use crate::state::Pubkey;
use vstd::prelude::*;

pub mod error;
pub mod instructions;
pub mod interfaces;
pub mod math;
pub mod state;

verus! {

/// A fee of `FEE_SCALE` takes all of what was earned.
pub const FEE_SCALE: u64 = 100;

/// The layout version that this library reads and writes.
pub const VAULT_VERSION: u8 = 1;

/// Pauses every vault at once.
pub const IS_PAUSED: bool = false;

/// The address that may administer vaults.
pub open spec fn admin_key() -> Pubkey {
    Pubkey {
        hi: 0xbf11_4d6d_fdf3_10bc_4043_f912_333e_ad51,
        lo: 0x80d0_791d_4a39_5ef7_7204_7258_d173_9388,
    }
}

/// The address that owns the accounts which the treasury's fees go to.
pub open spec fn treasury_key() -> Pubkey {
    Pubkey {
        hi: 0x6fde_e2c5_ae40_33b5_ebcd_388a_4c69_ad9e,
        lo: 0xbf2b_8f8d_5b91_4e2d_8256_66af_92bc_5298,
    }
}

/// The address that may administer vaults.
pub fn admin_pubkey() -> (r: Pubkey)
    ensures
        r == admin_key(),
{
    Pubkey {
        hi: 0xbf11_4d6d_fdf3_10bc_4043_f912_333e_ad51,
        lo: 0x80d0_791d_4a39_5ef7_7204_7258_d173_9388,
    }
}

/// The address that owns the accounts which the treasury's fees go to.
pub fn treasury_pubkey() -> (r: Pubkey)
    ensures
        r == treasury_key(),
{
    Pubkey {
        hi: 0x6fde_e2c5_ae40_33b5_ebcd_388a_4c69_ad9e,
        lo: 0xbf2b_8f8d_5b91_4e2d_8256_66af_92bc_5298,
    }
}

/// Check if target key is authorized
pub fn is_admin(key: &Pubkey) -> (r: Result<(), ErrorCode>)
    ensures
        *key == admin_key() ==> r == Ok::<(), ErrorCode>(()),
        *key != admin_key() ==> r == Err::<(), ErrorCode>(ErrorCode::UnauthorizedUser),
{
    if !(*key == admin_pubkey()) {
        return Err(ErrorCode::UnauthorizedUser);
    }
    Ok(())
}

/// Check if the smart contract is paused either globally or at the vault level
pub fn is_paused(is_vault_paused: bool) -> (r: Result<(), ErrorCode>)
    ensures
        IS_PAUSED ==> r == Err::<(), ErrorCode>(ErrorCode::PausedSmartContract),
        !IS_PAUSED && is_vault_paused ==> r == Err::<(), ErrorCode>(ErrorCode::PausedVault),
        !IS_PAUSED && !is_vault_paused ==> r == Ok::<(), ErrorCode>(()),
{
    if !(!IS_PAUSED) {
        return Err(ErrorCode::PausedSmartContract);
    }
    if !(!is_vault_paused) {
        return Err(ErrorCode::PausedVault);
    }
    Ok(())
}

} // verus!
