use crate::error::ErrorCode;
use crate::state::VaultAccount;
use crate::FEE_SCALE;
use vstd::prelude::*;

verus! {

/// Sets the vault's fee, which cannot be more than all of what is earned.
pub fn handler(vault: &mut VaultAccount, fee: u64) -> (r: Result<(), ErrorCode>)
    ensures
        fee <= FEE_SCALE ==> r == Ok::<(), ErrorCode>(()) && *final(vault) == (VaultAccount {
            fee,
            ..*old(vault)
        }),
        fee > FEE_SCALE ==> r == Err::<(), ErrorCode>(ErrorCode::InvalidFee) && *final(vault)
            == *old(vault),
        fee <= FEE_SCALE && old(vault).wf() ==> final(vault).wf(),
{
    // Fee can't be more than 100%
    if !(fee <= FEE_SCALE) {
        return Err(ErrorCode::InvalidFee);
    }
    vault.fee = fee;
    Ok(())
}

} // verus!
