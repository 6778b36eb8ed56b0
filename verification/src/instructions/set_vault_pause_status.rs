use crate::error::ErrorCode;
use crate::state::VaultAccount;
use vstd::prelude::*;

verus! {

/// Pauses the vault, or lets it run again.
pub fn handler(vault: &mut VaultAccount, is_paused: bool) -> (r: Result<(), ErrorCode>)
    ensures
        r == Ok::<(), ErrorCode>(()),
        *final(vault) == (VaultAccount { is_paused, ..*old(vault) }),
        old(vault).wf() ==> final(vault).wf(),
{
    vault.is_paused = is_paused;
    Ok(())
}

} // verus!
