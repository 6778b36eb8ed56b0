use crate::error::ErrorCode;
use crate::state::VaultAccount;
use vstd::prelude::*;

verus! {

/// Sets the least number of slots between two reinvestments.
pub fn handler(vault: &mut VaultAccount, min_slots: u64) -> (r: Result<(), ErrorCode>)
    ensures
        r == Ok::<(), ErrorCode>(()),
        *final(vault) == (VaultAccount { min_slots_for_reinvest: min_slots, ..*old(vault) }),
        old(vault).wf() ==> final(vault).wf(),
{
    vault.min_slots_for_reinvest = min_slots;
    Ok(())
}

} // verus!
