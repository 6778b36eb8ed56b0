use crate::error::ErrorCode;
use crate::state::{PositionInfo, Pubkey, VaultAccount, MAX_POSITIONS};
use vstd::prelude::*;

verus! {

/// Whether a position over the ticks `tick_lower_index` to
/// `tick_upper_index` can be registered: asked before the position is opened
/// in the pool.
pub fn check(vault: &VaultAccount, tick_lower_index: i32, tick_upper_index: i32) -> (r: Result<
    (),
    ErrorCode,
>)
    ensures
        r == vault.open_check(tick_lower_index, tick_upper_index),
{
    if !(!vault.position_exists(tick_lower_index, tick_upper_index)) {
        return Err(ErrorCode::PositionAlreadyOpened);
    }
    if !(vault.positions.len() < MAX_POSITIONS) {
        return Err(ErrorCode::PositionLimitReached);
    }
    Ok(())
}

/// Registers the position `position` over the ticks `tick_lower_index` to
/// `tick_upper_index` as the last of the vault's positions, and returns its
/// place among them; the first one registered is the active one. A range
/// that is registered already is refused, and so is one position more than
/// `MAX_POSITIONS`. On an error the vault is as before.
pub fn handler(
    vault: &mut VaultAccount,
    position: Pubkey,
    tick_lower_index: i32,
    tick_upper_index: i32,
) -> (r: Result<usize, ErrorCode>)
    ensures
        match r {
            Ok(index) => old(vault).open_check(tick_lower_index, tick_upper_index) is Ok && index
                == old(vault).positions@.len(),
            Err(e) => old(vault).open_check(tick_lower_index, tick_upper_index) == Err::<
                (),
                ErrorCode,
            >(e),
        },
        r is Err ==> *final(vault) == *old(vault),
        r is Ok ==> final(vault).positions@ == old(vault).positions@.push(
            PositionInfo {
                pubkey: position,
                lower_tick: tick_lower_index,
                upper_tick: tick_upper_index,
            },
        ),
        r is Ok ==> final(vault).same_but_positions(*old(vault)),
        r is Ok && old(vault).wf() ==> final(vault).wf(),
{
    check(vault, tick_lower_index, tick_upper_index)?;
    let index = vault.positions.len();
    vault.positions.push(
        PositionInfo {
            pubkey: position,
            lower_tick: tick_lower_index,
            upper_tick: tick_upper_index,
        },
    );
    proof {
        let before = old(vault).positions@;
        let after = vault.positions@;
        if old(vault).wf() {
            assert forall|a: int, b: int| 0 <= a < b < after.len() implies !((
            #[trigger] after[a]).lower_tick == (#[trigger] after[b]).lower_tick
                && after[a].upper_tick == after[b].upper_tick) by {
                assert(after[a] == before[a]);
                if b < before.len() {
                    assert(after[b] == before[b]);
                }
            }
        }
    }
    Ok(index)
}

} // verus!
