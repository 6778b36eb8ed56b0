use crate::error::ErrorCode;
use crate::interfaces::whirlpool_position::{
    liquidity_for_amounts,
    sqrt_price_at_tick,
    ModifyLiquidity,
    PositionAccounts,
};
use crate::math::division::lemma_ceil_at_most;
use crate::math::safe_arithmetics::{mul_div_u128, SafeMulDiv};
use crate::state::{first_with_key, holds_key, Pubkey, VaultAccount};
use crate::{admin_key, is_admin};
use vstd::prelude::*;

verus! {

/// The record of a rebalance.
#[derive(Clone, Copy, Debug, PartialEq, Eq, Structural)]
pub struct RebalanceEvent {
    pub vault_account: Pubkey,
    pub old_liquidity: u128,
    pub new_liquidity: u128,
}

/// A rebalance that has told the pool to empty the active position, and
/// waits for the tokens to arrive.
#[derive(Clone, Copy, Debug, PartialEq, Eq, Structural)]
pub struct Draining {
    /// The liquidity that the active position held
    pub init_liquidity: u128,
    /// The position to move to
    pub new_position: Pubkey,
}

/// A rebalance that has told the pool to fill the new position.
#[derive(Clone, Copy, Debug, PartialEq, Eq, Structural)]
pub struct Filling {
    /// The liquidity that the old position held
    pub init_liquidity: u128,
    /// The liquidity that the new position gets
    pub new_liquidity: u128,
    /// The position to move to
    pub new_position: Pubkey,
}

/// Whether the instruction that follows is a reinvestment: its data start
/// with the eight bytes `reinvest_sighash`. No instruction at all is
/// `MissingReinvest`; data shorter than eight bytes are `InvalidIxData`.
pub open spec fn next_is_reinvest(next_ix_data: Option<Seq<u8>>, reinvest_sighash: Seq<u8>)
    -> Result<bool, ErrorCode> {
    match next_ix_data {
        None => Err(ErrorCode::MissingReinvest),
        Some(data) => if data.len() < 8 {
            Err(ErrorCode::InvalidIxData)
        } else {
            Ok(forall|j: int| 0 <= j < 8 ==> data[j] == reinvest_sighash[j])
        },
    }
}

/// Whether the instruction that follows, whose data are `next_ix_data`, is
/// a reinvestment.
pub fn is_next_ix_reinvest(next_ix_data: Option<&Vec<u8>>, reinvest_sighash: &[u8; 8]) -> (r: Result<
    bool,
    ErrorCode,
>)
    ensures
        r == next_is_reinvest(
            match next_ix_data {
                Some(data) => Some(data@),
                None => None,
            },
            reinvest_sighash@,
        ),
{
    let data = match next_ix_data {
        Some(data) => data,
        None => {
            return Err(ErrorCode::MissingReinvest);
        },
    };
    if !(data.len() >= 8) {
        return Err(ErrorCode::InvalidIxData);
    }
    let mut matches: bool = true;
    let mut i: usize = 0;
    while i < 8
        invariant
            i <= 8,
            data@.len() >= 8,
            matches == (forall|j: int| 0 <= j < i ==> data@[j] == reinvest_sighash@[j]),
        decreases 8 - i,
    {
        if data[i] != reinvest_sighash[i] {
            matches = false;
        }
        i = i + 1;
    }
    Ok(matches)
}

/// Whether `signer` may start a rebalance from `current_position` to
/// `new_position`: the signer is the administrator, the vault has positions,
/// `current_position` is the active one, `new_position` is registered and
/// another one, and a reinvestment follows.
pub open spec fn rebalance_check(
    vault: VaultAccount,
    signer: Pubkey,
    current_position: Pubkey,
    new_position: Pubkey,
    next_ix_is_reinvest: bool,
) -> Result<(), ErrorCode> {
    if signer != admin_key() {
        Err(ErrorCode::UnauthorizedUser)
    } else if vault.positions@.len() == 0 {
        Err(ErrorCode::PositionNonExistence)
    } else if vault.positions@[0].pubkey != current_position {
        Err(ErrorCode::PositionNotActive)
    } else if !holds_key(vault.positions@, new_position) {
        Err(ErrorCode::PositionNotActive)
    } else if new_position == current_position {
        Err(ErrorCode::RebalanceIntoActivePosition)
    } else if !next_ix_is_reinvest {
        Err(ErrorCode::MissingReinvest)
    } else {
        Ok(())
    }
}

/// Starts a rebalance: after the checks, the active position, which holds
/// `init_liquidity`, is to be emptied, with no least amount asked for.
pub fn handler(
    vault: &VaultAccount,
    signer: &Pubkey,
    current_position: Pubkey,
    new_position: Pubkey,
    next_ix_is_reinvest: bool,
    init_liquidity: u128,
) -> (r: Result<(Draining, ModifyLiquidity), ErrorCode>)
    ensures
        match r {
            Ok((state, decrease)) => {
                &&& rebalance_check(
                    *vault,
                    *signer,
                    current_position,
                    new_position,
                    next_ix_is_reinvest,
                ) is Ok
                &&& state == (Draining { init_liquidity, new_position })
                &&& decrease == (ModifyLiquidity {
                    liquidity_amount: init_liquidity,
                    token_limit_a: 0,
                    token_limit_b: 0,
                })
            },
            Err(e) => rebalance_check(
                *vault,
                *signer,
                current_position,
                new_position,
                next_ix_is_reinvest,
            ) == Err::<(), ErrorCode>(e),
        },
{
    is_admin(signer)?;
    if vault.positions.len() == 0 {
        return Err(ErrorCode::PositionNonExistence);
    }
    if !(current_position == vault.active_position_key()) {
        return Err(ErrorCode::PositionNotActive);
    }
    if !vault.position_address_exists(new_position) {
        return Err(ErrorCode::PositionNotActive);
    }
    if !(new_position != current_position) {
        return Err(ErrorCode::RebalanceIntoActivePosition);
    }
    if !next_ix_is_reinvest {
        return Err(ErrorCode::MissingReinvest);
    }
    Ok(
        (
            Draining { init_liquidity, new_position },
            ModifyLiquidity { liquidity_amount: init_liquidity, token_limit_a: 0, token_limit_b: 0 },
        ),
    )
}

/// Sizes the new position: it gets the liquidity that the vault's two
/// balances fund, which may be spent in full.
pub fn size_new_position(
    state: Draining,
    new_position: &PositionAccounts,
    amount_a: u64,
    amount_b: u64,
) -> (r: Result<(Filling, ModifyLiquidity), ErrorCode>)
    requires
        new_position.tick_lower_index > i32::MIN,
        new_position.tick_upper_index > i32::MIN,
    ensures
        match r {
            Ok((next, increase)) => {
                &&& liquidity_for_amounts(
                    new_position.sqrt_price,
                    new_position.tick_current_index,
                    new_position.tick_lower_index,
                    new_position.tick_upper_index,
                    sqrt_price_at_tick(new_position.tick_lower_index),
                    sqrt_price_at_tick(new_position.tick_upper_index),
                    amount_a,
                    amount_b,
                ) == Ok::<u128, ErrorCode>(next.new_liquidity)
                &&& next.init_liquidity == state.init_liquidity
                &&& next.new_position == state.new_position
                &&& increase == (ModifyLiquidity {
                    liquidity_amount: next.new_liquidity,
                    token_limit_a: amount_a,
                    token_limit_b: amount_b,
                })
            },
            Err(e) => liquidity_for_amounts(
                new_position.sqrt_price,
                new_position.tick_current_index,
                new_position.tick_lower_index,
                new_position.tick_upper_index,
                sqrt_price_at_tick(new_position.tick_lower_index),
                sqrt_price_at_tick(new_position.tick_upper_index),
                amount_a,
                amount_b,
            ) == Err::<u128, ErrorCode>(e),
        },
{
    let new_liquidity = new_position.liquidity_from_token_amounts(amount_a, amount_b)?;
    Ok(
        (
            Filling {
                init_liquidity: state.init_liquidity,
                new_liquidity,
                new_position: state.new_position,
            },
            ModifyLiquidity {
                liquidity_amount: new_liquidity,
                token_limit_a: amount_a,
                token_limit_b: amount_b,
            },
        ),
    )
}

/// What ends a rebalance: the last reinvested increase, scaled from the old
/// liquidity to the new one and rounded up; or the error of that scaling, or
/// of making the new position the active one.
pub open spec fn rebalance_outcome(vault: VaultAccount, state: Filling) -> Result<u128, ErrorCode> {
    match mul_div_u128(
        vault.last_liquidity_increase,
        state.new_liquidity,
        state.init_liquidity,
        true,
    ) {
        Err(e) => Err(e),
        Ok(increase) => match vault.promote_check(state.new_position) {
            Err(e) => Err(e),
            Ok(()) => Ok(increase),
        },
    }
}

/// Ends a rebalance: the new position becomes the active one, the last
/// reinvested increase is scaled to the new liquidity, and the slot of the
/// last reinvestment is cleared, so that the reinvestment that follows is
/// not held back. On an error the vault is as before.
pub fn complete(vault: &mut VaultAccount, state: Filling, vault_account: Pubkey) -> (r: Result<
    RebalanceEvent,
    ErrorCode,
>)
    ensures
        match r {
            Ok(event) => {
                &&& rebalance_outcome(*old(vault), state) is Ok
                &&& event == (RebalanceEvent {
                    vault_account,
                    old_liquidity: state.init_liquidity,
                    new_liquidity: state.new_liquidity,
                })
                &&& final(vault).last_liquidity_increase == rebalance_outcome(
                    *old(vault),
                    state,
                )->Ok_0
                &&& final(vault).last_reinvestment_slot == 0
                &&& final(vault).positions@[0].pubkey == state.new_position
                &&& exists|i: int|
                    first_with_key(old(vault).positions@, state.new_position, i) && final(vault).positions@ == old(vault).positions@.update(
                        0,
                        old(vault).positions@[i],
                    ).update(i, old(vault).positions@[0])
                &&& final(vault).same_but_positions(
                    VaultAccount {
                        last_liquidity_increase: final(vault).last_liquidity_increase,
                        last_reinvestment_slot: 0,
                        ..*old(vault)
                    },
                )
                &&& old(vault).wf() ==> final(vault).wf()
                &&& old(vault).last_liquidity_increase <= state.init_liquidity ==> final(vault).last_liquidity_increase <= state.new_liquidity
            },
            Err(e) => rebalance_outcome(*old(vault), state) == Err::<u128, ErrorCode>(e) && *final(vault) == *old(vault),
        },
{
    let proportional_liquidity_increase = vault.last_liquidity_increase.safe_mul_div_round_up(
        state.new_liquidity,
        state.init_liquidity,
    )?;
    proof {
        if vault.last_liquidity_increase <= state.init_liquidity {
            lemma_scaled_increase(
                vault.last_liquidity_increase as int,
                state.new_liquidity as int,
                state.init_liquidity as int,
            );
        }
    }
    vault.promote(state.new_position)?;
    vault.last_liquidity_increase = proportional_liquidity_increase;
    vault.last_reinvestment_slot = 0;
    Ok(
        RebalanceEvent {
            vault_account,
            old_liquidity: state.init_liquidity,
            new_liquidity: state.new_liquidity,
        },
    )
}

/// A part of the old liquidity scales to a part of the new liquidity.
proof fn lemma_scaled_increase(increase: int, new_liquidity: int, init_liquidity: int)
    requires
        0 <= increase <= init_liquidity,
        0 <= new_liquidity,
        0 < init_liquidity,
    ensures
        (increase * new_liquidity + init_liquidity - 1) / init_liquidity <= new_liquidity,
{
    assert(0 <= increase * new_liquidity <= new_liquidity * init_liquidity) by (nonlinear_arith)
        requires
            0 <= increase <= init_liquidity,
            0 <= new_liquidity,
    ;
    lemma_ceil_at_most(increase * new_liquidity, init_liquidity, new_liquidity);
}

} // verus!
