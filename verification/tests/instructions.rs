use ggoldca::error::ErrorCode;
use ggoldca::instructions::collect_fees::{self, skim, CollectFeesEvent};
use ggoldca::instructions::collect_rewards::{self, CollectRewardsEvent};
use ggoldca::instructions::deposit::{self, DepositPlan, DepositWithdrawEvent};
use ggoldca::instructions::rebalance::{self, Draining, Filling, RebalanceEvent};
use ggoldca::instructions::reinvest::{
    self, swap_params_for_ratio, swap_params_for_reinvest, swap_params_from_a_to_b,
    swap_params_from_b_to_a, ReinvestEvent, ReinvestStart, SwapParams,
    MAX_SQRT_PRICE_X64, MIN_SQRT_PRICE_X64,
};
use ggoldca::instructions::swap_rewards::{
    self, orca_swap_program_v2_id, RewardsSwap, SwapEvent, SwapRewardsInput,
};
use ggoldca::instructions::withdraw::{self, WithdrawPlan};
use ggoldca::instructions::{open_position, set_market_rewards, transfer_rewards};
use ggoldca::interfaces::whirlpool_position::{ModifyLiquidity, PositionAccounts};
use ggoldca::state::{Bumps, MarketRewards, Pubkey, VaultAccount, VaultAccountParams};
use ggoldca::FEE_SCALE;

const Q64: u128 = 1 << 64;

fn key(n: u128) -> Pubkey {
    Pubkey { hi: 7, lo: n }
}

fn vault_with_fee(fee: u64) -> VaultAccount {
    let mut vault = VaultAccount::new(VaultAccountParams {
        id: 0,
        bumps: Bumps { vault: 1, lp_token_mint: 2 },
        whirlpool_id: key(1),
        input_token_a_mint_pubkey: key(2),
        input_token_b_mint_pubkey: key(3),
        fee,
        min_slots_for_reinvest: 10,
    });
    open_position::handler(&mut vault, key(10), -1280, 1280).unwrap();
    open_position::handler(&mut vault, key(11), 0, 64).unwrap();
    vault
}

fn position_at_par(liquidity: u128) -> PositionAccounts {
    PositionAccounts {
        sqrt_price: Q64,
        tick_current_index: 0,
        tick_lower_index: -1280,
        tick_upper_index: 1280,
        liquidity,
    }
}

#[test]
fn treasury_cut_of_a_harvest() {
    assert_eq!(FEE_SCALE, 100);
    assert_eq!(skim(10_000, 2), Ok((200, 9_800)));
    assert_eq!(skim(10_001, 2), Ok((201, 9_800)));
    assert_eq!(skim(1, 1), Ok((1, 0)));
    assert_eq!(skim(0, 50), Ok((0, 0)));
    assert_eq!(skim(77, 0), Ok((0, 77)));
    assert_eq!(skim(77, 100), Ok((77, 0)));
    assert_eq!(skim(u64::MAX, 100), Ok((u64::MAX, 0)));
    assert_eq!(skim(77, 101), Err(ErrorCode::MathOverflowSub));
    assert_eq!(skim(u64::MAX, 200), Err(ErrorCode::MathOverflowConversion));
}

#[test]
fn treasury_cut_never_shrinks_as_the_harvest_grows() {
    for fee in [0_u64, 1, 2, 33, 99, 100] {
        let mut last = 0;
        for delta in 0..1_000_u64 {
            let (cut, net) = skim(delta, fee).unwrap();
            assert!(cut >= last);
            assert_eq!(cut + net, delta);
            last = cut;
        }
    }
}

#[test]
fn fees_are_collected_and_earned() {
    let mut vault = vault_with_fee(2);
    let event = collect_fees::handler(&mut vault, key(0), 5, 1_000, 2_000, 11_000, 2_500).unwrap();
    assert_eq!(
        event,
        CollectFeesEvent {
            vault_account: key(0),
            total_fees_token_a: 10_000,
            total_fees_token_b: 500,
            treasury_fee_token_a: 200,
            treasury_fee_token_b: 10,
        }
    );
    assert_eq!(vault.earned_rewards_token_a, 10_000);
    assert_eq!(vault.earned_rewards_token_b, 500);
}

#[test]
fn small_fees_are_refused_unless_the_position_is_drained() {
    let mut vault = vault_with_fee(2);
    assert_eq!(
        collect_fees::handler(&mut vault, key(0), 5, 0, 0, 100, 500),
        Err(ErrorCode::NotEnoughFees)
    );
    assert_eq!(
        collect_fees::handler(&mut vault, key(0), 5, 0, 0, 500, 100),
        Err(ErrorCode::NotEnoughFees)
    );
    assert_eq!(vault.earned_rewards_token_a, 0);
    let event = collect_fees::handler(&mut vault, key(0), 0, 0, 0, 100, 1).unwrap();
    assert_eq!(event.treasury_fee_token_a, 2);
    assert_eq!(event.treasury_fee_token_b, 1);
    assert_eq!(vault.earned_rewards_token_a, 100);
    assert_eq!(vault.earned_rewards_token_b, 1);

    let mut free = vault_with_fee(0);
    let event = collect_fees::handler(&mut free, key(0), 5, 0, 0, 3, 0).unwrap();
    assert_eq!(event.treasury_fee_token_a, 0);
    assert_eq!(event.total_fees_token_a, 3);
}

#[test]
fn a_harvest_is_of_one_of_the_vaults_positions() {
    let vault = vault_with_fee(2);
    assert_eq!(collect_fees::begin(&vault, key(10), 5), Ok(true));
    assert_eq!(collect_fees::begin(&vault, key(11), 0), Ok(false));
    assert_eq!(
        collect_fees::begin(&vault, key(12), 5),
        Err(ErrorCode::PositionNonExistence)
    );
}

#[test]
fn fee_collection_errors() {
    let mut vault = vault_with_fee(2);
    assert_eq!(
        collect_fees::handler(&mut vault, key(0), 5, 10, 0, 9, 500),
        Err(ErrorCode::MathOverflowSub)
    );
    vault.earned_rewards_token_b = u64::MAX;
    assert_eq!(
        collect_fees::handler(&mut vault, key(0), 5, 0, 0, 500, 500),
        Err(ErrorCode::MathOverflowAdd)
    );
    assert_eq!(vault.earned_rewards_token_a, 0);
    assert_eq!(vault.earned_rewards_token_b, u64::MAX);
}

#[test]
fn rewards_are_collected() {
    let vault = vault_with_fee(2);
    assert_eq!(
        collect_rewards::handler(&vault, key(0), 5, 1_000, 11_000),
        Ok(CollectRewardsEvent { vault_account: key(0), total_rewards: 10_000, treasury_fee: 200 })
    );
    assert_eq!(
        collect_rewards::handler(&vault, key(0), 5, 0, 100),
        Err(ErrorCode::NotEnoughRewards)
    );
    assert_eq!(
        collect_rewards::handler(&vault, key(0), 0, 0, 100),
        Ok(CollectRewardsEvent { vault_account: key(0), total_rewards: 100, treasury_fee: 2 })
    );
    assert_eq!(
        collect_rewards::handler(&vault, key(0), 5, 100, 0),
        Err(ErrorCode::MathOverflowSub)
    );
    let free = vault_with_fee(0);
    assert_eq!(
        collect_rewards::handler(&free, key(0), 5, 0, 1),
        Ok(CollectRewardsEvent { vault_account: key(0), total_rewards: 1, treasury_fee: 0 })
    );
}

#[test]
fn the_first_deposit_sets_the_scale() {
    assert_eq!(
        deposit::handler(1_000, 50, 60, 0, 0, 0, 0),
        Ok(DepositPlan {
            amount_a: 0,
            amount_b: 0,
            increase: ModifyLiquidity {
                liquidity_amount: 1_000,
                token_limit_a: 50,
                token_limit_b: 60,
            },
            lp_amount: 1_000,
        })
    );
}

#[test]
fn later_deposits_pay_their_share_rounded_up() {
    // 10 shares of 30: a third of 100 and of 7 idle, and of 1000 liquidity
    assert_eq!(
        deposit::handler(10, 50, 60, 30, 1_000, 100, 7),
        Ok(DepositPlan {
            amount_a: 34,
            amount_b: 3,
            increase: ModifyLiquidity {
                liquidity_amount: 334,
                token_limit_a: 16,
                token_limit_b: 57,
            },
            lp_amount: 10,
        })
    );
    assert_eq!(
        deposit::handler(10, 33, 60, 30, 1_000, 100, 7),
        Err(ErrorCode::ExceededTokenMax)
    );
    assert_eq!(
        deposit::handler(10, 34, 2, 30, 1_000, 100, 7),
        Err(ErrorCode::ExceededTokenMax)
    );
    assert_eq!(
        deposit::handler(u64::MAX, 50, 60, 1, u128::MAX, 0, 0),
        Err(ErrorCode::MathOverflowConversion)
    );
    assert_eq!(
        deposit::handler(u64::MAX, 50, 60, 1, 5, 2, 0),
        Err(ErrorCode::MathOverflowConversion)
    );
    let empty_balances = deposit::handler(10, 0, 0, 30, 1_000, 0, 0).unwrap();
    assert_eq!(empty_balances.amount_a, 0);
    assert_eq!(empty_balances.increase.token_limit_a, 0);
}

#[test]
fn withdrawals_get_their_share_rounded_down() {
    // 10 shares of 30, of 100 and 7 idle and of 1000 - 100 liquidity
    assert_eq!(
        withdraw::handler(10, 40, 1, 30, 1_000, 100, 100, 7),
        Ok(WithdrawPlan {
            amount_a: 33,
            amount_b: 2,
            decrease: ModifyLiquidity {
                liquidity_amount: 300,
                token_limit_a: 7,
                token_limit_b: 0,
            },
            lp_amount: 10,
        })
    );
    assert_eq!(
        withdraw::handler(0, 0, 0, 30, 1_000, 100, 100, 7),
        Err(ErrorCode::ZeroLpAmount)
    );
    assert_eq!(
        withdraw::handler(10, 0, 0, 0, 1_000, 100, 100, 7),
        Err(ErrorCode::MathZeroDivision)
    );
    assert_eq!(
        withdraw::handler(10, 0, 0, 0, 1_000, 100, 0, 0),
        Err(ErrorCode::MathZeroDivision)
    );
    assert_eq!(
        withdraw::handler(10, 0, 0, 30, 99, 100, 100, 7),
        Err(ErrorCode::MathOverflowSub)
    );
    assert_eq!(
        withdraw::handler(u64::MAX, 0, 0, 1, 0, 0, 2, 0),
        Err(ErrorCode::MathOverflowConversion)
    );
}

#[test]
fn deposit_then_withdraw_gives_back_no_more() {
    let cases: [(u64, u64, u128, u128, u64, u64); 5] = [
        (10, 30, 1_000, 100, 100, 7),
        (1, 3, 10, 0, 1, 1),
        (7, 1_000_003, 999_999_999_999, 12_345, 55_555, 1),
        (1_000, 0, 0, 0, 0, 0),
        (u64::MAX / 2, u64::MAX / 2, u128::MAX / 4, 0, u64::MAX / 4, 3),
    ];
    for (lp, supply, liquidity, last_increase, vault_a, vault_b) in cases {
        let paid = deposit::handler(lp, u64::MAX, u64::MAX, supply, liquidity, vault_a, vault_b)
            .unwrap();
        let back = withdraw::handler(
            lp,
            0,
            0,
            supply + lp,
            liquidity + paid.increase.liquidity_amount,
            last_increase,
            vault_a + paid.amount_a,
            vault_b + paid.amount_b,
        )
        .unwrap();
        assert!(back.amount_a <= paid.amount_a);
        assert!(back.amount_b <= paid.amount_b);
        assert!(back.decrease.liquidity_amount <= paid.increase.liquidity_amount);
    }
}

#[test]
fn deposit_and_withdraw_events() {
    assert_eq!(
        deposit::deposit_event(key(0), 100, 50, 60, 50, 9),
        Ok(DepositWithdrawEvent { vault_account: key(0), amount_a: 40, amount_b: 0, liquidity: 9 })
    );
    assert_eq!(
        deposit::deposit_event(key(0), 100, 50, 101, 50, 9),
        Err(ErrorCode::MathOverflowSub)
    );
    assert_eq!(
        withdraw::withdraw_event(key(0), 100, 50, 160, 51, 9),
        Ok(DepositWithdrawEvent { vault_account: key(0), amount_a: 60, amount_b: 1, liquidity: 9 })
    );
    assert_eq!(
        withdraw::withdraw_event(key(0), 100, 50, 160, 49, 9),
        Err(ErrorCode::MathOverflowSub)
    );
}

#[test]
fn swap_parameters() {
    assert_eq!(MIN_SQRT_PRICE_X64, orca_whirlpools_core::MIN_SQRT_PRICE);
    assert_eq!(MAX_SQRT_PRICE_X64, orca_whirlpools_core::MAX_SQRT_PRICE);
    assert_eq!(
        swap_params_from_a_to_b(5),
        SwapParams {
            amount: 5,
            other_amount_threshold: 1,
            sqrt_price_limit: MIN_SQRT_PRICE_X64,
            amount_specified_is_input: true,
            a_to_b: true,
        }
    );
    assert_eq!(
        swap_params_from_b_to_a(6),
        SwapParams {
            amount: 6,
            other_amount_threshold: 1,
            sqrt_price_limit: MAX_SQRT_PRICE_X64,
            amount_specified_is_input: true,
            a_to_b: false,
        }
    );
}

#[test]
fn reinvest_swaps_towards_the_positions_ratio() {
    // the position holds as much of A as of B, at a price of one
    assert_eq!(
        swap_params_for_ratio(1_000_000, 0, 166_999, 166_999, Q64),
        Ok(swap_params_from_a_to_b(500_000))
    );
    assert_eq!(
        swap_params_for_ratio(0, 1_000_000, 166_999, 166_999, Q64),
        Ok(swap_params_from_b_to_a(500_000))
    );
    assert_eq!(
        swap_params_for_ratio(500_000, 500_000, 166_999, 166_999, Q64),
        Ok(swap_params_from_b_to_a(0))
    );
    // three of A for one of B, at a sqrt price of two
    assert_eq!(
        swap_params_for_ratio(1_000_000, 250_000, 300, 100, 2 * Q64),
        Ok(swap_params_from_a_to_b(19_230))
    );
    assert_eq!(
        swap_params_for_ratio(10, 1_000_000, 300, 100, 2 * Q64),
        Ok(swap_params_from_b_to_a(230_768))
    );
    assert_eq!(
        swap_params_for_ratio(1, 1, 5, 0, Q64),
        Err(ErrorCode::MathZeroDivision)
    );
    assert_eq!(
        swap_params_for_ratio(1, 1, u64::MAX, 1, u128::MAX),
        Err(ErrorCode::MathOverflowMul)
    );
    assert_eq!(
        swap_params_for_ratio(1, u64::MAX, u64::MAX, 1, 1),
        Err(ErrorCode::MathOverflowMul)
    );
    // the ratio times the price leaves less than 2^192 of room
    assert_eq!(
        swap_params_for_ratio(1, 1, 1, 1, (1 << 96) - 1),
        Err(ErrorCode::MathOverflowAdd)
    );
}

#[test]
fn reinvest_swap_at_the_edges() {
    assert_eq!(swap_params_for_reinvest(0, 0, 5, 5, Q64), Ok(None));
    assert_eq!(swap_params_for_reinvest(0, 0, 0, 0, Q64), Ok(None));
    assert_eq!(
        swap_params_for_reinvest(7, 3, 5, 0, Q64),
        Ok(Some(swap_params_from_a_to_b(7)))
    );
    assert_eq!(
        swap_params_for_reinvest(7, 3, 0, 0, Q64),
        Ok(Some(swap_params_from_a_to_b(7)))
    );
    assert_eq!(
        swap_params_for_reinvest(7, 3, 0, 5, Q64),
        Ok(Some(swap_params_from_b_to_a(3)))
    );
    assert_eq!(
        swap_params_for_reinvest(1_000_000, 0, 166_999, 166_999, Q64),
        Ok(Some(swap_params_from_a_to_b(500_000)))
    );
}

#[test]
fn reinvest_waits_for_the_cooldown() {
    let mut vault = vault_with_fee(2);
    vault.last_reinvestment_slot = 100;
    assert_eq!(reinvest::check_cooldown(&vault, 99), Err(ErrorCode::MathOverflowSub));
    assert_eq!(reinvest::check_cooldown(&vault, 109), Err(ErrorCode::NotEnoughSlots));
    assert_eq!(reinvest::check_cooldown(&vault, 110), Ok(10));
    assert_eq!(reinvest::check_cooldown(&vault, 1_000), Ok(900));
    vault.min_slots_for_reinvest = 0;
    assert_eq!(reinvest::check_cooldown(&vault, 100), Ok(0));
}

#[test]
fn reinvest_sizes_its_swap_from_the_position() {
    let position = position_at_par(2_693_896);
    assert_eq!(
        reinvest::handler(&position, 1_000_000, 0),
        Ok(ReinvestStart {
            liquidity_before: 2_693_896,
            swap: Some(swap_params_from_a_to_b(500_000)),
        })
    );
    assert_eq!(
        reinvest::handler(&position, 0, 0),
        Ok(ReinvestStart { liquidity_before: 2_693_896, swap: None })
    );
    // above its range a position holds no token A: all of token B is sold
    let above = PositionAccounts {
        sqrt_price: orca_whirlpools_core::tick_index_to_sqrt_price(1300),
        tick_current_index: 1300,
        ..position
    };
    assert_eq!(
        reinvest::handler(&above, 5, 7),
        Ok(ReinvestStart {
            liquidity_before: 2_693_896,
            swap: Some(swap_params_from_b_to_a(7)),
        })
    );
    // below its range it holds no token B: all of token A is sold
    let below = PositionAccounts {
        sqrt_price: orca_whirlpools_core::tick_index_to_sqrt_price(-1300),
        tick_current_index: -1300,
        ..position
    };
    assert_eq!(
        reinvest::handler(&below, 5, 7),
        Ok(ReinvestStart {
            liquidity_before: 2_693_896,
            swap: Some(swap_params_from_a_to_b(5)),
        })
    );
    let too_much = PositionAccounts { liquidity: u128::MAX, ..position };
    assert_eq!(
        reinvest::handler(&too_much, 5, 7),
        Err(ErrorCode::MathOverflowConversion)
    );
}

#[test]
fn reinvest_deposits_what_both_amounts_fund() {
    let position = position_at_par(2_693_896);
    assert_eq!(
        reinvest::deposit_max_possible_liquidity(&position, 600_000, 400_000),
        Ok(Some(ModifyLiquidity {
            liquidity_amount: 6_452_445,
            token_limit_a: 600_000,
            token_limit_b: 400_000,
        }))
    );
    assert_eq!(reinvest::deposit_max_possible_liquidity(&position, 0, 400_000), Ok(None));
    assert_eq!(reinvest::deposit_max_possible_liquidity(&position, 600_000, 0), Ok(None));
    let at_the_lower_tick = PositionAccounts {
        sqrt_price: orca_whirlpools_core::tick_index_to_sqrt_price(-1280),
        tick_current_index: -1280,
        tick_lower_index: -1280,
        tick_upper_index: 1280,
        liquidity: 0,
    };
    assert_eq!(
        reinvest::deposit_max_possible_liquidity(&at_the_lower_tick, 1, 1),
        Err(ErrorCode::MathZeroDivision)
    );
}

#[test]
fn reinvest_notes_the_increase() {
    let mut vault = vault_with_fee(2);
    assert_eq!(
        reinvest::complete(&mut vault, key(0), 77, 1_000, 1_250, 10, 510),
        Ok(ReinvestEvent {
            vault_account: key(0),
            lp_supply: 77,
            liquidity: 1_250,
            liquidity_increase: 250,
            elapsed_slots: 10,
        })
    );
    assert_eq!(vault.last_liquidity_increase, 250);
    assert_eq!(vault.last_reinvestment_slot, 510);
    assert_eq!(
        reinvest::complete(&mut vault, key(0), 77, 1_000, 999, 10, 520),
        Err(ErrorCode::MathOverflowSub)
    );
    assert_eq!(vault.last_liquidity_increase, 250);
    assert_eq!(vault.last_reinvestment_slot, 510);
}

#[test]
fn swap_events_say_what_came_out() {
    let sold_a = swap_params_from_a_to_b(40);
    assert_eq!(
        reinvest::swap_event(key(0), &sold_a, key(2), key(3), 100, 10, 60, 49),
        Ok(SwapEvent {
            vault_account: key(0),
            mint_in: key(2),
            amount_in: 40,
            mint_out: key(3),
            amount_out: 39,
        })
    );
    assert_eq!(
        reinvest::swap_event(key(0), &sold_a, key(2), key(3), 100, 10, 60, 9),
        Err(ErrorCode::MathOverflowSub)
    );
    let bought_a = swap_params_from_b_to_a(40);
    assert_eq!(
        reinvest::swap_event(key(0), &bought_a, key(2), key(3), 100, 50, 140, 9),
        Ok(SwapEvent {
            vault_account: key(0),
            mint_in: key(3),
            amount_in: 40,
            mint_out: key(2),
            amount_out: 40,
        })
    );
    assert_eq!(
        reinvest::swap_event(key(0), &bought_a, key(2), key(3), 100, 50, 99, 9),
        Err(ErrorCode::MathOverflowSub)
    );
}

#[test]
fn rebalance_needs_a_reinvest_to_follow() {
    let sighash = [1_u8, 2, 3, 4, 5, 6, 7, 8];
    let reinvest_ix = vec![1_u8, 2, 3, 4, 5, 6, 7, 8, 9, 9];
    let other_ix = vec![1_u8, 2, 3, 4, 5, 6, 7, 9];
    let short_ix = vec![1_u8, 2, 3, 4, 5, 6, 7];
    assert_eq!(rebalance::is_next_ix_reinvest(Some(&reinvest_ix), &sighash), Ok(true));
    assert_eq!(rebalance::is_next_ix_reinvest(Some(&other_ix), &sighash), Ok(false));
    assert_eq!(
        rebalance::is_next_ix_reinvest(Some(&short_ix), &sighash),
        Err(ErrorCode::InvalidIxData)
    );
    assert_eq!(
        rebalance::is_next_ix_reinvest(None, &sighash),
        Err(ErrorCode::MissingReinvest)
    );
}

#[test]
fn rebalance_checks_come_first() {
    let vault = vault_with_fee(2);
    assert_eq!(
        rebalance::handler(&vault, &ggoldca::admin_pubkey(), key(10), key(11), true, 1_000),
        Ok((
            Draining { init_liquidity: 1_000, new_position: key(11) },
            ModifyLiquidity { liquidity_amount: 1_000, token_limit_a: 0, token_limit_b: 0 },
        ))
    );
    assert_eq!(
        rebalance::handler(&vault, &ggoldca::admin_pubkey(), key(10), key(11), false, 1_000),
        Err(ErrorCode::MissingReinvest)
    );
    assert_eq!(
        rebalance::handler(&vault, &key(10), key(10), key(11), true, 1_000),
        Err(ErrorCode::UnauthorizedUser)
    );
    assert_eq!(
        rebalance::handler(&vault, &ggoldca::admin_pubkey(), key(11), key(10), true, 1_000),
        Err(ErrorCode::PositionNotActive)
    );
    assert_eq!(
        rebalance::handler(&vault, &ggoldca::admin_pubkey(), key(10), key(12), true, 1_000),
        Err(ErrorCode::PositionNotActive)
    );
    assert_eq!(
        rebalance::handler(&vault, &ggoldca::admin_pubkey(), key(10), key(10), true, 1_000),
        Err(ErrorCode::RebalanceIntoActivePosition)
    );
    let empty = VaultAccount::new(VaultAccountParams {
        id: 0,
        bumps: Bumps { vault: 1, lp_token_mint: 2 },
        whirlpool_id: key(1),
        input_token_a_mint_pubkey: key(2),
        input_token_b_mint_pubkey: key(3),
        fee: 0,
        min_slots_for_reinvest: 0,
    });
    assert_eq!(
        rebalance::handler(&empty, &ggoldca::admin_pubkey(), key(10), key(11), true, 1_000),
        Err(ErrorCode::PositionNonExistence)
    );
}

#[test]
fn rebalance_moves_the_liquidity_and_the_active_position() {
    let mut vault = vault_with_fee(2);
    vault.last_liquidity_increase = 100;
    vault.last_reinvestment_slot = 500;
    let (draining, _) = rebalance::handler(&vault, &ggoldca::admin_pubkey(), key(10), key(11), true, 1_000).unwrap();
    let target = position_at_par(0);
    let (filling, increase) =
        rebalance::size_new_position(draining, &target, 167_000, 167_000).unwrap();
    assert_eq!(
        filling,
        Filling { init_liquidity: 1_000, new_liquidity: 2_693_896, new_position: key(11) }
    );
    assert_eq!(
        increase,
        ModifyLiquidity {
            liquidity_amount: 2_693_896,
            token_limit_a: 167_000,
            token_limit_b: 167_000,
        }
    );
    // what the pool charges for it is within what was drained
    let (charged_a, charged_b) = target
        .token_amounts_from_liquidity_round_up(filling.new_liquidity)
        .unwrap();
    assert!(charged_a <= 167_000 && charged_b <= 167_000);

    assert_eq!(
        rebalance::complete(&mut vault, filling, key(0)),
        Ok(RebalanceEvent {
            vault_account: key(0),
            old_liquidity: 1_000,
            new_liquidity: 2_693_896,
        })
    );
    // 100 * 2693896 / 1000, rounded up
    assert_eq!(vault.last_liquidity_increase, 269_390);
    assert_eq!(vault.last_reinvestment_slot, 0);
    assert_eq!(vault.active_position_key(), key(11));
    assert_eq!(vault.positions[1].pubkey, key(10));
}

#[test]
fn rebalance_that_fails_leaves_the_vault() {
    let mut vault = vault_with_fee(2);
    vault.last_liquidity_increase = 100;
    vault.last_reinvestment_slot = 500;
    let from_nothing = Filling { init_liquidity: 0, new_liquidity: 5, new_position: key(11) };
    assert_eq!(
        rebalance::complete(&mut vault, from_nothing, key(0)),
        Err(ErrorCode::MathZeroDivision)
    );
    let unknown = Filling { init_liquidity: 10, new_liquidity: 5, new_position: key(12) };
    assert_eq!(
        rebalance::complete(&mut vault, unknown, key(0)),
        Err(ErrorCode::PositionNotActive)
    );
    let same = Filling { init_liquidity: 10, new_liquidity: 5, new_position: key(10) };
    assert_eq!(
        rebalance::complete(&mut vault, same, key(0)),
        Err(ErrorCode::RebalanceIntoActivePosition)
    );
    let too_much = Filling { init_liquidity: 1, new_liquidity: u128::MAX, new_position: key(11) };
    assert_eq!(
        rebalance::complete(&mut vault, too_much, key(0)),
        Err(ErrorCode::MathOverflowConversion)
    );
    assert_eq!(vault.last_liquidity_increase, 100);
    assert_eq!(vault.last_reinvestment_slot, 500);
    assert_eq!(vault.active_position_key(), key(10));

    vault.last_liquidity_increase = 0;
    assert_eq!(
        rebalance::complete(&mut vault, from_nothing, key(0)),
        Err(ErrorCode::MathOverflowSub)
    );
}

fn vault_with_markets() -> VaultAccount {
    let mut vault = vault_with_fee(2);
    let reward_mints = [key(20), key(21), key(22)];
    let sell_on = |id: MarketRewards| set_market_rewards::MarketRewardsInfoInput {
        id,
        min_amount_out: 9,
    };
    set_market_rewards::handler(
        &mut vault,
        sell_on(MarketRewards::OrcaV2),
        &reward_mints,
        key(20),
        key(30),
        key(2),
    )
    .unwrap();
    set_market_rewards::handler(
        &mut vault,
        sell_on(MarketRewards::Whirlpool),
        &reward_mints,
        key(21),
        key(31),
        key(3),
    )
    .unwrap();
    set_market_rewards::handler(
        &mut vault,
        sell_on(MarketRewards::Transfer),
        &reward_mints,
        key(22),
        key(32),
        key(22),
    )
    .unwrap();
    vault
}

#[test]
fn rewards_are_transferred_where_the_entry_says() {
    let vault = vault_with_markets();
    assert_eq!(transfer_rewards::handler(&vault, key(22), key(32), 55), Ok(55));
    assert_eq!(
        transfer_rewards::handler(&vault, key(22), key(33), 55),
        Err(ErrorCode::InvalidDestinationAccount)
    );
    assert_eq!(
        transfer_rewards::handler(&vault, key(20), key(30), 55),
        Err(ErrorCode::InvalidDestinationAccount)
    );
    assert_eq!(
        transfer_rewards::handler(&vault, key(23), key(32), 55),
        Err(ErrorCode::TransferNotSet)
    );
}

#[test]
fn rewards_are_sold_on_the_entrys_market() {
    let vault = vault_with_markets();
    let whirlpool_program = key(40);
    let on_orca = SwapRewardsInput {
        rewards_mint: key(20),
        destination_token_account: key(30),
        swap_program: orca_swap_program_v2_id(),
        whirlpool_program,
        remaining_accounts: 6,
        market_token_mint_a: key(20),
        amount_to_swap: 1_000,
    };
    assert_eq!(
        swap_rewards::handler(&vault, &on_orca),
        Ok(RewardsSwap::OrcaV2 { amount_in: 1_000, minimum_amount_out: 9 })
    );
    assert_eq!(
        swap_rewards::handler(&vault, &SwapRewardsInput { remaining_accounts: 7, ..on_orca }),
        Err(ErrorCode::InvalidNumberOfAccounts)
    );
    assert_eq!(
        swap_rewards::handler(
            &vault,
            &SwapRewardsInput { swap_program: whirlpool_program, ..on_orca }
        ),
        Err(ErrorCode::SwapInvalidProgramId)
    );
    assert_eq!(
        swap_rewards::handler(
            &vault,
            &SwapRewardsInput { destination_token_account: key(31), ..on_orca }
        ),
        Err(ErrorCode::InvalidDestinationAccount)
    );
    assert_eq!(
        swap_rewards::handler(&vault, &SwapRewardsInput { rewards_mint: key(22), ..on_orca }),
        Err(ErrorCode::SwapNotSet)
    );
    assert_eq!(
        swap_rewards::handler(&vault, &SwapRewardsInput { rewards_mint: key(23), ..on_orca }),
        Err(ErrorCode::SwapNotSet)
    );

    let on_whirlpool = SwapRewardsInput {
        rewards_mint: key(21),
        destination_token_account: key(31),
        swap_program: whirlpool_program,
        whirlpool_program,
        remaining_accounts: 7,
        market_token_mint_a: key(21),
        amount_to_swap: 1_000,
    };
    assert_eq!(
        swap_rewards::handler(&vault, &on_whirlpool),
        Ok(RewardsSwap::Whirlpool {
            params: SwapParams {
                amount: 1_000,
                other_amount_threshold: 9,
                sqrt_price_limit: MIN_SQRT_PRICE_X64,
                amount_specified_is_input: true,
                a_to_b: true,
            }
        })
    );
    assert_eq!(
        swap_rewards::handler(
            &vault,
            &SwapRewardsInput { market_token_mint_a: key(3), ..on_whirlpool }
        ),
        Ok(RewardsSwap::Whirlpool {
            params: SwapParams {
                amount: 1_000,
                other_amount_threshold: 9,
                sqrt_price_limit: MAX_SQRT_PRICE_X64,
                amount_specified_is_input: true,
                a_to_b: false,
            }
        })
    );
    assert_eq!(
        swap_rewards::handler(&vault, &SwapRewardsInput { remaining_accounts: 6, ..on_whirlpool }),
        Err(ErrorCode::InvalidNumberOfAccounts)
    );
    assert_eq!(
        swap_rewards::handler(
            &vault,
            &SwapRewardsInput { swap_program: orca_swap_program_v2_id(), ..on_whirlpool }
        ),
        Err(ErrorCode::SwapInvalidProgramId)
    );
}

#[test]
fn sold_rewards_are_earned() {
    let mut vault = vault_with_markets();
    assert_eq!(
        swap_rewards::account_for_swap(&mut vault, key(0), key(20), key(2), 1_000, 50, 80),
        Ok(SwapEvent {
            vault_account: key(0),
            mint_in: key(20),
            amount_in: 1_000,
            mint_out: key(2),
            amount_out: 30,
        })
    );
    assert_eq!(vault.earned_rewards_token_a, 30);
    assert_eq!(vault.earned_rewards_token_b, 0);
    swap_rewards::account_for_swap(&mut vault, key(0), key(21), key(3), 1_000, 50, 90).unwrap();
    assert_eq!(vault.earned_rewards_token_a, 30);
    assert_eq!(vault.earned_rewards_token_b, 40);
    assert_eq!(
        swap_rewards::account_for_swap(&mut vault, key(0), key(21), key(3), 1_000, 50, 49),
        Err(ErrorCode::MathOverflowSub)
    );
    assert_eq!(
        swap_rewards::account_for_swap(&mut vault, key(0), key(21), key(3), 1_000, 0, u64::MAX),
        Err(ErrorCode::MathOverflowAdd)
    );
    assert_eq!(vault.earned_rewards_token_b, 40);
}

#[test]
fn a_deposit_pays_at_least_its_part() {
    let cases: [(u64, u64, u128, u64, u64); 4] = [
        (10, 30, 1_000, 100, 7),
        (1, 3, 10, 1, 1),
        (7, 1_000_003, 999_999_999_999, 55_555, 1),
        (999, 1_000, 1, 1, 0),
    ];
    for (lp, supply, liquidity, vault_a, vault_b) in cases {
        let plan = deposit::handler(lp, u64::MAX, u64::MAX, supply, liquidity, vault_a, vault_b)
            .unwrap();
        assert!(plan.amount_a as u128 * supply as u128 >= vault_a as u128 * lp as u128);
        assert!(plan.amount_b as u128 * supply as u128 >= vault_b as u128 * lp as u128);
        assert!(plan.increase.liquidity_amount * supply as u128 >= liquidity * lp as u128);
    }
}

#[test]
fn a_withdrawal_stays_within_what_the_vault_holds() {
    let cases: [(u64, u64, u128, u128, u64, u64); 4] = [
        (10, 30, 1_000, 100, 100, 7),
        (3, 3, 10, 10, 1, 1),
        (1_000_003, 1_000_003, 999_999_999_999, 12_345, 55_555, 1),
        (1, u64::MAX, u128::MAX, 0, u64::MAX, 0),
    ];
    for (lp, supply, liquidity, last_increase, vault_a, vault_b) in cases {
        let plan =
            withdraw::handler(lp, 0, 0, supply, liquidity, last_increase, vault_a, vault_b)
                .unwrap();
        assert!(plan.amount_a <= vault_a);
        assert!(plan.amount_b <= vault_b);
        assert!(plan.decrease.liquidity_amount <= liquidity - last_increase);
    }
}
