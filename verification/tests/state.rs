use ggoldca::error::ErrorCode;
use ggoldca::instructions::{
    initialize_vault, open_position, set_market_rewards, set_min_slots_for_reinvest,
    set_vault_fee, set_vault_pause_status,
};
use ggoldca::state::{
    Bumps, MarketRewards, MarketRewardsInfo, PositionInfo, Pubkey, VaultAccount,
    VaultAccountParams, MAX_POSITIONS,
};
use ggoldca::{admin_pubkey, is_admin, is_paused, treasury_pubkey, FEE_SCALE, VAULT_VERSION};

fn key(n: u128) -> Pubkey {
    Pubkey { hi: 7, lo: n }
}

fn new_vault() -> VaultAccount {
    VaultAccount::new(VaultAccountParams {
        id: 3,
        bumps: Bumps { vault: 254, lp_token_mint: 253 },
        whirlpool_id: key(1),
        input_token_a_mint_pubkey: key(2),
        input_token_b_mint_pubkey: key(3),
        fee: 10,
        min_slots_for_reinvest: 5,
    })
}

#[test]
fn new_vault_is_empty() {
    let vault = new_vault();
    assert_eq!(vault.version, VAULT_VERSION);
    assert_eq!(vault.id, 3);
    assert_eq!(vault.bumps, Bumps { vault: 254, lp_token_mint: 253 });
    assert_eq!(vault.whirlpool_id, key(1));
    assert_eq!(vault.fee, 10);
    assert_eq!(vault.min_slots_for_reinvest, 5);
    assert_eq!(vault.last_liquidity_increase, 0);
    assert!(!vault.is_paused);
    assert!(vault.positions.is_empty());
    assert_eq!(vault.market_rewards, [MarketRewardsInfo::default(); 3]);
    assert_eq!(vault.active_position(), Err(ErrorCode::PositionNonExistence));
    assert!(!vault.position_exists(0, 0));
    assert!(!vault.position_address_exists(Pubkey::default()));
}

#[test]
fn registry_refuses_a_fourth_position_and_a_known_range() {
    let mut vault = new_vault();
    assert_eq!(open_position::check(&vault, -1280, 1280), Ok(()));
    assert_eq!(open_position::handler(&mut vault, key(10), -1280, 1280), Ok(0));
    assert_eq!(open_position::handler(&mut vault, key(11), 0, 64), Ok(1));
    assert_eq!(
        open_position::handler(&mut vault, key(12), -1280, 1280),
        Err(ErrorCode::PositionAlreadyOpened)
    );
    assert_eq!(vault.positions.len(), 2);
    assert_eq!(open_position::handler(&mut vault, key(12), 64, 128), Ok(2));
    assert_eq!(vault.positions.len(), MAX_POSITIONS);
    assert_eq!(
        open_position::handler(&mut vault, key(13), 128, 256),
        Err(ErrorCode::PositionLimitReached)
    );
    assert_eq!(
        open_position::handler(&mut vault, key(13), 0, 64),
        Err(ErrorCode::PositionAlreadyOpened)
    );
    assert_eq!(vault.positions.len(), MAX_POSITIONS);
    assert_eq!(
        open_position::check(&vault, 128, 256),
        Err(ErrorCode::PositionLimitReached)
    );
    assert_eq!(
        open_position::check(&vault, 64, 128),
        Err(ErrorCode::PositionAlreadyOpened)
    );
    assert_eq!(
        vault.positions[2],
        PositionInfo { pubkey: key(12), lower_tick: 64, upper_tick: 128 }
    );
}

#[test]
fn the_first_position_is_the_active_one() {
    let mut vault = new_vault();
    open_position::handler(&mut vault, key(10), -1280, 1280).unwrap();
    open_position::handler(&mut vault, key(11), 0, 64).unwrap();
    open_position::handler(&mut vault, key(12), 64, 128).unwrap();
    assert_eq!(vault.active_position_key(), key(10));
    assert_eq!(
        vault.active_position(),
        Ok(PositionInfo { pubkey: key(10), lower_tick: -1280, upper_tick: 1280 })
    );
    assert!(vault.position_exists(0, 64));
    assert!(!vault.position_exists(0, 63));
    assert!(vault.position_address_exists(key(12)));
    assert!(!vault.position_address_exists(key(13)));
    assert_eq!(vault.position_index(key(12)), Some(2));
    assert_eq!(vault.position_index(key(13)), None);

    vault.update_active_position(key(12));
    assert_eq!(vault.active_position_key(), key(12));
    assert_eq!(vault.positions[2].pubkey, key(10));
    assert_eq!(vault.positions[1].pubkey, key(11));
    assert_eq!(vault.positions.len(), 3);

    assert_eq!(vault.promote(key(12)), Err(ErrorCode::RebalanceIntoActivePosition));
    assert_eq!(vault.promote(key(99)), Err(ErrorCode::PositionNotActive));
    assert_eq!(vault.active_position_key(), key(12));
    assert_eq!(vault.promote(key(11)), Ok(()));
    assert_eq!(vault.active_position_key(), key(11));
    assert_eq!(vault.positions[1].pubkey, key(12));
}

#[test]
fn only_the_known_version_is_read() {
    let mut vault = new_vault();
    assert_eq!(vault.check_version(), Ok(()));
    vault.version = VAULT_VERSION + 1;
    assert_eq!(vault.check_version(), Err(ErrorCode::InvalidVaultVersion));
}

#[test]
fn fee_above_scale_is_refused() {
    let mut vault = new_vault();
    assert_eq!(set_vault_fee::handler(&mut vault, FEE_SCALE), Ok(()));
    assert_eq!(vault.fee, FEE_SCALE);
    assert_eq!(
        set_vault_fee::handler(&mut vault, FEE_SCALE + 1),
        Err(ErrorCode::InvalidFee)
    );
    assert_eq!(vault.fee, FEE_SCALE);
    assert_eq!(set_vault_fee::handler(&mut vault, 0), Ok(()));
    assert_eq!(vault.fee, 0);
}

#[test]
fn setters_set() {
    let mut vault = new_vault();
    assert_eq!(set_min_slots_for_reinvest::handler(&mut vault, 77), Ok(()));
    assert_eq!(vault.min_slots_for_reinvest, 77);
    assert_eq!(set_vault_pause_status::handler(&mut vault, true), Ok(()));
    assert!(vault.is_paused);
    assert_eq!(is_paused(vault.is_paused), Err(ErrorCode::PausedVault));
    assert_eq!(set_vault_pause_status::handler(&mut vault, false), Ok(()));
    assert_eq!(is_paused(vault.is_paused), Ok(()));
}

#[test]
fn only_the_admin_is_admin() {
    assert_eq!(is_admin(&admin_pubkey()), Ok(()));
    assert_eq!(is_admin(&treasury_pubkey()), Err(ErrorCode::UnauthorizedUser));
    assert_eq!(is_admin(&Pubkey::default()), Err(ErrorCode::UnauthorizedUser));
    assert_eq!(admin_pubkey().hi >> 120, 191);
    assert_eq!(admin_pubkey().lo & 0xff, 136);
    assert_eq!(treasury_pubkey().hi >> 120, 111);
    assert_eq!(treasury_pubkey().lo & 0xff, 152);
}

#[test]
fn a_vault_is_made_for_the_pools_mints() {
    let bumps = Bumps { vault: 1, lp_token_mint: 2 };
    let made = initialize_vault::handler(0, bumps, key(1), key(2), key(3), key(2), key(3), 10, 5)
        .unwrap();
    assert_eq!(made.input_token_a_mint_pubkey, key(2));
    assert_eq!(made.input_token_b_mint_pubkey, key(3));
    assert_eq!(made.fee, 10);
    assert_eq!(made.min_slots_for_reinvest, 5);
    assert!(made.positions.is_empty());
    assert_eq!(
        initialize_vault::handler(0, bumps, key(1), key(2), key(3), key(3), key(2), 10, 5)
            .unwrap_err(),
        ErrorCode::InvalidInputMint
    );
    assert_eq!(
        initialize_vault::handler(0, bumps, key(1), key(2), key(3), key(2), key(4), 10, 5)
            .unwrap_err(),
        ErrorCode::InvalidInputMint
    );
    assert_eq!(
        initialize_vault::handler(0, bumps, key(1), key(2), key(3), key(2), key(3), 101, 5)
            .unwrap_err(),
        ErrorCode::InvalidFee
    );
}

#[test]
fn market_entries_are_validated() {
    let a = key(2);
    let b = key(3);
    let reward = key(20);
    let entry = |id: MarketRewards, min_amount_out: u64| MarketRewardsInfo {
        id,
        rewards_mint: reward,
        destination_token_account: key(30),
        min_amount_out,
    };
    assert_eq!(MarketRewardsInfo::default().validate(key(9), a, b), Ok(()));
    assert_eq!(entry(MarketRewards::NotSet, 0).validate(key(9), a, b), Ok(()));
    assert_eq!(entry(MarketRewards::Transfer, 0).validate(reward, a, b), Ok(()));
    assert_eq!(
        entry(MarketRewards::Transfer, 0).validate(a, a, b),
        Err(ErrorCode::MarketInvalidDestination)
    );
    assert_eq!(entry(MarketRewards::OrcaV2, 1).validate(a, a, b), Ok(()));
    assert_eq!(entry(MarketRewards::Whirlpool, 1).validate(b, a, b), Ok(()));
    assert_eq!(
        entry(MarketRewards::Whirlpool, 1).validate(reward, a, b),
        Err(ErrorCode::MarketInvalidDestination)
    );
    assert_eq!(
        entry(MarketRewards::OrcaV2, 0).validate(a, a, b),
        Err(ErrorCode::MarketInvalidZeroAmount)
    );
    let sells_input = MarketRewardsInfo {
        id: MarketRewards::OrcaV2,
        rewards_mint: a,
        destination_token_account: key(30),
        min_amount_out: 1,
    };
    assert_eq!(sells_input.validate(b, a, b), Err(ErrorCode::MarketInvalidMint));
}

#[test]
fn market_entry_goes_to_the_place_of_its_reward() {
    let mut vault = new_vault();
    let reward_mints = [key(20), key(21), Pubkey::default()];
    let input = set_market_rewards::MarketRewardsInfoInput {
        id: MarketRewards::Whirlpool,
        min_amount_out: 9,
    };
    assert_eq!(
        set_market_rewards::handler(&mut vault, input, &reward_mints, key(21), key(30), key(2)),
        Ok(())
    );
    assert_eq!(
        vault.market_rewards[1],
        MarketRewardsInfo {
            id: MarketRewards::Whirlpool,
            rewards_mint: key(21),
            destination_token_account: key(30),
            min_amount_out: 9,
        }
    );
    assert_eq!(vault.market_rewards[0], MarketRewardsInfo::default());
    assert_eq!(vault.market_rewards[2], MarketRewardsInfo::default());
    assert_eq!(vault.market_for(key(21)), Some(vault.market_rewards[1]));
    assert_eq!(vault.market_for(key(20)), None);
    assert_eq!(
        set_market_rewards::handler(&mut vault, input, &reward_mints, key(22), key(30), key(2)),
        Err(ErrorCode::InvalidRewardMint)
    );
    assert_eq!(
        set_market_rewards::handler(&mut vault, input, &reward_mints, key(20), key(30), key(9)),
        Err(ErrorCode::MarketInvalidDestination)
    );
    assert_eq!(vault.market_rewards[0], MarketRewardsInfo::default());
    assert_eq!(set_market_rewards::reward_index(&reward_mints, key(20)), Some(0));
    assert_eq!(set_market_rewards::reward_index(&reward_mints, key(5)), None);
}
