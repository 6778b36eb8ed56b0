pub mod collect_fees;
pub mod collect_rewards;
pub mod deposit;
pub mod initialize_vault;
pub mod open_position;
pub mod rebalance;
pub mod reinvest;
pub mod set_market_rewards;
pub mod set_min_slots_for_reinvest;
pub mod set_vault_fee;
pub mod set_vault_pause_status;
pub mod swap_rewards;
pub mod transfer_rewards;
pub mod withdraw;
