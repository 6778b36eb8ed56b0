use vstd::prelude::*;

verus! {

/// Every way an operation of the vault can fail.
#[derive(Clone, Copy, Debug, PartialEq, Eq, Structural)]
pub enum ErrorCode {
    /// Math overflow during add
    MathOverflowAdd,
    /// Math overflow during sub
    MathOverflowSub,
    /// Math overflow during mul
    MathOverflowMul,
    /// Math division by zero
    MathZeroDivision,
    /// Math overflow during type conversion
    MathOverflowConversion,
    /// Invalid vault version
    InvalidVaultVersion,
    /// Unauthorized user
    UnauthorizedUser,
    /// The smart contract is paused
    PausedSmartContract,
    /// The provided vault is paused
    PausedVault,
    /// Not enough elapsed slots since last call
    NotEnoughSlots,
    /// Fee cannot exceed FEE_SCALE
    InvalidFee,
    /// Market rewards input invalid destination account mint
    MarketInvalidDestination,
    /// Market rewards input tokens not allowed
    MarketInvalidMint,
    /// Market rewards input zero min_amount_out not allowed
    MarketInvalidZeroAmount,
    /// LP amount must be greater than zero
    ZeroLpAmount,
    /// Exceeded token max
    ExceededTokenMax,
    /// Invalid destination token account
    InvalidDestinationAccount,
    /// Invalid input token mint pubkey
    InvalidInputMint,
    /// Invalid reward token mint pubkey
    InvalidRewardMint,
    /// Position already opened
    PositionAlreadyOpened,
    /// Position limit reached
    PositionLimitReached,
    /// Position is not active
    PositionNotActive,
    /// Position does not exist
    PositionNonExistence,
    /// Cannot rebalance into the active position
    RebalanceIntoActivePosition,
    /// Missing reinvest instruction after rebalance
    MissingReinvest,
    /// Invalid instruction data
    InvalidIxData,
    /// Not enough fees generated yet
    NotEnoughFees,
    /// Not enough rewards generated yet
    NotEnoughRewards,
    /// Invalid number of accounts
    InvalidNumberOfAccounts,
    /// Swap is not set for the current rewards
    SwapNotSet,
    /// Invalid swap program ID
    SwapInvalidProgramId,
    /// Transfer is not set for the current rewards
    TransferNotSet,
    /// Liquidity amount must be less than i64::MAX
    WhirlpoolLiquidityTooHigh,
    /// Overflow while computing liquidity to token deltas
    WhirlpoolLiquidityToDeltasOverflow,
}

} // verus!
