//! The reasons for which an operation of the protocol is refused.

use vstd::prelude::*;
use crate::config::VaultType;

verus! {

/// Why an operation was refused.
#[derive(Clone, Debug, PartialEq, Eq)]
pub enum ContractError {
    // configuration
    InvalidBaseDecimals,
    InvalidPowerDecimals,
    DuplicateAssetDenom(String),
    InvalidStakeAssetDecimals(String),
    InvalidFeeRate,
    ZeroMinCollateral,
    InvalidIndexScale,
    InvalidFundingPeriod,
    SameBaseAndPowerDenom,
    SameBaseAndPowerPool,
    InvalidDecimalString,
    StakedAssetNotFound,
    NotStakedAsset(String),
    StakingNotEnabled,
    StakePoolNotConfigured,
    // contract state
    NotOpenForAction,
    PausedForAction,
    UnpausedForAction,
    Unauthorized,
    IsOpen,
    NotOpen,
    NotExpired,
    NotTokenAdmin,
    // vaults
    VaultNotFound(u64),
    VaultDoesNotExist(u64),
    /// The stored vault's type, the type of the collateral sent, and the vault.
    VaultTypeDoesNotMatch(VaultType, VaultType, u64),
    OperatorDoesNotMatch,
    VaultTypeMismatch,
    VaultHasShortExposure(u64),
    VaultHasCollateral(u64),
    BurnExceedsVault,
    SubtractExceedsCollateral,
    MustSendCollateralToNewVault,
    UnsafeVault,
    SafeVault,
    BelowMinCollateralAmount,
    NoEmptyVaults,
    // payments and amounts
    ZeroMint,
    InvalidFunds,
    NonPayable,
    MissingDenom(String),
    ExtraDenom(String),
    MultipleDenoms,
    NoFunds,
    FailedToGetBaseCollateral,
    TooManyCoins,
    InvalidSlippage,
    InvalidTokenAmount,
    Overflow,
    FundingFailed,
    DivideByZero,
    InvalidLiquidation,
    UnprofitableLiquidation,
    // swap replies
    SubMsgError(String),
    InvalidReplyData,
    InvalidAmount,
    // fee collector
    TokenAlreadyAdded,
    TokenCapacityReached,
    NoTokensStored,
    TokenNotAdded,
    ZeroTransfer,
    InvalidDenom(String),
    TokenUnsupported(String),
    InsufficientBalance,
    InvalidAddress,
    // ownership
    ProposalNotFound,
    Expired,
}

} // verus!
