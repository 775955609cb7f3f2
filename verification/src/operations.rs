//! The protocol's user operations as decisions on values: minting against a
//! vault, burning, depositing, withdrawing and liquidating. Each takes the
//! stored state, config and vault and the prices read for the block, and
//! gives the values to store and the transfers to make, or why the
//! operation is refused.
//!
//! A value out of range that is computed after funding is applied (such
//! values depend on the funding power) is reported as `Overflow`, and a
//! funding power that cannot be read back as `FundingFailed`.

use vstd::prelude::*;
use crate::config::{Config, VaultType, config_valid, same_vault_type};
use crate::error::ContractError;
use crate::funding::{apply_funding_rate, apply_funding_result, funding_defined};
use crate::helpers::{
    collateral_asset_result, get_collateral_from_vault_type, liquidation_results,
    liquidation_results_defined, try_get_liquidation_results,
    fee_defined, fee_result, get_rebase_mint_amount, get_vault_collateral, rebase_mint_result,
    try_calculate_fee, vault_collateral_result,
};
use crate::math::{Decimal, Timestamp, decimal_to_fixed, fits_u128, from_atomics_value, to_fixed_value};
use crate::payment::{
    Coin, get_sent_collateral_and_vault_type, must_pay, must_pay_result, nonpayable,
    nonpayable_result, sent_collateral_result,
};
use crate::state::{State, open_and_unpaused_result};
use crate::vault::{
    Vault, burn_vault, find_stake_asset, burn_vault_result, subtract_collateral, subtract_collateral_result,
    remove_vault_result, status_above_min, status_defined, status_solvent, try_calculate_status,
};

verus! {

/// The prices an operation reads for the current block.
#[derive(Clone, Copy, Debug)]
pub struct Prices {
    /// Scaled quote TWAP over the funding window.
    pub funding_quote: Decimal,
    /// Power TWAP over the funding window.
    pub funding_power: Decimal,
    /// Scaled quote TWAP over the recent TWAP period.
    pub quote: Decimal,
    /// Power TWAP over the recent TWAP period.
    pub power: Decimal,
    /// TWAP of the vault's staked asset; `None` while staking is disabled.
    pub stake: Option<Decimal>,
}

/// How freshly minted power tokens are delivered.
#[derive(Clone, Copy, Debug, PartialEq, Eq, Structural)]
pub enum MintDelivery {
    /// Minted to the contract and sold in a follow-up swap.
    SellThroughContract,
    /// Minted straight to the sender.
    ToSender,
}

/// What a successful mint stores and sends.
#[derive(Clone, Debug)]
pub struct MintOutcome {
    pub state: State,
    pub normalisation_factor: Decimal,
    pub vault_id: u64,
    pub vault: Vault,
    pub vault_count: u64,
    pub vault_type: VaultType,
    pub collateral_sent: u128,
    pub mint_amount: u128,
    pub delivery: MintDelivery,
    pub fee_amount: Decimal,
    /// The fee paid to the fee pool: denom and amount.
    pub fee_transfer: Option<(String, u128)>,
}

/// Which vault a mint goes into: the given one (whose type must match the
/// collateral sent, if any) or a new one when collateral is sent without a
/// vault id. Gives its id, the vault, its type and the new vault counter.
pub open spec fn mint_vault_choice(
    vault_id: Option<u64>,
    sent_type: Option<VaultType>,
    existing: Option<Vault>,
    count: u64,
    sender: String,
) -> Result<(u64, Vault, VaultType, u64), ContractError> {
    match vault_id {
        Some(id) => match existing {
            None => Err(ContractError::VaultDoesNotExist(id)),
            Some(v) => match sent_type {
                Some(t) => if !same_vault_type(t, v.vault_type) {
                    Err(ContractError::VaultTypeDoesNotMatch(v.vault_type, t, id))
                } else {
                    Ok((id, v, v.vault_type, count))
                },
                None => Ok((id, v, v.vault_type, count)),
            },
        },
        None => match sent_type {
            Some(t) => if count == u64::MAX {
                Err(ContractError::Overflow)
            } else {
                Ok((
                    (count + 1) as u64,
                    Vault { operator: sender, collateral: 0, short_amount: 0, vault_type: t },
                    t,
                    (count + 1) as u64,
                ))
            },
            None => Err(ContractError::MustSendCollateralToNewVault),
        },
    }
}

/// Adding the deposit left after fees and the minted debt to the vault,
/// with `Overflow` where the sums leave the range.
pub open spec fn mint_update(v: Vault, sender: Seq<char>, vault_type: VaultType, collateral: int, short_amount: int) -> Result<Vault, ContractError> {
    if sender != v.operator@ {
        Err(ContractError::OperatorDoesNotMatch)
    } else if !same_vault_type(vault_type, v.vault_type) {
        Err(ContractError::VaultTypeMismatch)
    } else if !fits_u128(collateral) || !fits_u128(v.collateral + collateral) || !fits_u128(v.short_amount + short_amount) {
        Err(ContractError::Overflow)
    } else {
        Ok(Vault {
            collateral: (v.collateral + collateral) as u128,
            short_amount: (v.short_amount + short_amount) as u128,
            ..v
        })
    }
}

/// The settlement of a mint once the vault is chosen: the fee, the vault
/// update, the safety and minimum-collateral checks, and the fee transfer.
pub open spec fn mint_settle(
    config: Config,
    sender: String,
    sent: (u128, Option<VaultType>),
    funded: (State, Decimal),
    amount: u128,
    choice: (u64, Vault, VaultType, u64),
    should_sell: bool,
    prices: Prices,
) -> Result<MintOutcome, ContractError> {
    let power_amount = from_atomics_value(amount as int, config.power_asset.decimals as nat);
    let deposit = from_atomics_value(sent.0 as int, config.base_asset.decimals as nat);
    if !fits_u128(power_amount) || !fits_u128(deposit) {
        Err(ContractError::Overflow)
    } else if !fee_defined(config, choice.2, Decimal { atomics: power_amount as u128 }, prices.power, prices.stake) {
        Err(ContractError::Overflow)
    } else {
        match fee_result(
            config,
            sender@,
            choice.1,
            choice.2,
            Decimal { atomics: power_amount as u128 },
            Decimal { atomics: deposit as u128 },
            prices.power,
            prices.stake,
        ) {
            Err(e) => Err(e),
            Ok(fee) => match mint_update(
                fee.2,
                sender@,
                choice.2,
                to_fixed_value(fee.1, config.base_asset.decimals as nat),
                amount as int,
            ) {
                Err(e) => Err(e),
                Ok(v) => if !status_defined(config, v, funded.1, prices.quote, prices.stake) {
                    Err(ContractError::Overflow)
                } else if !status_solvent(config, v, funded.1, prices.quote, prices.stake) {
                    Err(ContractError::UnsafeVault)
                } else if !status_above_min(config, v) {
                    Err(ContractError::BelowMinCollateralAmount)
                } else if fee.0.atomics != 0 && vault_collateral_result(config, choice.2) is Err {
                    Err(ContractError::StakingNotEnabled)
                } else {
                    Ok(MintOutcome {
                        state: funded.0,
                        normalisation_factor: funded.1,
                        vault_id: choice.0,
                        vault: v,
                        vault_count: choice.3,
                        vault_type: choice.2,
                        collateral_sent: sent.0,
                        mint_amount: amount,
                        delivery: if should_sell { MintDelivery::SellThroughContract } else { MintDelivery::ToSender },
                        fee_amount: fee.0,
                        fee_transfer: if fee.0.atomics == 0 {
                            None
                        } else {
                            Some((
                                vault_collateral_result(config, choice.2)->Ok_0,
                                to_fixed_value(fee.0, config.base_asset.decimals as nat) as u128,
                            ))
                        },
                    })
                },
            },
        }
    }
}

/// The whole mint: the run-state gate, a non-zero amount, the collateral
/// sent, funding, the rebased amount, the vault, then its settlement.
pub open spec fn mint_result(
    state: State,
    config: Config,
    sender: String,
    funds: Seq<Coin>,
    mint_amount: u128,
    vault_id: Option<u64>,
    rebase: bool,
    should_sell: bool,
    existing: Option<Vault>,
    vault_count: u64,
    now: Timestamp,
    prices: Prices,
) -> Result<MintOutcome, ContractError> {
    match open_and_unpaused_result(state) {
        Err(e) => Err(e),
        Ok(_) => if mint_amount == 0 {
            Err(ContractError::ZeroMint)
        } else {
            match sent_collateral_result(funds, config) {
                Err(_) => Err(ContractError::InvalidFunds),
                Ok(sent) => match apply_funding_result(state, now, prices.funding_quote, prices.funding_power) {
                    None => Err(ContractError::FundingFailed),
                    Some(funded) => match rebase_mint_result(mint_amount, funded.1, config.base_asset.decimals, rebase) {
                        Err(e) => Err(e),
                        Ok(amount) => match mint_vault_choice(vault_id, sent.1, existing, vault_count, sender) {
                            Err(e) => Err(e),
                            Ok(choice) => mint_settle(config, sender, sent, funded, amount, choice, should_sell, prices),
                        },
                    },
                },
            }
        },
    }
}

/// Chooses the vault a mint goes into.
fn choose_mint_vault(
    vault_id: Option<u64>,
    sent_type: &Option<VaultType>,
    existing: &Option<Vault>,
    vault_count: u64,
    sender: &String,
) -> (r: Result<(u64, Vault, VaultType, u64), ContractError>)
    ensures
        r == mint_vault_choice(vault_id, *sent_type, *existing, vault_count, *sender),
{
    match vault_id {
        Some(id) => {
            let v = match existing {
                None => { return Err(ContractError::VaultDoesNotExist(id)); },
                Some(v) => v.duplicate(),
            };
            match sent_type {
                Some(t) => {
                    if !crate::config::vault_type_eq(t, &v.vault_type) {
                        return Err(ContractError::VaultTypeDoesNotMatch(v.vault_type.duplicate(), t.duplicate(), id));
                    }
                },
                None => {},
            }
            let t = v.vault_type.duplicate();
            Ok((id, v, t, vault_count))
        },
        None => match sent_type {
            Some(t) => {
                if vault_count == u64::MAX {
                    return Err(ContractError::Overflow);
                }
                let (new_id, v) = crate::vault::create_vault(vault_count, sender.clone(), t.duplicate());
                Ok((new_id, v, t.duplicate(), new_id))
            },
            None => Err(ContractError::MustSendCollateralToNewVault),
        },
    }
}

/// Adds the deposit and the minted debt to the vault.
fn apply_mint_update(v: &Vault, sender: &String, vault_type: &VaultType, collateral: u128, short_amount: u128) -> (r: Result<Vault, ContractError>)
    ensures
        r == mint_update(*v, sender@, *vault_type, collateral as int, short_amount as int),
{
    if !sender.eq(&v.operator) {
        return Err(ContractError::OperatorDoesNotMatch);
    }
    if !crate::config::vault_type_eq(vault_type, &v.vault_type) {
        return Err(ContractError::VaultTypeMismatch);
    }
    let new_collateral = match v.collateral.checked_add(collateral) {
        Some(x) => x,
        None => { return Err(ContractError::Overflow); },
    };
    let new_short = match v.short_amount.checked_add(short_amount) {
        Some(x) => x,
        None => { return Err(ContractError::Overflow); },
    };
    Ok(Vault {
        operator: v.operator.clone(),
        collateral: new_collateral,
        short_amount: new_short,
        vault_type: v.vault_type.duplicate(),
    })
}

/// Settles a mint into the chosen vault.
fn settle_mint(
    config: &Config,
    sender: &String,
    sent: (u128, Option<VaultType>),
    funded: (State, Decimal),
    amount: u128,
    choice: (u64, Vault, VaultType, u64),
    should_sell: bool,
    prices: &Prices,
) -> (r: Result<MintOutcome, ContractError>)
    requires
        config_valid(*config),
    ensures
        r == mint_settle(*config, *sender, sent, funded, amount, choice, should_sell, *prices),
{
    let (id, current, vault_type, count) = choice;
    let power_amount = match crate::math::decimal_from_atomics(amount, config.power_asset.decimals) {
        Some(d) => d,
        None => { return Err(ContractError::Overflow); },
    };
    let deposit_amount = match crate::math::decimal_from_atomics(sent.0, config.base_asset.decimals) {
        Some(d) => d,
        None => { return Err(ContractError::Overflow); },
    };
    let (fee_amount, collateral_with_fee, charged) = match try_calculate_fee(
        config,
        sender,
        current,
        &vault_type,
        power_amount,
        deposit_amount,
        prices.power,
        prices.stake,
    ) {
        None => { return Err(ContractError::Overflow); },
        Some(res) => res?,
    };
    let added_collateral = decimal_to_fixed(collateral_with_fee, config.base_asset.decimals);
    let updated = apply_mint_update(&charged, sender, &vault_type, added_collateral, amount)?;
    let (is_safe, above_min, _) = match try_calculate_status(config, &updated, funded.1, prices.quote, prices.stake) {
        Some(x) => x,
        None => { return Err(ContractError::Overflow); },
    };
    if !is_safe {
        return Err(ContractError::UnsafeVault);
    }
    if !above_min {
        return Err(ContractError::BelowMinCollateralAmount);
    }
    let fee_transfer = if fee_amount.is_zero() {
        None
    } else {
        let denom = get_vault_collateral(config, &vault_type)?;
        Some((denom, decimal_to_fixed(fee_amount, config.base_asset.decimals)))
    };
    Ok(MintOutcome {
        state: funded.0,
        normalisation_factor: funded.1,
        vault_id: id,
        vault: updated,
        vault_count: count,
        vault_type,
        collateral_sent: sent.0,
        mint_amount: amount,
        delivery: if should_sell { MintDelivery::SellThroughContract } else { MintDelivery::ToSender },
        fee_amount,
        fee_transfer,
    })
}

/// Mints `mint_amount` power tokens (rebased by the normalisation factor
/// when `rebase`) against a vault: the given vault `vault_id` (whose stored
/// value is `existing`), or a new one for the collateral sent. Charges the
/// minting fee and requires the vault to stay safe and above the minimum
/// collateral.
pub fn mint(
    state: &State,
    config: &Config,
    sender: &String,
    funds: &Vec<Coin>,
    mint_amount: u128,
    vault_id: Option<u64>,
    rebase: bool,
    should_sell: bool,
    existing: &Option<Vault>,
    vault_count: u64,
    block_time: Timestamp,
    prices: &Prices,
) -> (r: Result<MintOutcome, ContractError>)
    requires
        config_valid(*config),
        open_and_unpaused_result(*state) is Ok && mint_amount != 0 && sent_collateral_result(funds@, *config) is Ok
            && state.last_funding_update.secs() != block_time.secs()
            ==> funding_defined(*state, block_time, prices.funding_quote, prices.funding_power),
    ensures
        r == mint_result(*state, *config, *sender, funds@, mint_amount, vault_id, rebase, should_sell, *existing, vault_count, block_time, *prices),
{
    state.is_open_and_unpaused()?;
    if mint_amount == 0 {
        return Err(ContractError::ZeroMint);
    }
    let sent = match get_sent_collateral_and_vault_type(funds, config) {
        Ok(x) => x,
        Err(_) => { return Err(ContractError::InvalidFunds); },
    };
    let funded = match apply_funding_rate(state, block_time, prices.funding_quote, prices.funding_power) {
        Some(x) => x,
        None => { return Err(ContractError::FundingFailed); },
    };
    let rebase_mint_amount = get_rebase_mint_amount(mint_amount, funded.1, config.base_asset.decimals, rebase)?;
    let choice = choose_mint_vault(vault_id, &sent.1, existing, vault_count, sender)?;
    settle_mint(config, sender, sent, funded, rebase_mint_amount, choice, should_sell, prices)
}


/// The check that a vault is safe after an operation: `Overflow` where its
/// status leaves the decimal range, `UnsafeVault` when it is insolvent.
pub open spec fn safety_check(c: Config, v: Vault, nf: Decimal, prices: Prices) -> Result<(), ContractError> {
    if !status_defined(c, v, nf, prices.quote, prices.stake) {
        Err(ContractError::Overflow)
    } else if !status_solvent(c, v, nf, prices.quote, prices.stake) {
        Err(ContractError::UnsafeVault)
    } else {
        Ok(())
    }
}

/// The safety check, and then the minimum-collateral check.
pub open spec fn safety_and_min_check(c: Config, v: Vault, nf: Decimal, prices: Prices) -> Result<(), ContractError> {
    match safety_check(c, v, nf, prices) {
        Err(e) => Err(e),
        Ok(_) => if !status_above_min(c, v) {
            Err(ContractError::BelowMinCollateralAmount)
        } else {
            Ok(())
        },
    }
}

fn check_safe(config: &Config, vault: &Vault, nf: Decimal, prices: &Prices) -> (r: Result<(), ContractError>)
    ensures
        r == safety_check(*config, *vault, nf, *prices),
{
    match try_calculate_status(config, vault, nf, prices.quote, prices.stake) {
        None => Err(ContractError::Overflow),
        Some((is_safe, _, _)) => if is_safe { Ok(()) } else { Err(ContractError::UnsafeVault) },
    }
}

fn check_safe_and_min(config: &Config, vault: &Vault, nf: Decimal, prices: &Prices) -> (r: Result<(), ContractError>)
    ensures
        r == safety_and_min_check(*config, *vault, nf, *prices),
{
    match try_calculate_status(config, vault, nf, prices.quote, prices.stake) {
        None => Err(ContractError::Overflow),
        Some((is_safe, above_min, _)) => if !is_safe {
            Err(ContractError::UnsafeVault)
        } else if !above_min {
            Err(ContractError::BelowMinCollateralAmount)
        } else {
            Ok(())
        },
    }
}

/// What a successful burn stores and sends.
#[derive(Clone, Debug)]
pub struct BurnOutcome {
    pub state: State,
    pub normalisation_factor: Decimal,
    pub vault: Vault,
    /// Power tokens burnt from the contract.
    pub amount_burned: u128,
    /// Collateral returned to the sender: denom and amount.
    pub withdrawal: Option<(String, u128)>,
}

pub open spec fn withdraw_or_zero(amount: Option<u128>) -> u128 {
    match amount {
        Some(a) => a,
        None => 0,
    }
}

/// The whole burn: the run-state gate, an existing vault, the power tokens
/// sent, funding, taking debt and collateral out of the vault, the safety
/// check and the collateral returned.
pub open spec fn burn_result(
    state: State,
    config: Config,
    sender: String,
    funds: Seq<Coin>,
    amount_to_withdraw: Option<u128>,
    vault_id: u64,
    existing: Option<Vault>,
    now: Timestamp,
    prices: Prices,
) -> Result<BurnOutcome, ContractError> {
    match open_and_unpaused_result(state) {
        Err(e) => Err(e),
        Ok(_) => match existing {
            None => Err(ContractError::VaultDoesNotExist(vault_id)),
            Some(v) => match must_pay_result(funds, config.power_asset.denom) {
                Err(_) => Err(ContractError::InvalidFunds),
                Ok(burned) => if burned == 0 {
                    Err(ContractError::InvalidFunds)
                } else {
                    match apply_funding_result(state, now, prices.funding_quote, prices.funding_power) {
                        None => Err(ContractError::FundingFailed),
                        Some(funded) => match burn_vault_result(v, sender@, withdraw_or_zero(amount_to_withdraw), burned) {
                            Err(e) => Err(e),
                            Ok(w) => match safety_check(config, w, funded.1, prices) {
                                Err(e) => Err(e),
                                Ok(_) => if withdraw_or_zero(amount_to_withdraw) != 0
                                    && vault_collateral_result(config, w.vault_type) is Err {
                                    Err(ContractError::StakingNotEnabled)
                                } else {
                                    Ok(BurnOutcome {
                                        state: funded.0,
                                        normalisation_factor: funded.1,
                                        vault: w,
                                        amount_burned: burned,
                                        withdrawal: if withdraw_or_zero(amount_to_withdraw) == 0 {
                                            None
                                        } else {
                                            Some((vault_collateral_result(config, w.vault_type)->Ok_0, withdraw_or_zero(amount_to_withdraw)))
                                        },
                                    })
                                },
                            },
                        },
                    }
                },
            },
        },
    }
}

/// Burns the power tokens sent against the vault `vault_id` (stored value
/// `existing`) and returns `amount_to_withdraw` of its collateral; the
/// vault must stay safe.
pub fn burn(
    state: &State,
    config: &Config,
    sender: &String,
    funds: &Vec<Coin>,
    amount_to_withdraw: Option<u128>,
    vault_id: u64,
    existing: &Option<Vault>,
    block_time: Timestamp,
    prices: &Prices,
) -> (r: Result<BurnOutcome, ContractError>)
    requires
        open_and_unpaused_result(*state) is Ok && existing is Some && must_pay_result(funds@, config.power_asset.denom) is Ok
            && state.last_funding_update.secs() != block_time.secs()
            ==> funding_defined(*state, block_time, prices.funding_quote, prices.funding_power),
    ensures
        r == burn_result(*state, *config, *sender, funds@, amount_to_withdraw, vault_id, *existing, block_time, *prices),
{
    state.is_open_and_unpaused()?;
    let current = match existing {
        None => { return Err(ContractError::VaultDoesNotExist(vault_id)); },
        Some(v) => v,
    };
    let withdraw = match amount_to_withdraw {
        Some(a) => a,
        None => 0,
    };
    let amount_to_burn = match must_pay(funds, &config.power_asset.denom) {
        Ok(a) => a,
        Err(_) => { return Err(ContractError::InvalidFunds); },
    };
    if amount_to_burn == 0 {
        return Err(ContractError::InvalidFunds);
    }
    let funded = match apply_funding_rate(state, block_time, prices.funding_quote, prices.funding_power) {
        Some(x) => x,
        None => { return Err(ContractError::FundingFailed); },
    };
    let burnt = burn_vault(current, sender, withdraw, amount_to_burn)?;
    check_safe(config, &burnt, funded.1, prices)?;
    let withdrawal = if withdraw == 0 {
        None
    } else {
        let denom = get_vault_collateral(config, &burnt.vault_type)?;
        Some((denom, withdraw))
    };
    Ok(BurnOutcome {
        state: funded.0,
        normalisation_factor: funded.1,
        vault: burnt,
        amount_burned: amount_to_burn,
        withdrawal,
    })
}

/// What a successful liquidation stores and sends.
#[derive(Clone, Debug)]
pub struct LiquidationOutcome {
    pub state: State,
    pub normalisation_factor: Decimal,
    pub vault: Vault,
    /// Power tokens burnt from the liquidator.
    pub liquidation_amount: u128,
    /// Collateral paid to the liquidator.
    pub collateral_to_pay: u128,
    /// The denom of that collateral.
    pub collateral_denom: String,
}

/// The whole liquidation: the run-state gate, an existing vault and its
/// collateral asset, no funds sent, funding, an unsafe vault, the amounts,
/// the repayment and profitability limits, and the vault's reduction.
pub open spec fn liquidate_result(
    state: State,
    config: Config,
    funds: Seq<Coin>,
    max_debt_amount: u128,
    vault_id: u64,
    existing: Option<Vault>,
    min_amount_to_pay: Option<u128>,
    now: Timestamp,
    prices: Prices,
) -> Result<LiquidationOutcome, ContractError> {
    match open_and_unpaused_result(state) {
        Err(e) => Err(e),
        Ok(_) => match existing {
            None => Err(ContractError::VaultDoesNotExist(vault_id)),
            Some(v) => match collateral_asset_result(config, v.vault_type) {
                Err(e) => Err(e),
                Ok(asset) => match nonpayable_result(funds) {
                    Err(_) => Err(ContractError::NonPayable),
                    Ok(_) => match apply_funding_result(state, now, prices.funding_quote, prices.funding_power) {
                        None => Err(ContractError::FundingFailed),
                        Some(funded) => if !status_defined(config, v, funded.1, prices.quote, prices.stake) {
                            Err(ContractError::Overflow)
                        } else if status_solvent(config, v, funded.1, prices.quote, prices.stake) {
                            Err(ContractError::SafeVault)
                        } else if !liquidation_results_defined(config, max_debt_amount, v, prices.power, prices.stake) {
                            Err(ContractError::Overflow)
                        } else {
                            let res = liquidation_results(config, max_debt_amount, v, prices.power, prices.stake);
                            if max_debt_amount < res.0 {
                                Err(ContractError::InvalidLiquidation)
                            } else if min_amount_to_pay matches Some(m) && res.1 < m {
                                Err(ContractError::UnprofitableLiquidation)
                            } else {
                                match burn_vault_result(v, v.operator@, res.1, res.0) {
                                    Err(e) => Err(e),
                                    Ok(w) => Ok(LiquidationOutcome {
                                        state: funded.0,
                                        normalisation_factor: funded.1,
                                        vault: w,
                                        liquidation_amount: res.0,
                                        collateral_to_pay: res.1,
                                        collateral_denom: asset.denom,
                                    }),
                                }
                            }
                        },
                    },
                },
            },
        },
    }
}

/// Liquidates an unsafe vault: burns up to `max_debt_amount` of the
/// liquidator's power tokens against it and pays the liquidator the
/// collateral owed with its bounty, which must reach `min_amount_to_pay`
/// when given.
pub fn liquidate(
    state: &State,
    config: &Config,
    funds: &Vec<Coin>,
    max_debt_amount: u128,
    vault_id: u64,
    existing: &Option<Vault>,
    min_amount_to_pay: Option<u128>,
    block_time: Timestamp,
    prices: &Prices,
) -> (r: Result<LiquidationOutcome, ContractError>)
    requires
        open_and_unpaused_result(*state) is Ok && existing is Some ==> {
            &&& (existing->0.vault_type is Staked ==> config.stake_assets is Some)
            &&& (collateral_asset_result(*config, existing->0.vault_type) is Ok && funds@.len() == 0
                && state.last_funding_update.secs() != block_time.secs()
                ==> funding_defined(*state, block_time, prices.funding_quote, prices.funding_power))
        },
    ensures
        r == liquidate_result(*state, *config, funds@, max_debt_amount, vault_id, *existing, min_amount_to_pay, block_time, *prices),
{
    state.is_open_and_unpaused()?;
    let current = match existing {
        None => { return Err(ContractError::VaultDoesNotExist(vault_id)); },
        Some(v) => v,
    };
    let asset = get_collateral_from_vault_type(config, &current.vault_type)?;
    match nonpayable(funds) {
        Ok(()) => {},
        Err(_) => { return Err(ContractError::NonPayable); },
    }
    let funded = match apply_funding_rate(state, block_time, prices.funding_quote, prices.funding_power) {
        Some(x) => x,
        None => { return Err(ContractError::FundingFailed); },
    };
    match try_calculate_status(config, current, funded.1, prices.quote, prices.stake) {
        None => { return Err(ContractError::Overflow); },
        Some((is_safe, _, _)) => {
            if is_safe {
                return Err(ContractError::SafeVault);
            }
        },
    }
    let (liquidation_amount, collateral_to_pay, _) = match try_get_liquidation_results(
        config,
        max_debt_amount,
        current,
        prices.power,
        prices.stake,
    ) {
        Some(x) => x,
        None => { return Err(ContractError::Overflow); },
    };
    if max_debt_amount < liquidation_amount {
        return Err(ContractError::InvalidLiquidation);
    }
    match min_amount_to_pay {
        Some(m) => {
            if collateral_to_pay < m {
                return Err(ContractError::UnprofitableLiquidation);
            }
        },
        None => {},
    }
    let operator = current.operator.clone();
    let reduced = burn_vault(current, &operator, collateral_to_pay, liquidation_amount)?;
    Ok(LiquidationOutcome {
        state: funded.0,
        normalisation_factor: funded.1,
        vault: reduced,
        liquidation_amount,
        collateral_to_pay,
        collateral_denom: asset.denom,
    })
}

/// What a successful deposit or withdrawal stores, and the amount moved.
#[derive(Clone, Debug)]
pub struct CollateralOutcome {
    pub state: State,
    pub normalisation_factor: Decimal,
    pub vault: Vault,
    pub amount: u128,
    /// The collateral's denom.
    pub denom: String,
}

/// Adding collateral, with `Overflow` where the sum leaves the range.
pub open spec fn deposit_update(v: Vault, sender: Seq<char>, amount: u128) -> Result<Vault, ContractError> {
    if sender != v.operator@ {
        Err(ContractError::OperatorDoesNotMatch)
    } else if !fits_u128(v.collateral + amount) {
        Err(ContractError::Overflow)
    } else {
        Ok(Vault { collateral: (v.collateral + amount) as u128, ..v })
    }
}

/// The whole deposit: the run-state gate, an existing vault and its
/// collateral asset, the collateral sent, funding, the vault update and the
/// safety and minimum-collateral checks.
pub open spec fn deposit_result(
    state: State,
    config: Config,
    sender: String,
    funds: Seq<Coin>,
    vault_id: u64,
    existing: Option<Vault>,
    now: Timestamp,
    prices: Prices,
) -> Result<CollateralOutcome, ContractError> {
    match open_and_unpaused_result(state) {
        Err(e) => Err(e),
        Ok(_) => match existing {
            None => Err(ContractError::VaultDoesNotExist(vault_id)),
            Some(v) => match collateral_asset_result(config, v.vault_type) {
                Err(e) => Err(e),
                Ok(asset) => match must_pay_result(funds, asset.denom) {
                    Err(_) => Err(ContractError::InvalidFunds),
                    Ok(amount) => match apply_funding_result(state, now, prices.funding_quote, prices.funding_power) {
                        None => Err(ContractError::FundingFailed),
                        Some(funded) => match deposit_update(v, sender@, amount) {
                            Err(e) => Err(e),
                            Ok(w) => match safety_and_min_check(config, w, funded.1, prices) {
                                Err(e) => Err(e),
                                Ok(_) => Ok(CollateralOutcome {
                                    state: funded.0,
                                    normalisation_factor: funded.1,
                                    vault: w,
                                    amount,
                                    denom: asset.denom,
                                }),
                            },
                        },
                    },
                },
            },
        },
    }
}

/// Deposits the collateral sent into the sender's vault `vault_id` (stored
/// value `existing`); the vault must end safe and above the minimum.
pub fn deposit(
    state: &State,
    config: &Config,
    sender: &String,
    funds: &Vec<Coin>,
    vault_id: u64,
    existing: &Option<Vault>,
    block_time: Timestamp,
    prices: &Prices,
) -> (r: Result<CollateralOutcome, ContractError>)
    requires
        open_and_unpaused_result(*state) is Ok && existing is Some ==> {
            &&& (existing->0.vault_type is Staked ==> config.stake_assets is Some)
            &&& (collateral_asset_result(*config, existing->0.vault_type) matches Ok(a)
                && must_pay_result(funds@, a.denom) is Ok
                && state.last_funding_update.secs() != block_time.secs()
                ==> funding_defined(*state, block_time, prices.funding_quote, prices.funding_power))
        },
    ensures
        r == deposit_result(*state, *config, *sender, funds@, vault_id, *existing, block_time, *prices),
{
    state.is_open_and_unpaused()?;
    let current = match existing {
        None => { return Err(ContractError::VaultDoesNotExist(vault_id)); },
        Some(v) => v,
    };
    let asset = get_collateral_from_vault_type(config, &current.vault_type)?;
    let amount = match must_pay(funds, &asset.denom) {
        Ok(a) => a,
        Err(_) => { return Err(ContractError::InvalidFunds); },
    };
    let funded = match apply_funding_rate(state, block_time, prices.funding_quote, prices.funding_power) {
        Some(x) => x,
        None => { return Err(ContractError::FundingFailed); },
    };
    if !sender.eq(&current.operator) {
        return Err(ContractError::OperatorDoesNotMatch);
    }
    let new_collateral = match current.collateral.checked_add(amount) {
        Some(c) => c,
        None => { return Err(ContractError::Overflow); },
    };
    let updated = Vault {
        operator: current.operator.clone(),
        collateral: new_collateral,
        short_amount: current.short_amount,
        vault_type: current.vault_type.duplicate(),
    };
    check_safe_and_min(config, &updated, funded.1, prices)?;
    Ok(CollateralOutcome {
        state: funded.0,
        normalisation_factor: funded.1,
        vault: updated,
        amount,
        denom: asset.denom,
    })
}

/// The whole withdrawal: the run-state gate, an existing vault and its
/// collateral asset, no funds sent, funding, the vault update and the
/// safety and minimum-collateral checks.
pub open spec fn withdrawal_result(
    state: State,
    config: Config,
    sender: String,
    funds: Seq<Coin>,
    amount: u128,
    vault_id: u64,
    existing: Option<Vault>,
    now: Timestamp,
    prices: Prices,
) -> Result<CollateralOutcome, ContractError> {
    match open_and_unpaused_result(state) {
        Err(e) => Err(e),
        Ok(_) => match existing {
            None => Err(ContractError::VaultDoesNotExist(vault_id)),
            Some(v) => match collateral_asset_result(config, v.vault_type) {
                Err(e) => Err(e),
                Ok(asset) => match nonpayable_result(funds) {
                    Err(_) => Err(ContractError::NonPayable),
                    Ok(_) => match apply_funding_result(state, now, prices.funding_quote, prices.funding_power) {
                        None => Err(ContractError::FundingFailed),
                        Some(funded) => match subtract_collateral_result(v, sender@, amount) {
                            Err(e) => Err(e),
                            Ok(w) => match safety_and_min_check(config, w, funded.1, prices) {
                                Err(e) => Err(e),
                                Ok(_) => Ok(CollateralOutcome {
                                    state: funded.0,
                                    normalisation_factor: funded.1,
                                    vault: w,
                                    amount,
                                    denom: asset.denom,
                                }),
                            },
                        },
                    },
                },
            },
        },
    }
}

/// Withdraws `amount` of collateral from the sender's vault `vault_id`
/// (stored value `existing`); the vault must end safe and above the minimum.
pub fn withdraw(
    state: &State,
    config: &Config,
    sender: &String,
    funds: &Vec<Coin>,
    amount: u128,
    vault_id: u64,
    existing: &Option<Vault>,
    block_time: Timestamp,
    prices: &Prices,
) -> (r: Result<CollateralOutcome, ContractError>)
    requires
        open_and_unpaused_result(*state) is Ok && existing is Some ==> {
            &&& (existing->0.vault_type is Staked ==> config.stake_assets is Some)
            &&& (collateral_asset_result(*config, existing->0.vault_type) is Ok && funds@.len() == 0
                && state.last_funding_update.secs() != block_time.secs()
                ==> funding_defined(*state, block_time, prices.funding_quote, prices.funding_power))
        },
    ensures
        r == withdrawal_result(*state, *config, *sender, funds@, amount, vault_id, *existing, block_time, *prices),
{
    state.is_open_and_unpaused()?;
    let current = match existing {
        None => { return Err(ContractError::VaultDoesNotExist(vault_id)); },
        Some(v) => v,
    };
    let asset = get_collateral_from_vault_type(config, &current.vault_type)?;
    match nonpayable(funds) {
        Ok(()) => {},
        Err(_) => { return Err(ContractError::NonPayable); },
    }
    let funded = match apply_funding_rate(state, block_time, prices.funding_quote, prices.funding_power) {
        Some(x) => x,
        None => { return Err(ContractError::FundingFailed); },
    };
    let updated = subtract_collateral(current, sender, amount)?;
    check_safe_and_min(config, &updated, funded.1, prices)?;
    Ok(CollateralOutcome {
        state: funded.0,
        normalisation_factor: funded.1,
        vault: updated,
        amount,
        denom: asset.denom,
    })
}


/// No user operation goes through unless the protocol is open and
/// unpaused: each refuses with the run-state gate's error.
pub proof fn law_operations_gated(
    state: State,
    config: Config,
    sender: String,
    funds: Seq<Coin>,
    amount: u128,
    vault_id: u64,
    existing: Option<Vault>,
    vault_count: u64,
    now: Timestamp,
    prices: Prices,
)
    requires
        open_and_unpaused_result(state) is Err,
    ensures
        mint_result(state, config, sender, funds, amount, Some(vault_id), false, false, existing, vault_count, now, prices)
            == Err::<MintOutcome, ContractError>(open_and_unpaused_result(state)->Err_0),
        burn_result(state, config, sender, funds, Some(amount), vault_id, existing, now, prices)
            == Err::<BurnOutcome, ContractError>(open_and_unpaused_result(state)->Err_0),
        liquidate_result(state, config, funds, amount, vault_id, existing, None, now, prices)
            == Err::<LiquidationOutcome, ContractError>(open_and_unpaused_result(state)->Err_0),
        deposit_result(state, config, sender, funds, vault_id, existing, now, prices)
            == Err::<CollateralOutcome, ContractError>(open_and_unpaused_result(state)->Err_0),
        withdrawal_result(state, config, sender, funds, amount, vault_id, existing, now, prices)
            == Err::<CollateralOutcome, ContractError>(open_and_unpaused_result(state)->Err_0),
{
}

/// A vault a mint leaves behind is solvent and holds at least the minimum
/// collateral, at the factor and prices of the block.
pub proof fn law_mint_leaves_vault_safe(
    state: State,
    config: Config,
    sender: String,
    funds: Seq<Coin>,
    mint_amount: u128,
    vault_id: Option<u64>,
    rebase: bool,
    should_sell: bool,
    existing: Option<Vault>,
    vault_count: u64,
    now: Timestamp,
    prices: Prices,
)
    ensures
        mint_result(state, config, sender, funds, mint_amount, vault_id, rebase, should_sell, existing, vault_count, now, prices) matches Ok(o) ==> {
            &&& status_solvent(config, o.vault, o.normalisation_factor, prices.quote, prices.stake)
            &&& status_above_min(config, o.vault)
            &&& o.vault.operator@ == sender@
        },
{
}

/// Minting into an existing vault adds exactly the minted amount to its
/// debt.
pub proof fn law_mint_adds_debt(
    state: State,
    config: Config,
    sender: String,
    funds: Seq<Coin>,
    mint_amount: u128,
    vault_id: u64,
    rebase: bool,
    should_sell: bool,
    v: Vault,
    vault_count: u64,
    now: Timestamp,
    prices: Prices,
)
    ensures
        mint_result(state, config, sender, funds, mint_amount, Some(vault_id), rebase, should_sell, Some(v), vault_count, now, prices) matches Ok(o) ==> {
            &&& o.vault.short_amount == v.short_amount + o.mint_amount
            &&& o.vault_id == vault_id
            &&& o.vault_count == vault_count
        },
{
}

/// With no minting fee, minting `mint_amount` into the sender's own
/// base-collateral vault while sending `deposit` of the base asset succeeds
/// whenever the resulting vault is safe and above the minimum: the vault
/// gains exactly the deposit as collateral and the amount as debt, keeps
/// its id, and the power goes to the sender with no fee transfer.
pub proof fn law_mint_into_own_vault(
    state: State,
    config: Config,
    sender: String,
    deposit: u128,
    mint_amount: u128,
    vault_id: u64,
    v: Vault,
    vault_count: u64,
    now: Timestamp,
    prices: Prices,
)
    requires
        config_valid(config),
        config.fee_rate.atomics == 0,
        config.stake_assets is Some ==> find_stake_asset(
            config.stake_assets->0@,
            config.base_asset.denom@,
            config.stake_assets->0@.len(),
        ) is None,
        open_and_unpaused_result(state) is Ok,
        deposit > 0,
        mint_amount > 0,
        v.operator@ == sender@,
        v.vault_type is Default,
        v.collateral + deposit <= u128::MAX,
        v.short_amount + mint_amount <= u128::MAX,
        fits_u128(from_atomics_value(deposit as int, config.base_asset.decimals as nat)),
        fits_u128(from_atomics_value(mint_amount as int, config.power_asset.decimals as nat)),
        apply_funding_result(state, now, prices.funding_quote, prices.funding_power) matches Some(f) && {
            let w = Vault {
                collateral: (v.collateral + deposit) as u128,
                short_amount: (v.short_amount + mint_amount) as u128,
                ..v
            };
            &&& status_defined(config, w, f.1, prices.quote, prices.stake)
            &&& status_solvent(config, w, f.1, prices.quote, prices.stake)
            &&& status_above_min(config, w)
        },
    ensures
        mint_result(
            state,
            config,
            sender,
            seq![Coin { denom: config.base_asset.denom, amount: deposit }],
            mint_amount,
            Some(vault_id),
            false,
            false,
            Some(v),
            vault_count,
            now,
            prices,
        ) matches Ok(o) && {
            &&& o.vault == (Vault {
                collateral: (v.collateral + deposit) as u128,
                short_amount: (v.short_amount + mint_amount) as u128,
                ..v
            })
            &&& o.vault_id == vault_id
            &&& o.vault_count == vault_count
            &&& o.mint_amount == mint_amount
            &&& o.delivery == MintDelivery::ToSender
            &&& o.fee_transfer is None
        },
{
    crate::math::law_fixed_round_trip(deposit, config.base_asset.decimals);
    let funds = seq![Coin { denom: config.base_asset.denom, amount: deposit }];
    assert(sent_collateral_result(funds, config) == Ok::<(u128, Option<VaultType>), ContractError>(
        (deposit, Some(VaultType::Default)),
    ));
}

/// A burn removes exactly the power tokens sent from the vault's debt and
/// the amount withdrawn from its collateral, and leaves it solvent.
pub proof fn law_burn_reduces_vault(
    state: State,
    config: Config,
    sender: String,
    funds: Seq<Coin>,
    amount_to_withdraw: Option<u128>,
    vault_id: u64,
    v: Vault,
    now: Timestamp,
    prices: Prices,
)
    ensures
        burn_result(state, config, sender, funds, amount_to_withdraw, vault_id, Some(v), now, prices) matches Ok(o) ==> {
            &&& o.vault.short_amount == v.short_amount - o.amount_burned
            &&& o.vault.collateral == v.collateral - withdraw_or_zero(amount_to_withdraw)
            &&& status_solvent(config, o.vault, o.normalisation_factor, prices.quote, prices.stake)
        },
{
}

/// Only an insolvent vault can be liquidated, and a liquidation removes
/// exactly the debt burnt and the collateral paid out.
pub proof fn law_liquidation_only_unsafe(
    state: State,
    config: Config,
    funds: Seq<Coin>,
    max_debt_amount: u128,
    vault_id: u64,
    v: Vault,
    min_amount_to_pay: Option<u128>,
    now: Timestamp,
    prices: Prices,
)
    ensures
        liquidate_result(state, config, funds, max_debt_amount, vault_id, Some(v), min_amount_to_pay, now, prices) matches Ok(o) ==> {
            &&& !status_solvent(config, v, o.normalisation_factor, prices.quote, prices.stake)
            &&& o.liquidation_amount <= max_debt_amount
            &&& o.vault.short_amount == v.short_amount - o.liquidation_amount
            &&& o.vault.collateral == v.collateral - o.collateral_to_pay
            &&& (min_amount_to_pay matches Some(m) ==> o.collateral_to_pay >= m)
        },
{
    crate::helpers::law_liquidation_within_vault(config, max_debt_amount, v, prices.power, prices.stake);
}

/// Deposits and withdrawals move exactly the amount asked and leave the
/// vault solvent and above the minimum collateral.
pub proof fn law_collateral_moves_keep_vault_safe(
    state: State,
    config: Config,
    sender: String,
    funds: Seq<Coin>,
    amount: u128,
    vault_id: u64,
    v: Vault,
    now: Timestamp,
    prices: Prices,
)
    ensures
        deposit_result(state, config, sender, funds, vault_id, Some(v), now, prices) matches Ok(o) ==> {
            &&& o.vault.collateral == v.collateral + o.amount
            &&& o.vault.short_amount == v.short_amount
            &&& status_solvent(config, o.vault, o.normalisation_factor, prices.quote, prices.stake)
            &&& status_above_min(config, o.vault)
        },
        withdrawal_result(state, config, sender, funds, amount, vault_id, Some(v), now, prices) matches Ok(o) ==> {
            &&& o.vault.collateral == v.collateral - amount
            &&& o.vault.short_amount == v.short_amount
            &&& status_solvent(config, o.vault, o.normalisation_factor, prices.quote, prices.stake)
            &&& status_above_min(config, o.vault)
        },
{
}


/// The denom in which a vault of this type holds its collateral, as text:
/// the base asset's for base collateral, the staked asset's own denom for
/// staked collateral.
pub open spec fn collateral_denom_of(c: Config, vault_type: VaultType) -> Seq<char> {
    match vault_type {
        VaultType::Default => c.base_asset.denom@,
        VaultType::Staked { denom } => denom@,
    }
}

/// A successful burn returns exactly the collateral asked for, nothing when
/// none is asked for, and pays it in the denom the vault holds its
/// collateral in: the staked asset's denom for a staked vault, the base
/// asset's for a vault of base collateral.
pub proof fn law_burn_withdraws_in_vault_denom(
    state: State,
    config: Config,
    sender: String,
    funds: Seq<Coin>,
    amount_to_withdraw: Option<u128>,
    vault_id: u64,
    existing: Option<Vault>,
    now: Timestamp,
    prices: Prices,
)
    ensures
        burn_result(state, config, sender, funds, amount_to_withdraw, vault_id, existing, now, prices) matches Ok(out) ==> {
            &&& existing is Some
            &&& out.vault.vault_type == existing->0.vault_type
            &&& (out.withdrawal is None <==> withdraw_or_zero(amount_to_withdraw) == 0)
            &&& (out.withdrawal matches Some(w) ==> {
                &&& w.1 == withdraw_or_zero(amount_to_withdraw)
                &&& w.0@ == collateral_denom_of(config, existing->0.vault_type)
            })
        },
{
}

/// A successful mint that charges a fee sends it to the fee pool in the
/// denom the vault holds its collateral in (the staked asset's denom for a
/// staked vault, the base asset's otherwise), and sends nothing when the
/// fee is zero.
pub proof fn law_mint_fee_paid_in_vault_denom(
    state: State,
    config: Config,
    sender: String,
    funds: Seq<Coin>,
    mint_amount: u128,
    vault_id: Option<u64>,
    rebase: bool,
    should_sell: bool,
    existing: Option<Vault>,
    vault_count: u64,
    now: Timestamp,
    prices: Prices,
)
    ensures
        mint_result(state, config, sender, funds, mint_amount, vault_id, rebase, should_sell, existing, vault_count, now, prices)
            matches Ok(out) ==> {
            &&& (out.fee_transfer is None <==> out.fee_amount.atomics == 0)
            &&& (out.fee_transfer matches Some(f) ==> f.0@ == collateral_denom_of(config, out.vault.vault_type))
        },
{
}

} // verus!
