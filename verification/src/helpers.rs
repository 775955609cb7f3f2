//! Pricing helpers: debt valued in collateral, fees, rebased mint amounts,
//! slippage limits, liquidation amounts, the index and the mark.

use vstd::prelude::*;
use crate::config::{Asset, Config, Pool, StakeAsset, VaultType};
use crate::error::ContractError;
use crate::math::{
    Decimal, decimal_to_fixed, fits_u128, from_atomics_value, mul_floor, one_atomics, pow10,
    pow10_u128, ratio_floor, to_fixed_value,
};
use crate::vault::{
    Vault, find_stake_asset, find_stake_asset_index, subtract_collateral,
    subtract_collateral_result,
};

verus! {

/// The collateral a liquidator receives per unit of debt repaid: 110%, in atomics.
pub const LIQUIDATION_BOUNTY: u128 = 1_100_000_000_000_000_000u128;

/// Fees on staked-collateral vaults are charged at twice the fee rate: 2, in atomics.
pub const STAKED_ASSET_MULTIPLIER: u128 = 2_000_000_000_000_000_000u128;

/// A pool and the decimals of its two denoms, for pricing a swap.
#[derive(Clone, Debug)]
pub struct PoolParams {
    pub id: u64,
    pub base_denom: String,
    pub quote_denom: String,
    pub base_decimal_places: u32,
    pub quote_decimal_places: u32,
}

pub open spec fn price_or_zero(p: Option<Decimal>) -> int {
    match p {
        Some(d) => d.atomics as int,
        None => 0,
    }
}

/// A debt in power tokens valued in the vault's collateral: at the power
/// price for base collateral, and further divided by the staked asset's
/// price for staked collateral.
pub open spec fn debt_in_collateral(debt: Decimal, vault_type: VaultType, power_price: Decimal, stake_price: Option<Decimal>) -> int {
    match vault_type {
        VaultType::Default => mul_floor(debt.atomics as int, power_price.atomics as int),
        VaultType::Staked { .. } => ratio_floor(
            mul_floor(debt.atomics as int, power_price.atomics as int),
            price_or_zero(stake_price),
        ),
    }
}

pub open spec fn debt_in_collateral_defined(debt: Decimal, vault_type: VaultType, power_price: Decimal, stake_price: Option<Decimal>) -> bool {
    &&& fits_u128(mul_floor(debt.atomics as int, power_price.atomics as int))
    &&& (vault_type is Staked ==> {
        &&& stake_price is Some
        &&& price_or_zero(stake_price) != 0
        &&& fits_u128(debt_in_collateral(debt, vault_type, power_price, stake_price))
    })
}

/// Values a debt in power tokens in the vault's collateral, given the power
/// price and, for staked collateral, the staked asset's price.
pub fn calculate_debt_in_collateral(
    debt_amount: Decimal,
    vault_type: &VaultType,
    power_price: Decimal,
    stake_price: Option<Decimal>,
) -> (r: Decimal)
    requires
        debt_in_collateral_defined(debt_amount, *vault_type, power_price, stake_price),
    ensures
        r.atomics == debt_in_collateral(debt_amount, *vault_type, power_price, stake_price),
{
    match vault_type {
        VaultType::Default => debt_amount.mul(power_price),
        VaultType::Staked { .. } => {
            let price = stake_price.unwrap();
            debt_amount.mul(power_price).div(price)
        },
    }
}

/// The fee rate multiplier: 1 for base collateral, 2 for staked collateral.
pub open spec fn fee_multiplier(vault_type: VaultType) -> int {
    match vault_type {
        VaultType::Default => one_atomics(),
        VaultType::Staked { .. } => STAKED_ASSET_MULTIPLIER as int,
    }
}

/// The fee on a mint whose debt is worth `base_value` in collateral.
pub open spec fn fee_amount(c: Config, vault_type: VaultType, base_value: int) -> int {
    mul_floor(base_value, mul_floor(c.fee_rate.atomics as int, fee_multiplier(vault_type)))
}

/// What charging the fee gives: the fee, the deposit left after it, and the
/// vault (from which the fee is taken when the deposit does not exceed it).
pub open spec fn fee_result(
    c: Config,
    sender: Seq<char>,
    vault: Vault,
    vault_type: VaultType,
    power_amount: Decimal,
    deposit_amount: Decimal,
    power_price: Decimal,
    stake_price: Option<Decimal>,
) -> Result<(Decimal, Decimal, Vault), ContractError> {
    if c.fee_rate.atomics == 0 {
        Ok((Decimal { atomics: 0 }, deposit_amount, vault))
    } else {
        let fee = fee_amount(c, vault_type, debt_in_collateral(power_amount, vault_type, power_price, stake_price));
        if deposit_amount.atomics > fee {
            Ok((Decimal { atomics: fee as u128 }, Decimal { atomics: (deposit_amount.atomics - fee) as u128 }, vault))
        } else {
            match subtract_collateral_result(vault, sender, to_fixed_value(Decimal { atomics: fee as u128 }, c.base_asset.decimals as nat) as u128) {
                Ok(v) => Ok((Decimal { atomics: fee as u128 }, deposit_amount, v)),
                Err(e) => Err(e),
            }
        }
    }
}

pub open spec fn fee_defined(
    c: Config,
    vault_type: VaultType,
    power_amount: Decimal,
    power_price: Decimal,
    stake_price: Option<Decimal>,
) -> bool {
    c.fee_rate.atomics != 0 ==> {
        &&& c.base_asset.decimals <= 18
        &&& debt_in_collateral_defined(power_amount, vault_type, power_price, stake_price)
        &&& fits_u128(mul_floor(c.fee_rate.atomics as int, fee_multiplier(vault_type)))
        &&& fits_u128(fee_amount(c, vault_type, debt_in_collateral(power_amount, vault_type, power_price, stake_price)))
    }
}

/// Charges the minting fee: nothing when the fee rate is zero; otherwise the
/// fee is the debt's collateral value times the fee rate (doubled for staked
/// collateral), taken from the deposit when the deposit exceeds it and from
/// the vault's collateral otherwise.
pub fn calculate_fee(
    config: &Config,
    sender: &String,
    vault: Vault,
    vault_type: &VaultType,
    power_amount: Decimal,
    deposit_amount: Decimal,
    power_price: Decimal,
    stake_price: Option<Decimal>,
) -> (r: Result<(Decimal, Decimal, Vault), ContractError>)
    requires
        fee_defined(*config, *vault_type, power_amount, power_price, stake_price),
    ensures
        r == fee_result(*config, sender@, vault, *vault_type, power_amount, deposit_amount, power_price, stake_price),
{
    if config.fee_rate.is_zero() {
        return Ok((Decimal::zero(), deposit_amount, vault));
    }
    let base_amount_value = calculate_debt_in_collateral(power_amount, vault_type, power_price, stake_price);
    let multiplier = match vault_type {
        VaultType::Default => Decimal::one(),
        VaultType::Staked { .. } => Decimal::raw(STAKED_ASSET_MULTIPLIER),
    };
    let fee = base_amount_value.mul(config.fee_rate.mul(multiplier));
    if deposit_amount.atomics > fee.atomics {
        Ok((fee, Decimal::raw(deposit_amount.atomics - fee.atomics), vault))
    } else {
        let fee_fixed = decimal_to_fixed(fee, config.base_asset.decimals);
        match subtract_collateral(&vault, sender, fee_fixed) {
            Ok(v) => Ok((fee, deposit_amount, v)),
            Err(e) => Err(e),
        }
    }
}

/// The fee as `calculate_fee` charges it, or `None` on the inputs where
/// that computation leaves the decimal range or lacks a staked asset price.
pub fn try_calculate_fee(
    config: &Config,
    sender: &String,
    vault: Vault,
    vault_type: &VaultType,
    power_amount: Decimal,
    deposit_amount: Decimal,
    power_price: Decimal,
    stake_price: Option<Decimal>,
) -> (r: Option<Result<(Decimal, Decimal, Vault), ContractError>>)
    ensures
        r is Some <==> fee_defined(*config, *vault_type, power_amount, power_price, stake_price),
        r matches Some(x) ==> x == fee_result(*config, sender@, vault, *vault_type, power_amount, deposit_amount, power_price, stake_price),
{
    if config.fee_rate.is_zero() {
        return Some(calculate_fee(config, sender, vault, vault_type, power_amount, deposit_amount, power_price, stake_price));
    }
    if config.base_asset.decimals > 18 {
        return None;
    }
    let value = power_amount.checked_mul(power_price)?;
    match vault_type {
        VaultType::Default => {},
        VaultType::Staked { .. } => {
            let p = stake_price?;
            if p.is_zero() {
                return None;
            }
            value.checked_div(p)?;
        },
    }
    let multiplier = match vault_type {
        VaultType::Default => Decimal::one(),
        VaultType::Staked { .. } => Decimal::raw(STAKED_ASSET_MULTIPLIER),
    };
    let rate = config.fee_rate.checked_mul(multiplier)?;
    let base_amount_value = calculate_debt_in_collateral(power_amount, vault_type, power_price, stake_price);
    base_amount_value.checked_mul(rate)?;
    Some(calculate_fee(config, sender, vault, vault_type, power_amount, deposit_amount, power_price, stake_price))
}

/// What the amount minted is when the request is denominated before
/// normalisation.
pub open spec fn rebase_mint_result(mint_amount: u128, nf: Decimal, base_decimals: u32, is_rebase: bool) -> Result<u128, ContractError> {
    if is_rebase {
        if mint_amount * pow10(base_decimals as nat) > u128::MAX {
            Err(ContractError::Overflow)
        } else if to_fixed_value(nf, base_decimals as nat) == 0 {
            Err(ContractError::DivideByZero)
        } else {
            Ok(((mint_amount * pow10(base_decimals as nat)) / to_fixed_value(nf, base_decimals as nat)) as u128)
        }
    } else {
        Ok(mint_amount)
    }
}

/// The amount to mint: unchanged, or, for a rebased request, divided by the
/// normalisation factor read with the base asset's decimals.
pub fn get_rebase_mint_amount(mint_amount: u128, normalisation_factor: Decimal, base_decimals: u32, is_rebase: bool) -> (r: Result<u128, ContractError>)
    requires
        base_decimals <= 18,
    ensures
        r == rebase_mint_result(mint_amount, normalisation_factor, base_decimals, is_rebase),
{
    if is_rebase {
        let fixed_normalisation_factor = decimal_to_fixed(normalisation_factor, base_decimals);
        let scale = pow10_u128(base_decimals);
        let scaled_amount = match mint_amount.checked_mul(scale) {
            Some(v) => v,
            None => { return Err(ContractError::Overflow); },
        };
        if fixed_normalisation_factor == 0 {
            return Err(ContractError::DivideByZero);
        }
        Ok(scaled_amount / fixed_normalisation_factor)
    } else {
        Ok(mint_amount)
    }
}

/// The least amount a swap must return given the slippage tolerance and the
/// pool's spot price.
pub open spec fn min_amount_out_result(token_amount_in: u128, slippage: Option<Decimal>, pool: PoolParams, spot_price: Decimal) -> Result<u128, ContractError> {
    match slippage {
        None => Ok(1),
        Some(s) => if s.atomics >= one_atomics() {
            Err(ContractError::InvalidSlippage)
        } else if !fits_u128(from_atomics_value(token_amount_in as int, pool.quote_decimal_places as nat)) {
            Err(ContractError::InvalidTokenAmount)
        } else if !fits_u128(mul_floor(spot_price.atomics as int, from_atomics_value(token_amount_in as int, pool.quote_decimal_places as nat))) {
            Err(ContractError::Overflow)
        } else if !fits_u128(mul_floor(
            mul_floor(spot_price.atomics as int, from_atomics_value(token_amount_in as int, pool.quote_decimal_places as nat)),
            one_atomics() - s.atomics,
        )) {
            Err(ContractError::Overflow)
        } else {
            Ok(to_fixed_value(
                Decimal {
                    atomics: mul_floor(
                        mul_floor(spot_price.atomics as int, from_atomics_value(token_amount_in as int, pool.quote_decimal_places as nat)),
                        one_atomics() - s.atomics,
                    ) as u128,
                },
                pool.base_decimal_places as nat,
            ) as u128)
        },
    }
}

/// The minimum output of a swap of `token_amount_in`: 1 without a slippage
/// tolerance; otherwise the spot-price value of the input reduced by the
/// tolerance, which must be below one.
pub fn get_min_amount_out_from_slippage(
    token_amount_in: u128,
    slippage: Option<Decimal>,
    pool: &PoolParams,
    spot_price: Decimal,
) -> (r: Result<u128, ContractError>)
    requires
        pool.base_decimal_places <= 18,
    ensures
        r == min_amount_out_result(token_amount_in, slippage, *pool, spot_price),
{
    let slippage = match slippage {
        Some(s) => s,
        None => { return Ok(1); },
    };
    if slippage.atomics >= crate::math::DECIMAL_FRACTIONAL {
        return Err(ContractError::InvalidSlippage);
    }
    let amount_in = match crate::math::decimal_from_atomics(token_amount_in, pool.quote_decimal_places) {
        Some(d) => d,
        None => { return Err(ContractError::InvalidTokenAmount); },
    };
    let best_amount_out = match spot_price.checked_mul(amount_in) {
        Some(d) => d,
        None => { return Err(ContractError::Overflow); },
    };
    let keep = Decimal::raw(crate::math::DECIMAL_FRACTIONAL - slippage.atomics);
    let min_amount_out = match best_amount_out.checked_mul(keep) {
        Some(d) => d,
        None => { return Err(ContractError::Overflow); },
    };
    Ok(decimal_to_fixed(min_amount_out, pool.base_decimal_places))
}


/// The amount liquidated (bounded by the offered repayment and the
/// liquidatable maximum), the collateral paid for it (debt value plus the
/// 10% bounty) and the debt value, both in base-asset units.
pub open spec fn liquidation_amount(
    c: Config,
    input_amount: u128,
    max_liquidatable_amount: u128,
    vault_type: VaultType,
    power_price: Decimal,
    stake_price: Option<Decimal>,
) -> (u128, u128, u128) {
    let amount = if input_amount <= max_liquidatable_amount { input_amount } else { max_liquidatable_amount };
    let debt = debt_in_collateral(
        Decimal { atomics: from_atomics_value(amount as int, c.power_asset.decimals as nat) as u128 },
        vault_type,
        power_price,
        stake_price,
    );
    let collateral = mul_floor(debt, LIQUIDATION_BOUNTY as int);
    (
        amount,
        to_fixed_value(Decimal { atomics: collateral as u128 }, c.base_asset.decimals as nat) as u128,
        to_fixed_value(Decimal { atomics: debt as u128 }, c.base_asset.decimals as nat) as u128,
    )
}

pub open spec fn liquidation_amount_defined(
    c: Config,
    input_amount: u128,
    max_liquidatable_amount: u128,
    vault_type: VaultType,
    power_price: Decimal,
    stake_price: Option<Decimal>,
) -> bool {
    let amount = if input_amount <= max_liquidatable_amount { input_amount } else { max_liquidatable_amount };
    let debt_amount = Decimal { atomics: from_atomics_value(amount as int, c.power_asset.decimals as nat) as u128 };
    &&& c.base_asset.decimals <= 18
    &&& fits_u128(from_atomics_value(amount as int, c.power_asset.decimals as nat))
    &&& debt_in_collateral_defined(debt_amount, vault_type, power_price, stake_price)
    &&& fits_u128(mul_floor(debt_in_collateral(debt_amount, vault_type, power_price, stake_price), LIQUIDATION_BOUNTY as int))
}

/// Computes the liquidation of up to `max_liquidatable_amount` power tokens
/// offered against `input_amount`: the amount liquidated, the collateral
/// paid for it and the debt's value.
pub fn get_liquidation_amount(
    config: &Config,
    input_amount: u128,
    max_liquidatable_amount: u128,
    vault_type: &VaultType,
    power_price: Decimal,
    stake_price: Option<Decimal>,
) -> (r: (u128, u128, u128))
    requires
        liquidation_amount_defined(*config, input_amount, max_liquidatable_amount, *vault_type, power_price, stake_price),
    ensures
        r == liquidation_amount(*config, input_amount, max_liquidatable_amount, *vault_type, power_price, stake_price),
{
    let amount_to_liquidate = if input_amount <= max_liquidatable_amount { input_amount } else { max_liquidatable_amount };
    let decimals_amount_to_liquidate = Decimal::from_atomics(amount_to_liquidate, config.power_asset.decimals);
    let debt_to_repay = calculate_debt_in_collateral(decimals_amount_to_liquidate, vault_type, power_price, stake_price);
    let collateral_to_repay = debt_to_repay.mul(Decimal::raw(LIQUIDATION_BOUNTY));
    let collateral_to_repay = decimal_to_fixed(collateral_to_repay, config.base_asset.decimals);
    let debt_to_repay = decimal_to_fixed(debt_to_repay, config.base_asset.decimals);
    (amount_to_liquidate, collateral_to_repay, debt_to_repay)
}

/// The decimals that measure a vault's collateral: the base asset's, or the
/// listed staked asset's.
pub open spec fn collateral_decimals(c: Config, vault_type: VaultType) -> u32 {
    match vault_type {
        VaultType::Default => c.base_asset.decimals,
        VaultType::Staked { denom } => c.stake_assets->0@[find_stake_asset(
            c.stake_assets->0@,
            denom@,
            c.stake_assets->0@.len(),
        )->0].decimals,
    }
}

pub open spec fn collateral_decimals_defined(c: Config, vault_type: VaultType) -> bool {
    match vault_type {
        VaultType::Default => c.base_asset.decimals <= 38,
        VaultType::Staked { denom } => {
            &&& c.stake_assets is Some
            &&& find_stake_asset(c.stake_assets->0@, denom@, c.stake_assets->0@.len()) is Some
            &&& collateral_decimals(c, vault_type) <= 38
        },
    }
}

/// Half of one whole unit of the vault's collateral.
pub open spec fn half_collateral_unit(c: Config, vault_type: VaultType) -> int {
    pow10(collateral_decimals(c, vault_type) as nat) as int / 2
}

/// Whether a half liquidation would leave less than half a unit of
/// collateral behind, in which case the whole debt is liquidated.
pub open spec fn leaves_dust(v: Vault, first: (u128, u128, u128), half: int) -> bool {
    v.collateral > first.1 && v.collateral - first.1 < half
}

/// The liquidation of a vault offered `max_repayment_amount`: half the debt,
/// or all of it when half would leave dust; and never more collateral than
/// the vault holds, in which case all debt and collateral are taken.
pub open spec fn liquidation_results(
    c: Config,
    max_repayment_amount: u128,
    v: Vault,
    power_price: Decimal,
    stake_price: Option<Decimal>,
) -> (u128, u128, u128) {
    let first = liquidation_amount(c, max_repayment_amount, v.short_amount / 2, v.vault_type, power_price, stake_price);
    let chosen = if leaves_dust(v, first, half_collateral_unit(c, v.vault_type)) {
        liquidation_amount(c, max_repayment_amount, v.short_amount, v.vault_type, power_price, stake_price)
    } else {
        first
    };
    if chosen.1 > v.collateral {
        (v.short_amount, v.collateral, chosen.2)
    } else {
        chosen
    }
}

pub open spec fn liquidation_results_defined(
    c: Config,
    max_repayment_amount: u128,
    v: Vault,
    power_price: Decimal,
    stake_price: Option<Decimal>,
) -> bool {
    let first = liquidation_amount(c, max_repayment_amount, v.short_amount / 2, v.vault_type, power_price, stake_price);
    &&& collateral_decimals_defined(c, v.vault_type)
    &&& liquidation_amount_defined(c, max_repayment_amount, (v.short_amount / 2) as u128, v.vault_type, power_price, stake_price)
    &&& (leaves_dust(v, first, half_collateral_unit(c, v.vault_type)) ==> liquidation_amount_defined(
        c,
        max_repayment_amount,
        v.short_amount,
        v.vault_type,
        power_price,
        stake_price,
    ))
}

/// Decides a liquidation: first half the vault's debt; all of it when half
/// would leave less than half a unit of collateral; and, when the
/// collateral owed exceeds what the vault holds, all debt for all collateral.
pub fn get_liquidation_results(
    config: &Config,
    max_repayment_amount: u128,
    vault: &Vault,
    power_price: Decimal,
    stake_price: Option<Decimal>,
) -> (r: (u128, u128, u128))
    requires
        liquidation_results_defined(*config, max_repayment_amount, *vault, power_price, stake_price),
    ensures
        r == liquidation_results(*config, max_repayment_amount, *vault, power_price, stake_price),
{
    let max_liquidatable_amount = vault.short_amount / 2;
    let (mut liquidation_amount, mut collateral_to_pay, mut debt_to_repay) = get_liquidation_amount(
        config,
        max_repayment_amount,
        max_liquidatable_amount,
        &vault.vault_type,
        power_price,
        stake_price,
    );
    let decimals = match &vault.vault_type {
        VaultType::Default => config.base_asset.decimals,
        VaultType::Staked { denom } => {
            let assets = config.stake_assets.as_ref().unwrap();
            let i = find_stake_asset_index(assets, denom).unwrap();
            assets[i].decimals
        },
    };
    let half_collateral_denom = pow10_u128(decimals) / 2;
    if vault.collateral > collateral_to_pay && vault.collateral - collateral_to_pay < half_collateral_denom {
        let (a, c, d) = get_liquidation_amount(
            config,
            max_repayment_amount,
            vault.short_amount,
            &vault.vault_type,
            power_price,
            stake_price,
        );
        liquidation_amount = a;
        collateral_to_pay = c;
        debt_to_repay = d;
    }
    if collateral_to_pay > vault.collateral {
        liquidation_amount = vault.short_amount;
        collateral_to_pay = vault.collateral;
    }
    (liquidation_amount, collateral_to_pay, debt_to_repay)
}

/// The liquidation amounts as `get_liquidation_amount` computes them, or
/// `None` where that computation leaves the decimal range.
pub fn try_get_liquidation_amount(
    config: &Config,
    input_amount: u128,
    max_liquidatable_amount: u128,
    vault_type: &VaultType,
    power_price: Decimal,
    stake_price: Option<Decimal>,
) -> (r: Option<(u128, u128, u128)>)
    ensures
        r is Some <==> liquidation_amount_defined(*config, input_amount, max_liquidatable_amount, *vault_type, power_price, stake_price),
        r matches Some(x) ==> x == liquidation_amount(*config, input_amount, max_liquidatable_amount, *vault_type, power_price, stake_price),
{
    if config.base_asset.decimals > 18 {
        return None;
    }
    let amount = if input_amount <= max_liquidatable_amount { input_amount } else { max_liquidatable_amount };
    let debt_amount = crate::math::decimal_from_atomics(amount, config.power_asset.decimals)?;
    let value = debt_amount.checked_mul(power_price)?;
    let debt = match vault_type {
        VaultType::Default => value,
        VaultType::Staked { .. } => {
            let p = stake_price?;
            if p.is_zero() {
                return None;
            }
            value.checked_div(p)?
        },
    };
    debt.checked_mul(Decimal::raw(LIQUIDATION_BOUNTY))?;
    Some(get_liquidation_amount(config, input_amount, max_liquidatable_amount, vault_type, power_price, stake_price))
}

/// The liquidation as `get_liquidation_results` decides it, or `None` where
/// that computation leaves the decimal range or reads an unlisted staked
/// asset.
pub fn try_get_liquidation_results(
    config: &Config,
    max_repayment_amount: u128,
    vault: &Vault,
    power_price: Decimal,
    stake_price: Option<Decimal>,
) -> (r: Option<(u128, u128, u128)>)
    ensures
        r is Some <==> liquidation_results_defined(*config, max_repayment_amount, *vault, power_price, stake_price),
        r matches Some(x) ==> x == liquidation_results(*config, max_repayment_amount, *vault, power_price, stake_price),
{
    let decimals = match &vault.vault_type {
        VaultType::Default => config.base_asset.decimals,
        VaultType::Staked { denom } => {
            if config.stake_assets.is_none() {
                return None;
            }
            let assets = config.stake_assets.as_ref().unwrap();
            let i = find_stake_asset_index(assets, denom)?;
            assets[i].decimals
        },
    };
    if decimals > 38 {
        return None;
    }
    let first = try_get_liquidation_amount(config, max_repayment_amount, vault.short_amount / 2, &vault.vault_type, power_price, stake_price)?;
    let half = pow10_u128(decimals) / 2;
    if vault.collateral > first.1 && vault.collateral - first.1 < half {
        try_get_liquidation_amount(config, max_repayment_amount, vault.short_amount, &vault.vault_type, power_price, stake_price)?;
    }
    Some(get_liquidation_results(config, max_repayment_amount, vault, power_price, stake_price))
}

/// A liquidation never takes more debt or collateral than the vault holds.
pub proof fn law_liquidation_within_vault(
    c: Config,
    max_repayment_amount: u128,
    v: Vault,
    power_price: Decimal,
    stake_price: Option<Decimal>,
)
    ensures
        liquidation_results(c, max_repayment_amount, v, power_price, stake_price).0 <= v.short_amount,
        liquidation_results(c, max_repayment_amount, v, power_price, stake_price).1 <= v.collateral,
{
}

/// Liquidating a staked vault values the debt in the staked asset: the
/// power liquidated (the smaller of the offer and the liquidatable maximum)
/// times the power price, divided by the staked asset's price. The
/// collateral paid is that value plus the 10% bounty; both are given to the
/// base asset's decimals, rounded down.
pub proof fn law_staked_liquidation_priced_in_stake(
    c: Config,
    input_amount: u128,
    max_liquidatable_amount: u128,
    denom: String,
    power_price: Decimal,
    stake_price: Decimal,
)
    requires
        stake_price.atomics != 0,
        c.power_asset.decimals <= 18,
        c.base_asset.decimals <= 18,
        ({
            let amount = if input_amount <= max_liquidatable_amount { input_amount } else { max_liquidatable_amount };
            let power = amount * pow10((18 - c.power_asset.decimals) as nat);
            let value = (power * power_price.atomics / 1_000_000_000_000_000_000int) * 1_000_000_000_000_000_000int
                / (stake_price.atomics as int);
            &&& power <= u128::MAX
            &&& value <= u128::MAX
            &&& value * 1_100_000_000_000_000_000int / 1_000_000_000_000_000_000int <= u128::MAX
        }),
    ensures
        ({
            let amount = if input_amount <= max_liquidatable_amount { input_amount } else { max_liquidatable_amount };
            let power = amount * pow10((18 - c.power_asset.decimals) as nat);
            let value = (power * power_price.atomics / 1_000_000_000_000_000_000int) * 1_000_000_000_000_000_000int
                / (stake_price.atomics as int);
            let unit = pow10((18 - c.base_asset.decimals) as nat) as int;
            let r = liquidation_amount(
                c,
                input_amount,
                max_liquidatable_amount,
                VaultType::Staked { denom },
                power_price,
                Some(stake_price),
            );
            &&& r.0 == amount
            &&& r.2 == value / unit
            &&& r.1 == (value * 1_100_000_000_000_000_000int / 1_000_000_000_000_000_000int) / unit
        }),
{
    let amount = if input_amount <= max_liquidatable_amount { input_amount } else { max_liquidatable_amount };
    let power = amount * pow10((18 - c.power_asset.decimals) as nat);
    if c.power_asset.decimals == 18 {
        assert(pow10(0) == 1);
        assert(((18 - c.power_asset.decimals) as nat) == 0nat);
        assert(pow10((18 - c.power_asset.decimals) as nat) == 1);
        assert(power == amount * 1);
        assert(((c.power_asset.decimals - 18) as nat) == 0);
        assert(amount as int / (pow10(0) as int) == amount);
    }
    assert(from_atomics_value(amount as int, c.power_asset.decimals as nat) == power);
    let d = Decimal { atomics: power as u128 };
    let value = (power * power_price.atomics / 1_000_000_000_000_000_000int) * 1_000_000_000_000_000_000int
        / (stake_price.atomics as int);
    assert(debt_in_collateral(d, VaultType::Staked { denom }, power_price, Some(stake_price)) == value);
    let collateral = mul_floor(value, LIQUIDATION_BOUNTY as int);
    assert(collateral == value * 1_100_000_000_000_000_000int / 1_000_000_000_000_000_000int);
    let unit = pow10((18 - c.base_asset.decimals) as nat) as int;
    crate::math::lemma_pow10_positive((18 - c.base_asset.decimals) as nat);
    assert(0 <= value / unit <= value) by (nonlinear_arith)
        requires unit >= 1, value >= 0;
    assert(0 <= collateral / unit <= collateral) by (nonlinear_arith)
        requires unit >= 1, collateral >= 0;
}

/// Liquidating a vault of base collateral values the debt at the power
/// price: the power liquidated times the power price, and the collateral
/// paid is that value plus the 10% bounty, to the base asset's decimals.
pub proof fn law_default_liquidation_priced_in_base(
    c: Config,
    input_amount: u128,
    max_liquidatable_amount: u128,
    power_price: Decimal,
    stake_price: Option<Decimal>,
)
    requires
        c.power_asset.decimals <= 18,
        c.base_asset.decimals <= 18,
        ({
            let amount = if input_amount <= max_liquidatable_amount { input_amount } else { max_liquidatable_amount };
            let power = amount * pow10((18 - c.power_asset.decimals) as nat);
            let value = power * power_price.atomics / 1_000_000_000_000_000_000int;
            &&& power <= u128::MAX
            &&& value <= u128::MAX
            &&& value * 1_100_000_000_000_000_000int / 1_000_000_000_000_000_000int <= u128::MAX
        }),
    ensures
        ({
            let amount = if input_amount <= max_liquidatable_amount { input_amount } else { max_liquidatable_amount };
            let power = amount * pow10((18 - c.power_asset.decimals) as nat);
            let value = power * power_price.atomics / 1_000_000_000_000_000_000int;
            let unit = pow10((18 - c.base_asset.decimals) as nat) as int;
            let r = liquidation_amount(c, input_amount, max_liquidatable_amount, VaultType::Default, power_price, stake_price);
            &&& r.0 == amount
            &&& r.2 == value / unit
            &&& r.1 == (value * 1_100_000_000_000_000_000int / 1_000_000_000_000_000_000int) / unit
        }),
{
    let amount = if input_amount <= max_liquidatable_amount { input_amount } else { max_liquidatable_amount };
    let power = amount * pow10((18 - c.power_asset.decimals) as nat);
    if c.power_asset.decimals == 18 {
        assert(pow10(0) == 1);
        assert(((18 - c.power_asset.decimals) as nat) == 0nat);
        assert(pow10((18 - c.power_asset.decimals) as nat) == 1);
        assert(power == amount * 1);
        assert(((c.power_asset.decimals - 18) as nat) == 0);
        assert(amount as int / (pow10(0) as int) == amount);
    }
    assert(from_atomics_value(amount as int, c.power_asset.decimals as nat) == power);
    let value = power * power_price.atomics / 1_000_000_000_000_000_000int;
    let collateral = mul_floor(value, LIQUIDATION_BOUNTY as int);
    let unit = pow10((18 - c.base_asset.decimals) as nat) as int;
    crate::math::lemma_pow10_positive((18 - c.base_asset.decimals) as nat);
    assert(0 <= value / unit <= value) by (nonlinear_arith)
        requires unit >= 1, value >= 0;
    assert(0 <= collateral / unit <= collateral) by (nonlinear_arith)
        requires unit >= 1, collateral >= 0;
}

/// The index: the squared quote price.
pub open spec fn index_of(quote_price: Decimal) -> int {
    mul_floor(quote_price.atomics as int, quote_price.atomics as int)
}

/// The index from the scaled quote price: its square.
pub fn calculate_index(quote_price: Decimal) -> (r: Decimal)
    requires
        fits_u128(index_of(quote_price)),
    ensures
        r.atomics == index_of(quote_price),
{
    let squared = quote_price.mul(quote_price);
    proof {
        vstd::arithmetic::div_mod::lemma_div_multiples_vanish(squared.atomics as int, one_atomics());
        assert(squared.atomics as int * one_atomics() == one_atomics() * squared.atomics as int) by (nonlinear_arith);
    }
    squared.div(Decimal::one())
}

/// The mark: the scaled quote price times the power price, divided by the
/// normalisation factor.
pub open spec fn denormalised_mark(quote_price: Decimal, power_price: Decimal, nf: Decimal) -> int {
    ratio_floor(mul_floor(quote_price.atomics as int, power_price.atomics as int), nf.atomics as int)
}

pub open spec fn mark_defined(quote_price: Decimal, power_price: Decimal, nf: Decimal) -> bool {
    &&& fits_u128(mul_floor(quote_price.atomics as int, power_price.atomics as int))
    &&& nf.atomics != 0
    &&& fits_u128(denormalised_mark(quote_price, power_price, nf))
}

/// The denormalised mark price from the scaled quote price and the power
/// price.
pub fn calculate_denormalized_mark(quote_price: Decimal, power_price: Decimal, normalisation_factor: Decimal) -> (r: Decimal)
    requires
        mark_defined(quote_price, power_price, normalisation_factor),
    ensures
        r.atomics == denormalised_mark(quote_price, power_price, normalisation_factor),
{
    quote_price.mul(power_price).div(normalisation_factor)
}

/// A pool price divided by the index scale.
pub open spec fn scaled_price(price: Decimal, index_scale: u64) -> int {
    ratio_floor(price.atomics as int, index_scale as int * one_atomics())
}

pub open spec fn scaled_price_defined(price: Decimal, index_scale: u64) -> bool {
    &&& index_scale != 0
    &&& fits_u128(index_scale as int * one_atomics())
    &&& fits_u128(scaled_price(price, index_scale))
}

/// Divides a pool price by the index scale.
pub fn scale_price(price: Decimal, index_scale: u64) -> (r: Decimal)
    requires
        scaled_price_defined(price, index_scale),
    ensures
        r.atomics == scaled_price(price, index_scale),
{
    proof {
        crate::math::lemma_pow10_38();
    }
    let scale = Decimal::from_atomics(index_scale as u128, 0);
    price.div(scale)
}


/// The denom of a vault's collateral: the base asset, or its staked asset
/// while staking is enabled.
pub open spec fn vault_collateral_result(c: Config, vault_type: VaultType) -> Result<String, ContractError> {
    match vault_type {
        VaultType::Default => Ok(c.base_asset.denom),
        VaultType::Staked { denom } => if c.stake_assets is Some {
            Ok(denom)
        } else {
            Err(ContractError::StakingNotEnabled)
        },
    }
}

/// The denom in which a vault of the given type holds collateral.
pub fn get_vault_collateral(config: &Config, vault_type: &VaultType) -> (r: Result<String, ContractError>)
    ensures
        r == vault_collateral_result(*config, *vault_type),
{
    match vault_type {
        VaultType::Default => Ok(config.base_asset.denom.clone()),
        VaultType::Staked { denom } => {
            if config.is_stake_enabled() {
                Ok(denom.clone())
            } else {
                Err(ContractError::StakingNotEnabled)
            }
        },
    }
}

/// The asset a vault of the given type holds as collateral.
pub open spec fn collateral_asset_result(c: Config, vault_type: VaultType) -> Result<Asset, ContractError> {
    match vault_type {
        VaultType::Default => Ok(c.base_asset),
        VaultType::Staked { denom } => match find_stake_asset(c.stake_assets->0@, denom@, c.stake_assets->0@.len()) {
            Some(i) => Ok(Asset {
                denom: c.stake_assets->0@[i].denom,
                decimals: c.stake_assets->0@[i].decimals,
            }),
            None => Err(ContractError::StakedAssetNotFound),
        },
    }
}

/// The collateral asset of a vault type: the base asset, or the listed
/// staked asset of that denom.
pub fn get_collateral_from_vault_type(config: &Config, vault_type: &VaultType) -> (r: Result<Asset, ContractError>)
    requires
        vault_type is Staked ==> config.stake_assets is Some,
    ensures
        r == collateral_asset_result(*config, *vault_type),
{
    match vault_type {
        VaultType::Default => Ok(config.base_asset.duplicate()),
        VaultType::Staked { denom } => {
            let assets = config.stake_assets.as_ref().unwrap();
            match find_stake_asset_index(assets, denom) {
                Some(i) => Ok(Asset { denom: assets[i].denom.clone(), decimals: assets[i].decimals }),
                None => Err(ContractError::StakedAssetNotFound),
            }
        },
    }
}


/// Checks that a denom is one of the staked assets.
pub fn check_is_staked_asset(stake_assets: &Vec<StakeAsset>, denom: &String) -> (r: Result<(), ContractError>)
    ensures
        find_stake_asset(stake_assets@, denom@, stake_assets@.len()) is Some ==> r == Ok::<(), ContractError>(()),
        find_stake_asset(stake_assets@, denom@, stake_assets@.len()) is None
            ==> r == Err::<(), ContractError>(ContractError::NotStakedAsset(*denom)),
{
    match find_stake_asset_index(stake_assets, denom) {
        Some(_) => Ok(()),
        None => Err(ContractError::NotStakedAsset(denom.clone())),
    }
}

/// The pool whose TWAP prices a staked asset: none while staking is
/// disabled, and an error when the asset is not configured.
pub open spec fn stake_pool_result(c: Config, denom: Seq<char>) -> Result<Option<Pool>, ContractError> {
    if c.stake_assets is None {
        Ok(None)
    } else {
        match find_stake_asset(c.stake_assets->0@, denom, c.stake_assets->0@.len()) {
            Some(i) => Ok(Some(c.stake_assets->0@[i].pool)),
            None => Err(ContractError::StakePoolNotConfigured),
        }
    }
}

/// Chooses the pool to read a staked asset's price from.
pub fn stake_pool_for(config: &Config, denom: &String) -> (r: Result<Option<Pool>, ContractError>)
    ensures
        r == stake_pool_result(*config, denom@),
{
    match &config.stake_assets {
        None => Ok(None),
        Some(assets) => match find_stake_asset_index(assets, denom) {
            Some(i) => Ok(Some(assets[i].pool.duplicate())),
            None => Err(ContractError::StakePoolNotConfigured),
        },
    }
}

/// Whether a denom is among the denoms a pool holds liquidity in.
pub fn denom_in_pool(denoms: &Vec<String>, denom: &String) -> (r: bool)
    ensures
        r == exists|i: int| 0 <= i < denoms@.len() && #[trigger] denoms@[i]@ == denom@,
{
    let n = denoms.len();
    let mut i: usize = 0;
    while i < n
        invariant
            n == denoms@.len(),
            i <= n,
            forall|k: int| 0 <= k < i ==> #[trigger] denoms@[k]@ != denom@,
        decreases n - i,
    {
        if denoms[i].eq(denom) {
            return true;
        }
        i = i + 1;
    }
    false
}

} // verus!
