//! The owner's configuration actions: building the configuration at
//! instantiation and updating the fee settings.

use vstd::prelude::*;
use crate::config::{Asset, Config, FUNDING_PERIOD, Pool, StakeAsset, validate_result};
use crate::error::ContractError;
use crate::math::Decimal;
use std::str::FromStr;

verus! {

/// What `cosmwasm_std::Decimal::from_str` gives for a string, as atomics;
/// `None` when the string is not a decimal in range.
pub uninterp spec fn parse_decimal(s: Seq<char>) -> Option<u128>;

/// Parses a decimal string such as "0.1".
///
/// Trusted: calls `cosmwasm_std::Decimal::from_str`; the contract only
/// names its result (`parse_decimal`).
#[verifier::external_body]
pub(crate) fn decimal_from_str(s: &String) -> (r: Option<Decimal>)
    ensures
        r is Some <==> parse_decimal(s@) is Some,
        r matches Some(d) ==> parse_decimal(s@) == Some(d.atomics),
{
    match cosmwasm_std::Decimal::from_str(s) {
        Ok(d) => Some(Decimal { atomics: d.atomics().u128() }),
        Err(_) => None,
    }
}

/// The parameters the protocol is instantiated with.
#[derive(Clone, Debug)]
pub struct InstantiateMsg {
    pub fee_rate: String,
    pub fee_pool: String,
    pub query_contract: String,
    pub base_asset: Asset,
    pub power_asset: Asset,
    pub stake_assets: Option<Vec<StakeAsset>>,
    pub base_pool: Pool,
    pub power_pool: Pool,
    pub index_scale: u64,
    pub min_collateral_amount: String,
}

/// The configuration built from instantiation parameters whose decimal
/// strings parse as `fee_rate` and `min_collateral`.
pub open spec fn instantiated_config(msg: InstantiateMsg, fee_rate: u128, min_collateral: u128) -> Config {
    Config {
        query_contract: msg.query_contract,
        fee_pool_contract: msg.fee_pool,
        fee_rate: Decimal { atomics: fee_rate },
        base_asset: msg.base_asset,
        power_asset: msg.power_asset,
        stake_assets: msg.stake_assets,
        base_pool: msg.base_pool,
        power_pool: msg.power_pool,
        funding_period: FUNDING_PERIOD,
        index_scale: msg.index_scale,
        min_collateral_amount: Decimal { atomics: min_collateral },
    }
}

/// What building the configuration gives once the decimal strings are
/// read: the configuration, or the first rule it breaks.
pub open spec fn build_config_result(msg: InstantiateMsg, fee_rate: u128, min_collateral: u128) -> Result<Config, ContractError> {
    match validate_result(instantiated_config(msg, fee_rate, min_collateral)) {
        Err(e) => Err(e),
        Ok(_) => Ok(instantiated_config(msg, fee_rate, min_collateral)),
    }
}

/// What instantiating gives: the configuration, or the first rule it breaks.
pub open spec fn instantiate_config_result(msg: InstantiateMsg) -> Result<Config, ContractError> {
    match parse_decimal(msg.fee_rate@) {
        None => Err(ContractError::InvalidDecimalString),
        Some(fee_rate) => match parse_decimal(msg.min_collateral_amount@) {
            None => Err(ContractError::InvalidDecimalString),
            Some(min_collateral) => build_config_result(msg, fee_rate, min_collateral),
        },
    }
}

/// Builds and validates the configuration from the instantiation
/// parameters, given the fee rate and minimum collateral their strings
/// read as, with the standard funding period.
pub fn build_config(msg: InstantiateMsg, fee_rate: Decimal, min_collateral: Decimal) -> (r: Result<Config, ContractError>)
    ensures
        r == build_config_result(msg, fee_rate.atomics, min_collateral.atomics),
{
    let config = Config {
        query_contract: msg.query_contract,
        fee_pool_contract: msg.fee_pool,
        fee_rate,
        base_asset: msg.base_asset,
        power_asset: msg.power_asset,
        stake_assets: msg.stake_assets,
        base_pool: msg.base_pool,
        power_pool: msg.power_pool,
        funding_period: FUNDING_PERIOD,
        index_scale: msg.index_scale,
        min_collateral_amount: min_collateral,
    };
    config.validate()?;
    Ok(config)
}

/// Builds and validates the configuration from the instantiation
/// parameters, reading the fee rate and the minimum collateral from their
/// decimal strings.
pub fn instantiate_config(msg: InstantiateMsg) -> (r: Result<Config, ContractError>)
    ensures
        r == instantiate_config_result(msg),
{
    let fee_rate = match decimal_from_str(&msg.fee_rate) {
        Some(d) => d,
        None => { return Err(ContractError::InvalidDecimalString); },
    };
    let min_collateral = match decimal_from_str(&msg.min_collateral_amount) {
        Some(d) => d,
        None => { return Err(ContractError::InvalidDecimalString); },
    };
    build_config(msg, fee_rate, min_collateral)
}

/// The configuration with the requested fee settings applied (before
/// validation).
pub open spec fn updated_config(c: Config, fee_rate: Option<u128>, fee_pool: Option<String>) -> Config {
    Config {
        fee_rate: match fee_rate {
            Some(f) => Decimal { atomics: f },
            None => c.fee_rate,
        },
        fee_pool_contract: match fee_pool {
            Some(p) => p,
            None => c.fee_pool_contract,
        },
        ..c
    }
}

/// What applying parsed fee settings gives: the updated configuration, or
/// the first rule it breaks.
pub open spec fn fee_update_result(c: Config, fee_rate: Option<u128>, fee_pool: Option<String>) -> Result<Config, ContractError> {
    match validate_result(updated_config(c, fee_rate, fee_pool)) {
        Err(e) => Err(e),
        Ok(_) => Ok(updated_config(c, fee_rate, fee_pool)),
    }
}

/// What updating the configuration gives.
pub open spec fn update_config_result(c: Config, sender_is_owner: bool, fee_rate: Option<String>, fee_pool: Option<String>) -> Result<Config, ContractError> {
    if !sender_is_owner {
        Err(ContractError::Unauthorized)
    } else if fee_rate is Some && parse_decimal(fee_rate->0@) is None {
        Err(ContractError::InvalidDecimalString)
    } else {
        fee_update_result(
            c,
            match fee_rate {
                Some(s) => Some(parse_decimal(s@)->0),
                None => None,
            },
            fee_pool,
        )
    }
}

/// Applies a new fee rate and fee pool address, each when given, and
/// validates the result.
pub fn apply_fee_update(config: Config, fee_rate: Option<Decimal>, fee_pool: Option<String>) -> (r: Result<Config, ContractError>)
    ensures
        r == fee_update_result(
            config,
            match fee_rate {
                Some(d) => Some(d.atomics),
                None => None,
            },
            fee_pool,
        ),
{
    let mut updated = config;
    match fee_rate {
        Some(d) => { updated.fee_rate = d; },
        None => {},
    }
    match fee_pool {
        Some(p) => { updated.fee_pool_contract = p; },
        None => {},
    }
    updated.validate()?;
    Ok(updated)
}

/// Updates the fee rate and the fee pool address: only the owner may, and
/// the result must still be a valid configuration (`fee_pool` is an address
/// already validated).
pub fn update_config(config: Config, sender_is_owner: bool, fee_rate: Option<String>, fee_pool: Option<String>) -> (r: Result<Config, ContractError>)
    ensures
        r == update_config_result(config, sender_is_owner, fee_rate, fee_pool),
{
    if !sender_is_owner {
        return Err(ContractError::Unauthorized);
    }
    let parsed = match &fee_rate {
        Some(s) => match decimal_from_str(s) {
            Some(d) => Some(d),
            None => { return Err(ContractError::InvalidDecimalString); },
        },
        None => None,
    };
    apply_fee_update(config, parsed, fee_pool)
}

/// An update that changes nothing keeps a valid configuration as it is.
pub proof fn law_empty_update_keeps_config(c: Config)
    requires
        validate_result(c) is Ok,
    ensures
        update_config_result(c, true, None, None) == Ok::<Config, ContractError>(c),
{
    assert(updated_config(c, None, None) == c);
}

/// Whatever an update asks, a configuration it stores is valid.
pub proof fn law_update_keeps_config_valid(c: Config, sender_is_owner: bool, fee_rate: Option<String>, fee_pool: Option<String>)
    ensures
        update_config_result(c, sender_is_owner, fee_rate, fee_pool) matches Ok(n) ==> validate_result(n) is Ok,
{
}

} // verus!
