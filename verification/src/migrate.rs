//! Types of the earlier storage layout and the owner's migration entry points.

use vstd::prelude::*;
use crate::config::{Asset, Pool};
use crate::error::ContractError;
use crate::math::Decimal;
use crate::payment::{Coin, nonpayable};

verus! {

/// A pool as the earlier layout stored it.
#[derive(Clone, Debug)]
pub struct OldPool {
    pub id: u64,
    pub quote_denom: String,
}

/// A vault's collateral kind as the earlier layout stored it.
#[derive(Clone, Copy, Debug, PartialEq, Eq, Structural)]
pub enum OldVaultType {
    Default,
    Staked,
}

/// The configuration as the earlier layout stored it: at most one staked
/// asset, priced by its own pool.
#[derive(Clone, Debug)]
pub struct OldConfig {
    pub query_contract: String,
    pub fee_pool_contract: String,
    pub fee_rate: Decimal,
    pub base_asset: Asset,
    pub power_asset: Asset,
    pub stake_asset: Option<Asset>,
    pub base_pool: Pool,
    pub power_pool: Pool,
    pub stake_pool: Option<Pool>,
    pub funding_period: u64,
    pub index_scale: u64,
    pub min_collateral_amount: Decimal,
}

/// A vault as the earlier layout stored it.
#[derive(Clone, Debug)]
pub struct OldVault {
    pub operator: String,
    pub collateral: u128,
    pub short_amount: u128,
    pub vault_type: OldVaultType,
}

/// The instantiation parameters of the earlier layout.
#[derive(Clone, Debug)]
pub struct OldInstantiateMsg {
    pub fee_rate: String,
    pub fee_pool: String,
    pub query_contract: String,
    pub base_denom: String,
    pub power_denom: String,
    pub stake_denom: Option<String>,
    pub base_pool_id: u64,
    pub base_pool_quote: String,
    pub power_pool_id: u64,
    pub stake_pool_id: Option<u64>,
    pub base_decimals: u32,
    pub power_decimals: u32,
    pub stake_decimals: Option<u32>,
    pub index_scale: u64,
    pub min_collateral_amount: String,
}

/// Migrating stored vaults: only the owner may, and without funds. The
/// stored vaults are left as they are.
pub fn handle_migrate_vaults(sender_is_owner: bool, funds: &Vec<Coin>) -> (r: Result<(), ContractError>)
    ensures
        !sender_is_owner ==> r == Err::<(), ContractError>(ContractError::Unauthorized),
        sender_is_owner && funds@.len() != 0 ==> r == Err::<(), ContractError>(ContractError::NonPayable),
        sender_is_owner && funds@.len() == 0 ==> r == Ok::<(), ContractError>(()),
{
    if !sender_is_owner {
        return Err(ContractError::Unauthorized);
    }
    match nonpayable(funds) {
        Ok(()) => Ok(()),
        Err(_) => Err(ContractError::NonPayable),
    }
}

/// Migrating the contract itself changes nothing stored.
pub fn handle_migration() -> (r: Result<(), ContractError>)
    ensures
        r == Ok::<(), ContractError>(()),
{
    Ok(())
}

} // verus!
