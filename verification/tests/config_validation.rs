use margined_power::config::{check_duplicates, Asset, Config, Pool, StakeAsset};
use margined_power::error::ContractError;
use margined_power::math::Decimal;
use std::str::FromStr;

const SCALE_FACTOR: u64 = 10_000;

fn dec(s: &str) -> Decimal {
    Decimal::raw(cosmwasm_std::Decimal::from_str(s).unwrap().atomics().u128())
}

fn config(power: Asset, base: Asset, base_pool_id: u64, power_pool_id: u64, funding_period: u64) -> Config {
    Config {
        fee_rate: Decimal::percent(0),
        fee_pool_contract: "fee_pool".to_string(),
        query_contract: "query".to_string(),
        power_asset: power,
        base_asset: base,
        stake_assets: None,
        base_pool: Pool { id: base_pool_id, base_denom: "base_base".to_string(), quote_denom: "base_quote".to_string() },
        power_pool: Pool { id: power_pool_id, base_denom: "power_base".to_string(), quote_denom: "power_quote".to_string() },
        funding_period,
        index_scale: SCALE_FACTOR,
        min_collateral_amount: dec("0.5"),
    }
}

fn asset(denom: &str, decimals: u32) -> Asset {
    Asset { denom: denom.to_string(), decimals }
}

#[test]
fn test_config_validation() {
    // invalid base decimals
    {
        let c = config(asset("power", 6), asset("base", 60), 1, 2, 100);
        assert_eq!(c.validate().unwrap_err(), ContractError::InvalidBaseDecimals);
    }
    // invalid power decimals
    {
        let c = config(asset("power", 19), asset("base", 6), 1, 2, 100);
        assert_eq!(c.validate().unwrap_err(), ContractError::InvalidPowerDecimals);
    }
    // invalid funding period
    {
        let c = config(asset("power", 6), asset("base", 6), 1, 2, 0);
        assert_eq!(c.validate().unwrap_err(), ContractError::InvalidFundingPeriod);
    }
    // invalid base and power denom
    {
        let c = config(asset("power", 6), asset("power", 6), 1, 2, 100);
        assert_eq!(c.validate().unwrap_err(), ContractError::SameBaseAndPowerDenom);
    }
    // invalid base and power id
    {
        let c = config(asset("power", 6), asset("base", 6), 1, 1, 100);
        assert_eq!(c.validate().unwrap_err(), ContractError::SameBaseAndPowerPool);
    }
}

#[test]
fn config_validation_accepts_a_valid_config_and_checks_every_rule() {
    let good = config(asset("power", 6), asset("base", 6), 1, 2, 100);
    assert_eq!(good.validate(), Ok(()));

    let mut c = config(asset("power", 6), asset("base", 6), 1, 2, 100);
    c.fee_rate = Decimal::one();
    assert_eq!(c.validate(), Err(ContractError::InvalidFeeRate));

    let mut c = config(asset("power", 6), asset("base", 6), 1, 2, 100);
    c.min_collateral_amount = Decimal::zero();
    assert_eq!(c.validate(), Err(ContractError::ZeroMinCollateral));

    let mut c = config(asset("power", 6), asset("base", 6), 1, 2, 100);
    c.index_scale = 7;
    assert_eq!(c.validate(), Err(ContractError::InvalidIndexScale));

    let c = config(asset("power", 6), asset("base", 6), 1, 2, 2 * 1_512_000 + 1);
    assert_eq!(c.validate(), Err(ContractError::InvalidFundingPeriod));
    let c = config(asset("power", 6), asset("base", 6), 1, 2, 2 * 1_512_000);
    assert_eq!(c.validate(), Ok(()));
}

#[test]
fn config_validation_checks_staked_assets() {
    let stake = |denom: &str, decimals: u32| StakeAsset {
        denom: denom.to_string(),
        decimals,
        pool: Pool { id: 3, base_denom: denom.to_string(), quote_denom: "quote".to_string() },
    };
    let list = vec![stake("a", 6), stake("b", 6), stake("a", 6), stake("b", 6)];
    assert_eq!(check_duplicates(&list), Err(ContractError::DuplicateAssetDenom("a".to_string())));
    assert_eq!(check_duplicates(&vec![stake("a", 6), stake("b", 6)]), Ok(()));

    let mut c = config(asset("power", 6), asset("base", 6), 1, 2, 100);
    c.stake_assets = Some(vec![stake("a", 6), stake("b", 0)]);
    assert_eq!(c.validate(), Err(ContractError::InvalidStakeAssetDecimals("b".to_string())));
    c.stake_assets = Some(list);
    assert_eq!(c.validate(), Err(ContractError::DuplicateAssetDenom("a".to_string())));
    assert!(c.is_stake_enabled());
}
