use margined_power::admin::{apply_fee_update, build_config, instantiate_config, update_config, InstantiateMsg};
use margined_power::config::{Asset, Config, Pool, StakeAsset, VaultType};
use margined_power::error::ContractError;
use margined_power::math::{Decimal, Timestamp};
use margined_power::migrate::{handle_migrate_vaults, handle_migration};
use margined_power::payment::{get_sent_collateral_and_vault_type, may_pay, must_pay, nonpayable, Coin};
use margined_power::queries::{calculate_start_time, get_next_vault_id, user_vaults_limit};

const ONE: u128 = 1_000_000_000_000_000_000;

fn coin(denom: &str, amount: u128) -> Coin {
    Coin { denom: denom.to_string(), amount }
}

fn msg() -> InstantiateMsg {
    InstantiateMsg {
        fee_rate: "0.1".to_string(),
        fee_pool: "fee_pool".to_string(),
        query_contract: "query".to_string(),
        base_asset: Asset { denom: "base".to_string(), decimals: 6 },
        power_asset: Asset { denom: "power".to_string(), decimals: 6 },
        stake_assets: Some(vec![StakeAsset {
            denom: "stbase".to_string(),
            decimals: 6,
            pool: Pool { id: 3, base_denom: "stbase".to_string(), quote_denom: "base".to_string() },
        }]),
        base_pool: Pool { id: 1, base_denom: "base".to_string(), quote_denom: "quote".to_string() },
        power_pool: Pool { id: 2, base_denom: "power".to_string(), quote_denom: "base".to_string() },
        index_scale: 10_000,
        min_collateral_amount: "0.5".to_string(),
    }
}

fn config() -> Config {
    instantiate_config(msg()).unwrap()
}

#[test]
fn nothing_may_be_sent() {
    assert_eq!(nonpayable(&vec![]), Ok(()));
    assert_eq!(nonpayable(&vec![coin("base", 1)]), Err(ContractError::NonPayable));
}

#[test]
fn exactly_one_coin_of_a_denom_must_be_sent() {
    let base = "base".to_string();
    assert_eq!(must_pay(&vec![coin("base", 5)], &base), Ok(5));
    assert_eq!(must_pay(&vec![], &base), Err(ContractError::NoFunds));
    assert_eq!(must_pay(&vec![coin("base", 0)], &base), Err(ContractError::NoFunds));
    assert_eq!(must_pay(&vec![coin("base", 1), coin("power", 1)], &base), Err(ContractError::MultipleDenoms));
    assert_eq!(must_pay(&vec![coin("power", 1)], &base), Err(ContractError::MissingDenom(base.clone())));
}

#[test]
fn optional_payment_of_a_denom() {
    let base = "base".to_string();
    assert_eq!(may_pay(&vec![], &base), Ok(0));
    assert_eq!(may_pay(&vec![coin("base", 9)], &base), Ok(9));
    assert_eq!(may_pay(&vec![coin("power", 9)], &base), Err(ContractError::ExtraDenom("power".to_string())));
    assert_eq!(
        may_pay(&vec![coin("base", 1), coin("power", 9)], &base),
        Err(ContractError::ExtraDenom("power".to_string()))
    );
}

#[test]
fn collateral_sent_with_a_mint() {
    let c = config();
    assert!(matches!(get_sent_collateral_and_vault_type(&vec![], &c), Ok((0, None))));
    assert!(matches!(
        get_sent_collateral_and_vault_type(&vec![coin("base", 7)], &c),
        Ok((7, Some(VaultType::Default)))
    ));
    match get_sent_collateral_and_vault_type(&vec![coin("stbase", 8)], &c) {
        Ok((8, Some(VaultType::Staked { denom }))) => assert_eq!(denom, "stbase".to_string()),
        other => panic!("unexpected {:?}", other),
    }
    assert_eq!(
        get_sent_collateral_and_vault_type(&vec![coin("power", 1)], &c).unwrap_err(),
        ContractError::FailedToGetBaseCollateral
    );
    assert_eq!(
        get_sent_collateral_and_vault_type(&vec![coin("base", 1), coin("stbase", 1)], &c).unwrap_err(),
        ContractError::TooManyCoins
    );
}

#[test]
fn building_the_configuration_from_read_decimals() {
    let c = build_config(msg(), Decimal::raw(ONE / 10), Decimal::raw(ONE / 2)).unwrap();
    assert_eq!(c.fee_rate, Decimal::raw(ONE / 10));
    assert_eq!(c.min_collateral_amount, Decimal::raw(ONE / 2));
    assert_eq!(c.funding_period, 1_512_000);
    assert_eq!(
        build_config(msg(), Decimal::raw(ONE), Decimal::raw(ONE / 2)).unwrap_err(),
        ContractError::InvalidFeeRate
    );
    let parsed = instantiate_config(msg()).unwrap();
    assert_eq!((parsed.fee_rate, parsed.min_collateral_amount), (c.fee_rate, c.min_collateral_amount));
}

#[test]
fn configuration_rules_in_order() {
    let mut m = msg();
    m.index_scale = 7;
    assert_eq!(instantiate_config(m).unwrap_err(), ContractError::InvalidIndexScale);
    let mut m = msg();
    m.base_asset.decimals = 19;
    assert_eq!(instantiate_config(m).unwrap_err(), ContractError::InvalidBaseDecimals);
    let mut m = msg();
    m.power_asset.decimals = 0;
    assert_eq!(instantiate_config(m).unwrap_err(), ContractError::InvalidPowerDecimals);
}

#[test]
fn fee_updates() {
    let c = config();
    let updated = apply_fee_update(c.clone(), Some(Decimal::raw(ONE / 4)), None).unwrap();
    assert_eq!(updated.fee_rate, Decimal::raw(ONE / 4));
    assert_eq!(updated.fee_pool_contract, "fee_pool".to_string());
    let unchanged = apply_fee_update(c.clone(), None, None).unwrap();
    assert_eq!((unchanged.fee_rate, unchanged.fee_pool_contract.clone()), (c.fee_rate, c.fee_pool_contract.clone()));
    assert_eq!(apply_fee_update(c.clone(), Some(Decimal::raw(2 * ONE)), None).unwrap_err(), ContractError::InvalidFeeRate);
    let same = update_config(c.clone(), true, None, None).unwrap();
    assert_eq!(same.fee_rate, c.fee_rate);
}

#[test]
fn migrations() {
    assert_eq!(handle_migrate_vaults(false, &vec![]), Err(ContractError::Unauthorized));
    assert_eq!(handle_migrate_vaults(true, &vec![coin("base", 1)]), Err(ContractError::NonPayable));
    assert_eq!(handle_migrate_vaults(true, &vec![]), Ok(()));
    assert_eq!(handle_migration(), Ok(()));
}

#[test]
fn query_helpers() {
    assert_eq!(get_next_vault_id(None), 1);
    assert_eq!(get_next_vault_id(Some(41)), 42);
    assert_eq!(user_vaults_limit(None), 10);
    assert_eq!(user_vaults_limit(Some(3)), 3);
    assert_eq!(user_vaults_limit(Some(500)), 50);
    let start = calculate_start_time(Timestamp::from_seconds(1_000), 600);
    assert_eq!(start.seconds(), 400);
}
