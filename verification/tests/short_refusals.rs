use margined_power::admin::{instantiate_config, InstantiateMsg};
use margined_power::config::{Asset, Config, Pool};
use margined_power::error::ContractError;
use margined_power::flows::{close_short, open_short, remove_empty_vaults, CloseShortPlan};
use margined_power::math::{Decimal, Timestamp};
use margined_power::operations::{burn, mint, Prices};
use margined_power::payment::Coin;
use margined_power::state::State;
use margined_power::vault::Vault;

const ONE: u128 = 1_000_000_000_000_000_000;
const NOW: u64 = 1_700_000_000;
const VAULT_COLLATERAL: u128 = 910_000u128;
const VAULT_MINT_AMOUNT: u128 = 2_000_000u128;

/// The base a pool quote asks to buy the vault's power back; the refusals
/// below come before the swap, so its exact value does not matter.
const AMOUNT_TO_SWAP: u128 = 700_000u128;
/// The base an open short's swap gave out.
const POWER_EXPOSURE: u128 = 570_000u128;

fn trader(i: u8) -> String {
    format!("trader{}", i)
}

/// Fee-free, as the deployment the swap scenarios run against.
fn config() -> Config {
    instantiate_config(InstantiateMsg {
        fee_rate: "0".to_string(),
        fee_pool: "fee_pool".to_string(),
        query_contract: "query".to_string(),
        base_asset: Asset { denom: "base".to_string(), decimals: 6 },
        power_asset: Asset { denom: "power".to_string(), decimals: 6 },
        stake_assets: None,
        base_pool: Pool { id: 1, base_denom: "base".to_string(), quote_denom: "quote".to_string() },
        power_pool: Pool { id: 2, base_denom: "power".to_string(), quote_denom: "base".to_string() },
        index_scale: 10_000,
        min_collateral_amount: "0.5".to_string(),
    })
    .unwrap()
}

fn open_state() -> State {
    State {
        is_open: true,
        is_paused: false,
        last_pause: Timestamp::from_seconds(NOW - 10),
        normalisation_factor: Decimal::one(),
        last_funding_update: Timestamp::from_seconds(NOW),
    }
}

fn now() -> Timestamp {
    Timestamp::from_seconds(NOW)
}

fn prices() -> Prices {
    let p = Decimal::raw(3 * ONE / 10);
    Prices { funding_quote: p, funding_power: p, quote: p, power: p, stake: None }
}

fn coin(denom: &str, amount: u128) -> Coin {
    Coin { denom: denom.to_string(), amount }
}

/// The vault that trader 1's open short of `VAULT_MINT_AMOUNT` against
/// `VAULT_COLLATERAL` creates as vault 1.
fn shorted_vault() -> Vault {
    let (out, _) = open_short(
        &open_state(),
        &config(),
        &trader(1),
        &vec![coin("base", VAULT_COLLATERAL)],
        VAULT_MINT_AMOUNT,
        None,
        None,
        &None,
        0,
        now(),
        &prices(),
        0,
    )
    .unwrap();
    assert_eq!(out.vault_id, 1);
    out.vault
}

#[test]
fn test_fail_close_short_burn_greater_than_vault() {
    let vault = Some(shorted_vault());
    let err = close_short(
        &config(),
        &trader(1),
        &vec![coin("base", AMOUNT_TO_SWAP)],
        VAULT_MINT_AMOUNT + 1,
        None,
        1,
        &vault,
        0,
    )
    .unwrap_err();
    assert_eq!(err, ContractError::BurnExceedsVault);
}

#[test]
fn test_fail_close_short_withdraw_greater_than_vault() {
    let vault = Some(shorted_vault());
    let err = close_short(
        &config(),
        &trader(1),
        &vec![coin("base", AMOUNT_TO_SWAP)],
        VAULT_MINT_AMOUNT,
        Some(VAULT_COLLATERAL + 1),
        1,
        &vault,
        0,
    )
    .unwrap_err();
    assert_eq!(err, ContractError::BurnExceedsVault);
}

#[test]
fn test_fail_close_short_incorrect_sender() {
    let vault = Some(shorted_vault());
    let err = close_short(
        &config(),
        &trader(0),
        &vec![coin("base", POWER_EXPOSURE)],
        VAULT_MINT_AMOUNT,
        Some(VAULT_COLLATERAL),
        1,
        &vault,
        0,
    )
    .unwrap_err();
    assert_eq!(err, ContractError::OperatorDoesNotMatch);
}

#[test]
fn test_fail_close_short_incorrect_funds() {
    let vault = Some(shorted_vault());
    let err = close_short(
        &config(),
        &trader(1),
        &vec![coin("gas", POWER_EXPOSURE)],
        VAULT_MINT_AMOUNT,
        Some(VAULT_COLLATERAL),
        1,
        &vault,
        0,
    )
    .unwrap_err();
    assert_eq!(err, ContractError::InvalidFunds);
}

#[test]
fn test_remove_empty_vault() {
    let vault = Some(shorted_vault());
    // trader 2 mints as much power into vault 2 and hands it to trader 1
    let minted = mint(
        &open_state(),
        &config(),
        &trader(2),
        &vec![coin("base", VAULT_COLLATERAL)],
        VAULT_MINT_AMOUNT,
        None,
        false,
        false,
        &None,
        1,
        now(),
        &prices(),
    )
    .unwrap();
    assert_eq!(minted.vault_id, 2);
    // trader 1 closes with no exposure left to buy back: a plain burn
    let funds = vec![coin("power", VAULT_MINT_AMOUNT)];
    let plan = close_short(&config(), &trader(1), &funds, 0, Some(VAULT_COLLATERAL), 1, &vault, VAULT_MINT_AMOUNT)
        .unwrap();
    assert!(matches!(plan, CloseShortPlan::Burn));
    let burnt = burn(&open_state(), &config(), &trader(1), &funds, Some(VAULT_COLLATERAL), 1, &vault, now(), &prices())
        .unwrap();
    assert_eq!((burnt.vault.collateral, burnt.vault.short_amount), (0, 0));
    // trader 1's one vault is empty, so removing empty vaults removes it
    let page = vec![(1u64, burnt.vault), (2u64, minted.vault)];
    let out = remove_empty_vaults(&open_state(), &vec![], &page, 2, now(), &prices()).unwrap();
    assert_eq!(out.removed, vec![1]);
    assert_eq!(out.vault_count, 1);
}

#[test]
fn test_fail_remove_empty_vault_has_short_exposure() {
    let page = vec![(1u64, shorted_vault())];
    let err = remove_empty_vaults(&open_state(), &vec![], &page, 1, now(), &prices()).unwrap_err();
    assert_eq!(err, ContractError::NoEmptyVaults);
}

#[test]
fn test_fail_open_short_existing_vault_incorrect_user() {
    let minted = mint(
        &open_state(),
        &config(),
        &trader(1),
        &vec![coin("base", VAULT_COLLATERAL)],
        VAULT_MINT_AMOUNT,
        None,
        false,
        false,
        &None,
        0,
        now(),
        &prices(),
    )
    .unwrap();
    assert_eq!(minted.vault_id, 1);
    let err = open_short(
        &open_state(),
        &config(),
        &trader(0),
        &vec![coin("base", VAULT_COLLATERAL)],
        VAULT_MINT_AMOUNT,
        Some(1),
        None,
        &Some(minted.vault),
        1,
        now(),
        &prices(),
        VAULT_MINT_AMOUNT,
    )
    .unwrap_err();
    assert_eq!(err, ContractError::OperatorDoesNotMatch);
}
