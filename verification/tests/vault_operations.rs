use margined_power::admin::{instantiate_config, InstantiateMsg};
use margined_power::config::{Asset, Config, Pool, VaultType};
use margined_power::error::ContractError;
use margined_power::math::{Decimal, Timestamp};
use margined_power::operations::{burn, deposit, liquidate, mint, withdraw, MintDelivery, Prices};
use margined_power::payment::Coin;
use margined_power::state::State;
use margined_power::vault::Vault;

const ONE: u128 = 1_000_000_000_000_000_000;
const NOW: u64 = 1_700_000_000;

fn signer() -> String {
    "signer".to_string()
}

fn config() -> Config {
    config_with_fee("0.1")
}

fn config_with_fee(fee_rate: &str) -> Config {
    instantiate_config(InstantiateMsg {
        fee_rate: fee_rate.to_string(),
        fee_pool: "fee_pool".to_string(),
        query_contract: "query".to_string(),
        base_asset: Asset { denom: "base".to_string(), decimals: 6 },
        power_asset: Asset { denom: "power".to_string(), decimals: 6 },
        stake_assets: None,
        base_pool: Pool { id: 1, base_denom: "base".to_string(), quote_denom: "quote".to_string() },
        power_pool: Pool { id: 2, base_denom: "power".to_string(), quote_denom: "base".to_string() },
        index_scale: 10_000,
        min_collateral_amount: "0.5".to_string(),
    })
    .unwrap()
}

/// Open, unpaused, funding last applied in the current second.
fn open_state() -> State {
    State {
        is_open: true,
        is_paused: false,
        last_pause: Timestamp::from_seconds(NOW - 10),
        normalisation_factor: Decimal::one(),
        last_funding_update: Timestamp::from_seconds(NOW),
    }
}

fn now() -> Timestamp {
    Timestamp::from_seconds(NOW)
}

/// Every price 0.3: the mark equals the index, so funding keeps the factor.
fn prices() -> Prices {
    let p = Decimal::raw(3 * ONE / 10);
    Prices { funding_quote: p, funding_power: p, quote: p, power: p, stake: None }
}

fn coin(denom: &str, amount: u128) -> Coin {
    Coin { denom: denom.to_string(), amount }
}

fn vault(collateral: u128, short_amount: u128) -> Vault {
    Vault { operator: signer(), collateral, short_amount, vault_type: VaultType::Default }
}

#[test]
fn mint_into_a_new_vault_charges_the_fee() {
    let funds = vec![coin("base", 1_000_000)];
    let out = mint(&open_state(), &config(), &signer(), &funds, 1_000_000, None, false, false, &None, 0, now(), &prices())
        .unwrap();
    // fee: 1 power x 0.3 x 10% = 0.03 base, taken from the 1 base sent
    assert_eq!(out.vault_id, 1);
    assert_eq!(out.vault_count, 1);
    assert_eq!((out.vault.collateral, out.vault.short_amount), (970_000, 1_000_000));
    assert_eq!(out.fee_amount, Decimal::raw(3 * ONE / 100));
    assert_eq!(out.fee_transfer, Some(("base".to_string(), 30_000)));
    assert_eq!(out.delivery, MintDelivery::ToSender);
    assert_eq!(out.normalisation_factor, Decimal::one());
}

#[test]
fn mint_applies_funding_first() {
    let mut state = open_state();
    state.last_funding_update = Timestamp::from_seconds(NOW - 3_600);
    let funds = vec![coin("base", 1_000_000)];
    let out = mint(&state, &config(), &signer(), &funds, 1_000_000, None, false, true, &None, 4, now(), &prices()).unwrap();
    // mark equals index: the factor stays one, the update time moves to now
    assert_eq!(out.state.last_funding_update, now());
    assert_eq!(out.normalisation_factor, Decimal::one());
    assert_eq!(out.vault_id, 5);
    assert_eq!(out.delivery, MintDelivery::SellThroughContract);
}

#[test]
fn mint_refusals() {
    let c = config();
    let s = open_state();
    let p = prices();
    let base = vec![coin("base", 1_000_000)];
    let none: Option<Vault> = None;
    let err = |funds: &Vec<Coin>, amount: u128, id: Option<u64>, existing: &Option<Vault>| {
        mint(&s, &c, &signer(), funds, amount, id, false, false, existing, 0, now(), &p).unwrap_err()
    };
    assert_eq!(err(&base, 0, None, &none), ContractError::ZeroMint);
    assert_eq!(err(&vec![coin("base", 1), coin("power", 1)], 1_000_000, None, &none), ContractError::InvalidFunds);
    assert_eq!(err(&vec![], 1_000_000, None, &none), ContractError::MustSendCollateralToNewVault);
    assert_eq!(err(&base, 1_000_000, Some(5), &none), ContractError::VaultDoesNotExist(5));
    // 10 power against 0.7 base left after the fee: 1.4 < 3 x 3
    assert_eq!(err(&base, 10_000_000, None, &none), ContractError::UnsafeVault);
    // 0.397 base left is below the 0.5 minimum
    assert_eq!(err(&vec![coin("base", 400_000)], 100_000, None, &none), ContractError::BelowMinCollateralAmount);
    let staked = Some(Vault { vault_type: VaultType::Staked { denom: "st".to_string() }, ..vault(1, 0) });
    assert_eq!(
        err(&base, 1_000_000, Some(3), &staked),
        ContractError::VaultTypeDoesNotMatch(
            VaultType::Staked { denom: "st".to_string() },
            VaultType::Default,
            3
        )
    );
}

#[test]
fn mint_into_an_existing_vault_adds_debt() {
    let existing = Some(vault(2_000_000, 1_000_000));
    let out = mint(&open_state(), &config(), &signer(), &vec![], 1_000_000, Some(1), false, false, &existing, 1, now(), &prices())
        .unwrap();
    // no deposit: the 0.03 fee comes out of the vault
    assert_eq!((out.vault.collateral, out.vault.short_amount), (1_970_000, 2_000_000));
    assert_eq!(out.vault_count, 1);
}

#[test]
fn burn_reduces_debt_and_returns_collateral() {
    let existing = Some(vault(970_000, 1_000_000));
    let funds = vec![coin("power", 500_000)];
    let out = burn(&open_state(), &config(), &signer(), &funds, Some(100_000), 1, &existing, now(), &prices()).unwrap();
    assert_eq!((out.vault.collateral, out.vault.short_amount), (870_000, 500_000));
    assert_eq!(out.amount_burned, 500_000);
    assert_eq!(out.withdrawal, Some(("base".to_string(), 100_000)));
}

#[test]
fn burn_refusals() {
    let c = config();
    let existing = Some(vault(970_000, 1_000_000));
    let p = prices();
    let s = open_state();
    assert_eq!(
        burn(&s, &c, &signer(), &vec![], None, 1, &existing, now(), &p).unwrap_err(),
        ContractError::InvalidFunds
    );
    assert_eq!(
        burn(&s, &c, &signer(), &vec![coin("power", 2_000_000)], None, 1, &existing, now(), &p).unwrap_err(),
        ContractError::BurnExceedsVault
    );
    assert_eq!(
        burn(&s, &c, &signer(), &vec![coin("power", 500_000)], Some(900_000), 1, &existing, now(), &p).unwrap_err(),
        ContractError::UnsafeVault
    );
    assert_eq!(
        burn(&s, &c, &signer(), &vec![coin("power", 1)], None, 9, &None, now(), &p).unwrap_err(),
        ContractError::VaultDoesNotExist(9)
    );
}

#[test]
fn deposit_and_withdraw() {
    let c = config();
    let s = open_state();
    let p = prices();
    let existing = Some(vault(970_000, 1_000_000));
    let d = deposit(&s, &c, &signer(), &vec![coin("base", 100_000)], 1, &existing, now(), &p).unwrap();
    assert_eq!((d.vault.collateral, d.amount, d.denom.as_str()), (1_070_000, 100_000, "base"));
    let w = withdraw(&s, &c, &signer(), &vec![], 400_000, 1, &existing, now(), &p).unwrap();
    assert_eq!(w.vault.collateral, 570_000);
    assert_eq!(
        withdraw(&s, &c, &signer(), &vec![], 500_000, 1, &existing, now(), &p).unwrap_err(),
        ContractError::BelowMinCollateralAmount
    );
    assert_eq!(
        withdraw(&s, &c, &signer(), &vec![coin("base", 1)], 1, 1, &existing, now(), &p).unwrap_err(),
        ContractError::NonPayable
    );
    assert_eq!(
        deposit(&s, &c, &signer(), &vec![coin("power", 1)], 1, &existing, now(), &p).unwrap_err(),
        ContractError::InvalidFunds
    );
    assert_eq!(
        deposit(&s, &c, &"other".to_string(), &vec![coin("base", 1)], 1, &existing, now(), &p).unwrap_err(),
        ContractError::OperatorDoesNotMatch
    );
}

#[test]
fn liquidating_an_unsafe_vault() {
    let c = config();
    let s = open_state();
    let p = prices();
    // 1 base against 10 power at 0.3: 2 < 9, unsafe
    let existing = Some(vault(1_000_000, 10_000_000));
    let out = liquidate(&s, &c, &vec![], 10_000_000, 1, &existing, None, now(), &p).unwrap();
    // half the debt would cost 1.65 base, more than the vault holds: all of it goes
    assert_eq!((out.liquidation_amount, out.collateral_to_pay), (10_000_000, 1_000_000));
    assert!(out.vault.is_empty());
    assert_eq!(out.collateral_denom, "base".to_string());
}

#[test]
fn liquidation_refusals() {
    let c = config();
    let s = open_state();
    let p = prices();
    let unsafe_vault = Some(vault(1_000_000, 10_000_000));
    let safe_vault = Some(vault(10_000_000, 1_000_000));
    assert_eq!(
        liquidate(&s, &c, &vec![], 1_000_000, 1, &safe_vault, None, now(), &p).unwrap_err(),
        ContractError::SafeVault
    );
    assert_eq!(
        liquidate(&s, &c, &vec![coin("power", 1)], 1_000_000, 1, &unsafe_vault, None, now(), &p).unwrap_err(),
        ContractError::NonPayable
    );
    assert_eq!(
        liquidate(&s, &c, &vec![], 6_000_000, 1, &unsafe_vault, None, now(), &p).unwrap_err(),
        ContractError::InvalidLiquidation
    );
    assert_eq!(
        liquidate(&s, &c, &vec![], 10_000_000, 1, &unsafe_vault, Some(2_000_000), now(), &p).unwrap_err(),
        ContractError::UnprofitableLiquidation
    );
}

#[test]
fn fee_free_mint_into_own_vault_adds_deposit_and_debt() {
    let existing = Some(vault(45_000_000, 100_000_000));
    let funds = vec![coin("base", 4_500_000)];
    let out = mint(&open_state(), &config_with_fee("0"), &signer(), &funds, 1_000_000, Some(1), false, false, &existing, 1, now(), &prices())
        .unwrap();
    assert_eq!((out.vault.collateral, out.vault.short_amount), (49_500_000, 101_000_000));
    assert_eq!(out.vault_id, 1);
    assert_eq!(out.mint_amount, 1_000_000);
    assert_eq!(out.delivery, MintDelivery::ToSender);
    assert_eq!(out.fee_transfer, None);
}
