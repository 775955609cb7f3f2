use margined_power::admin::{instantiate_config, InstantiateMsg};
use margined_power::config::{Asset, Config, Pool, StakeAsset};
use margined_power::funding::calculate_normalisation_factor;
use margined_power::helpers::scale_price;
use margined_power::math::{Decimal, Timestamp};
use margined_power::operations::{burn, mint, Prices};
use margined_power::payment::Coin;
use margined_power::state::State;
use margined_power::vault::{is_vault_safe, Vault};
use std::str::FromStr;

const OPENED: u64 = 1_700_000_000;
const INDEX_SCALE: u64 = 10_000;

fn trader() -> String {
    "trader".to_string()
}

fn config() -> Config {
    config_with(None)
}

fn staked_config() -> Config {
    config_with(Some(vec![StakeAsset {
        denom: "stake".to_string(),
        decimals: 6,
        pool: Pool { id: 3, base_denom: "stake".to_string(), quote_denom: "base".to_string() },
    }]))
}

fn config_with(stake_assets: Option<Vec<StakeAsset>>) -> Config {
    instantiate_config(InstantiateMsg {
        fee_rate: "0".to_string(),
        fee_pool: "fee_pool".to_string(),
        query_contract: "query".to_string(),
        base_asset: Asset { denom: "base".to_string(), decimals: 6 },
        power_asset: Asset { denom: "power".to_string(), decimals: 6 },
        stake_assets,
        base_pool: Pool { id: 1, base_denom: "base".to_string(), quote_denom: "quote".to_string() },
        power_pool: Pool { id: 2, base_denom: "power".to_string(), quote_denom: "base".to_string() },
        index_scale: INDEX_SCALE,
        min_collateral_amount: "0.5".to_string(),
    })
    .unwrap()
}

fn dec(s: &str) -> Decimal {
    Decimal::raw(cosmwasm_std::Decimal::from_str(s).unwrap().atomics().u128())
}

/// The oracle's base and power prices, the base price divided by the index scale.
fn prices(base: &str, power: &str) -> Prices {
    let quote = scale_price(dec(base), INDEX_SCALE);
    let power = dec(power);
    Prices { funding_quote: quote, funding_power: power, quote, power, stake: None }
}

fn at(seconds: u64) -> Timestamp {
    Timestamp::from_seconds(seconds)
}

fn opened() -> State {
    State {
        is_open: true,
        is_paused: false,
        last_pause: at(OPENED),
        normalisation_factor: Decimal::one(),
        last_funding_update: at(OPENED),
    }
}

fn base_coins(amount: u128) -> Vec<Coin> {
    vec![Coin { denom: "base".to_string(), amount }]
}

fn is_safe(state: &State, now: u64, p: &Prices, vault: &Option<Vault>) -> bool {
    is_safe_in(&config(), state, now, p, vault)
}

fn is_safe_in(c: &Config, state: &State, now: u64, p: &Prices, vault: &Option<Vault>) -> bool {
    let nf = calculate_normalisation_factor(state, at(now), p.funding_quote, p.funding_power).unwrap();
    is_vault_safe(c, vault, nf, p.quote, p.stake)
}

#[test]
fn test_check_vault_is_safe() {
    let c = config();
    let mut state = opened();
    assert_eq!(Decimal::one(), state.normalisation_factor);
    let p = prices("3000.0", "3030.0");
    let mut now = OPENED + 10;

    // should return true if vault does not exist
    assert!(is_safe(&state, now, &p, &None));

    // should return true if vault has no short
    let mint_amount = 45_000_000u128;
    now += 5;
    let out = mint(&state, &c, &trader(), &base_coins(45_000_000), mint_amount, None, false, false, &None, 0, at(now), &p).unwrap();
    state = out.state;
    let count = out.vault_count;
    let vault_id = out.vault_id;
    now += 6;
    let power = vec![Coin { denom: "power".to_string(), amount: mint_amount }];
    let burnt = burn(&state, &c, &trader(), &power, None, vault_id, &Some(out.vault), at(now), &p).unwrap();
    state = burnt.state;
    assert!(is_safe(&state, now, &p, &Some(burnt.vault)));

    // should mint perfect amount
    now += 6;
    let out = mint(&state, &c, &trader(), &base_coins(45_000_000), 100_000_000, None, false, false, &None, count, at(now), &p)
        .unwrap();
    state = out.state;
    let vault = Some(out.vault);
    assert!(is_safe(&state, now, &p, &vault));

    // increase the price and make vault insolvent
    now += 5;
    assert!(!is_safe(&state, now, &prices("3010.0", "3030.0"), &vault));

    // funding rate should make the vault solvent as time passes
    now += 5 + 89_856;
    assert!(is_safe(&state, now, &prices("3030.0", "3030.0"), &vault));
}

/// The oracle's prices with the staked asset's price.
fn staked_prices(base: &str, power: &str, stake: &str) -> Prices {
    Prices { stake: Some(dec(stake)), ..prices(base, power) }
}

#[test]
fn test_check_vault_is_safe_staked_assets() {
    let c = staked_config();
    let mut state = opened();
    assert_eq!(Decimal::one(), state.normalisation_factor);
    let p = staked_prices("3000.0", "3030.0", "1.1");
    let mut now = OPENED + 15;
    let stake = |amount: u128| vec![Coin { denom: "stake".to_string(), amount }];

    // should return true if vault does not exist
    assert!(is_safe_in(&c, &state, now, &p, &None));

    // should return true if vault has no short
    let mint_amount = 45_000_000u128;
    now += 5;
    let out = mint(&state, &c, &trader(), &stake(45_000_000), mint_amount, None, false, false, &None, 0, at(now), &p).unwrap();
    state = out.state;
    let count = out.vault_count;
    let vault_id = out.vault_id;
    now += 6;
    let power = vec![Coin { denom: "power".to_string(), amount: mint_amount }];
    let burnt = burn(&state, &c, &trader(), &power, None, vault_id, &Some(out.vault), at(now), &p).unwrap();
    state = burnt.state;
    assert!(is_safe_in(&c, &state, now, &p, &Some(burnt.vault)));

    // should mint perfect amount
    now += 6;
    let out = mint(&state, &c, &trader(), &stake(45_000_000), 100_000_000, None, false, false, &None, count, at(now), &p)
        .unwrap();
    state = out.state;
    let vault = Some(out.vault);
    assert!(is_safe_in(&c, &state, now, &p, &vault));

    // increase the price, decrease stake assets value and make vault insolvent
    now += 10;
    assert!(!is_safe_in(&c, &state, now, &staked_prices("3010.0", "3030.0", "0.9"), &vault));

    // funding rate should make the vault solvent as time passes
    now += 10 + 89_856;
    assert!(is_safe_in(&c, &state, now, &staked_prices("3030.0", "3030.0", "1.0"), &vault));
}
