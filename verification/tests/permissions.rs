use margined_power::admin::{instantiate_config, InstantiateMsg};
use margined_power::config::{Asset, Config, Pool};
use margined_power::error::ContractError;
use margined_power::math::{Decimal, Timestamp};
use margined_power::operations::{burn, deposit, liquidate, mint, withdraw, Prices};
use margined_power::payment::Coin;
use margined_power::state::{open_contract, pause, unpause, State};
use margined_power::vault::Vault;

const CONTRACT: &str = "contract";
const SIGNER: &str = "signer";

fn config() -> Config {
    instantiate_config(InstantiateMsg {
        fee_rate: "0.1".to_string(),
        fee_pool: "fee_pool".to_string(),
        query_contract: "query".to_string(),
        base_asset: Asset { denom: "base".to_string(), decimals: 6 },
        power_asset: Asset { denom: "power".to_string(), decimals: 6 },
        stake_assets: None,
        base_pool: Pool { id: 1, base_denom: "base".to_string(), quote_denom: "quote".to_string() },
        power_pool: Pool { id: 2, base_denom: "power".to_string(), quote_denom: "base".to_string() },
        index_scale: 10_000,
        min_collateral_amount: "0.5".to_string(),
    })
    .unwrap()
}

fn prices() -> Prices {
    let p = Decimal::raw(300_000_000_000_000_000);
    Prices { funding_quote: p, funding_power: p, quote: p, power: p, stake: None }
}

fn at(seconds: u64) -> Timestamp {
    Timestamp::from_seconds(seconds)
}

/// Every user action, with the error each gives.
fn user_actions(state: &State, config: &Config, now: Timestamp) -> Vec<ContractError> {
    let sender = SIGNER.to_string();
    let no_funds: Vec<Coin> = vec![];
    let none: Option<Vault> = None;
    let p = prices();
    vec![
        mint(state, config, &sender, &no_funds, 1_000_000, None, false, false, &none, 0, now, &p).unwrap_err(),
        burn(state, config, &sender, &no_funds, None, 1, &none, now, &p).unwrap_err(),
        deposit(state, config, &sender, &no_funds, 1, &none, now, &p).unwrap_err(),
        withdraw(state, config, &sender, &no_funds, 1_000_000, 1, &none, now, &p).unwrap_err(),
        liquidate(state, config, &no_funds, 1_000_000, 1, &none, None, now, &p).unwrap_err(),
    ]
}

#[test]
fn test_permissions() {
    let config = config();
    let mut timestamp = at(1_000);
    let mut state = State::initial(timestamp);
    assert_eq!(
        state,
        State {
            is_open: false,
            is_paused: true,
            normalisation_factor: Decimal::one(),
            last_funding_update: timestamp,
            last_pause: timestamp,
        }
    );
    // check permissions when contract is not open and is paused
    assert_eq!(pause(&state, true, at(1_005)).unwrap_err(), ContractError::NotOpenForAction);
    assert_eq!(unpause(&state, true, at(1_005)).unwrap_err(), ContractError::NotOpen);
    for err in user_actions(&state, &config, at(1_005)) {
        assert_eq!(err, ContractError::NotOpenForAction);
    }
    // set contract open, should fail as not admin
    assert_eq!(
        open_contract(&state, true, &SIGNER.to_string(), &CONTRACT.to_string(), at(1_010)).unwrap_err(),
        ContractError::NotTokenAdmin
    );
    // set contract open
    timestamp = at(1_015);
    state = open_contract(&state, true, &CONTRACT.to_string(), &CONTRACT.to_string(), timestamp).unwrap();
    assert_eq!(
        state,
        State {
            is_open: true,
            is_paused: false,
            normalisation_factor: Decimal::one(),
            last_funding_update: timestamp,
            last_pause: timestamp,
        }
    );
    // set contract open, should fail as already open
    assert_eq!(
        open_contract(&state, true, &CONTRACT.to_string(), &CONTRACT.to_string(), at(1_020)).unwrap_err(),
        ContractError::IsOpen
    );
    // check permissions when contract is open and is paused
    let latest_timestamp = at(1_025);
    state = pause(&state, true, latest_timestamp).unwrap();
    assert_eq!(
        state,
        State {
            is_open: true,
            is_paused: true,
            normalisation_factor: Decimal::one(),
            last_funding_update: timestamp,
            last_pause: latest_timestamp,
        }
    );
    assert_eq!(pause(&state, true, at(1_030)).unwrap_err(), ContractError::PausedForAction);
    for err in user_actions(&state, &config, at(1_030)) {
        assert_eq!(err, ContractError::PausedForAction);
    }
}

#[test]
fn test_pause_unpause() {
    let mut timestamp = at(2_000);
    let mut state = State::initial(timestamp);
    assert_eq!(
        state,
        State {
            is_open: false,
            is_paused: true,
            normalisation_factor: Decimal::one(),
            last_funding_update: timestamp,
            last_pause: timestamp,
        }
    );
    // pause and unpause fail while the contract is not open
    assert_eq!(pause(&state, true, at(2_005)).unwrap_err(), ContractError::NotOpenForAction);
    assert_eq!(unpause(&state, true, at(2_005)).unwrap_err(), ContractError::NotOpen);
    // set contract open
    timestamp = at(2_010);
    state = open_contract(&state, true, &CONTRACT.to_string(), &CONTRACT.to_string(), timestamp).unwrap();
    assert_eq!(
        state,
        State {
            is_open: true,
            is_paused: false,
            normalisation_factor: Decimal::one(),
            last_funding_update: timestamp,
            last_pause: timestamp,
        }
    );
    // pause contract
    let latest_timestamp = at(2_010);
    state = pause(&state, true, at(2_015)).unwrap();
    assert_eq!(
        state,
        State {
            is_open: true,
            is_paused: true,
            normalisation_factor: Decimal::one(),
            last_funding_update: timestamp,
            last_pause: at(latest_timestamp.seconds() + 5),
        }
    );
    // pause should fail, contract already paused
    assert_eq!(pause(&state, true, at(2_020)).unwrap_err(), ContractError::PausedForAction);
    // unpause should fail for a trader, timer has not expired
    assert_eq!(unpause(&state, false, at(2_025)).unwrap_err(), ContractError::NotExpired);
    // a week later the trader may unpause
    let later = at(2_025 + 7 * 24 * 60 * 60);
    state = unpause(&state, false, later).unwrap();
    assert_eq!(
        state,
        State {
            is_open: true,
            is_paused: false,
            normalisation_factor: Decimal::one(),
            last_funding_update: timestamp,
            last_pause: at(latest_timestamp.seconds() + 5),
        }
    );
    // the admin pauses and unpauses at once
    let latest_timestamp = later.seconds() + 5;
    state = pause(&state, true, at(latest_timestamp + 5)).unwrap();
    assert_eq!(
        state,
        State {
            is_open: true,
            is_paused: true,
            normalisation_factor: Decimal::one(),
            last_funding_update: timestamp,
            last_pause: at(latest_timestamp + 5),
        }
    );
    state = unpause(&state, true, at(latest_timestamp + 10)).unwrap();
    assert_eq!(
        state,
        State {
            is_open: true,
            is_paused: false,
            normalisation_factor: Decimal::one(),
            last_funding_update: timestamp,
            last_pause: at(latest_timestamp + 5),
        }
    );
}

#[test]
fn pause_requires_the_owner() {
    let state = open_contract(&State::initial(at(10)), true, &CONTRACT.to_string(), &CONTRACT.to_string(), at(20)).unwrap();
    assert_eq!(pause(&state, false, at(30)), Err(ContractError::Unauthorized));
    assert_eq!(
        open_contract(&State::initial(at(10)), false, &CONTRACT.to_string(), &CONTRACT.to_string(), at(20)),
        Err(ContractError::Unauthorized)
    );
    assert_eq!(state.is_open_and_unpaused(), Ok(()));
    assert_eq!(state.is_paused(), Err(ContractError::UnpausedForAction));
    let paused = pause(&state, true, at(30)).unwrap();
    assert_eq!(paused.is_paused(), Ok(()));
}
