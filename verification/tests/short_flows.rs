use margined_power::admin::{instantiate_config, InstantiateMsg};
use margined_power::config::{Asset, Config, Pool, VaultType};
use margined_power::error::ContractError;
use margined_power::flows::{
    close_short, close_short_reply, flash_liquidate_reply, flash_liquidate_swap_reply, flash_liquidation_start,
    flash_liquidation_swap, may_pay_two_denoms, open_short, open_short_reply, remove_empty_vaults, removal_page_limit,
    CloseShortPlan, TmpCacheValues,
};
use margined_power::helpers::PoolParams;
use margined_power::math::{Decimal, Timestamp};
use margined_power::operations::{MintDelivery, Prices};
use margined_power::payment::Coin;
use margined_power::state::State;
use margined_power::vault::Vault;

const ONE: u128 = 1_000_000_000_000_000_000;
const NOW: u64 = 1_700_000_000;

fn signer() -> String {
    "signer".to_string()
}

fn config() -> Config {
    instantiate_config(InstantiateMsg {
        fee_rate: "0.1".to_string(),
        fee_pool: "fee_pool".to_string(),
        query_contract: "query".to_string(),
        base_asset: Asset { denom: "base".to_string(), decimals: 6 },
        power_asset: Asset { denom: "power".to_string(), decimals: 6 },
        stake_assets: None,
        base_pool: Pool { id: 1, base_denom: "base".to_string(), quote_denom: "quote".to_string() },
        power_pool: Pool { id: 2, base_denom: "power".to_string(), quote_denom: "base".to_string() },
        index_scale: 10_000,
        min_collateral_amount: "0.5".to_string(),
    })
    .unwrap()
}

fn open_state() -> State {
    State {
        is_open: true,
        is_paused: false,
        last_pause: Timestamp::from_seconds(NOW - 10),
        normalisation_factor: Decimal::one(),
        last_funding_update: Timestamp::from_seconds(NOW),
    }
}

fn now() -> Timestamp {
    Timestamp::from_seconds(NOW)
}

fn prices() -> Prices {
    let p = Decimal::raw(3 * ONE / 10);
    Prices { funding_quote: p, funding_power: p, quote: p, power: p, stake: None }
}

fn coin(denom: &str, amount: u128) -> Coin {
    Coin { denom: denom.to_string(), amount }
}

fn vault(collateral: u128, short_amount: u128) -> Vault {
    Vault { operator: signer(), collateral, short_amount, vault_type: VaultType::Default }
}

fn empty_cache() -> TmpCacheValues {
    TmpCacheValues {
        total_supply: None,
        balance: None,
        amount_to_swap: None,
        amount_to_withdraw: None,
        amount_to_burn: None,
        sender: None,
        slippage: None,
        vault_id: None,
    }
}

#[test]
fn removing_empty_vaults_lowers_the_counter() {
    let page = vec![(1u64, vault(0, 0)), (2, vault(5, 1)), (3, vault(0, 0))];
    let out = remove_empty_vaults(&open_state(), &vec![], &page, 3, now(), &prices()).unwrap();
    assert_eq!(out.removed, vec![1, 3]);
    assert_eq!(out.vault_count, 1);
    let full = vec![(2u64, vault(5, 1))];
    assert_eq!(
        remove_empty_vaults(&open_state(), &vec![], &full, 3, now(), &prices()).unwrap_err(),
        ContractError::NoEmptyVaults
    );
    assert_eq!(
        remove_empty_vaults(&open_state(), &vec![coin("base", 1)], &page, 3, now(), &prices()).unwrap_err(),
        ContractError::NonPayable
    );
    assert_eq!(removal_page_limit(None), 500);
    assert_eq!(removal_page_limit(Some(7)), 7);
}

#[test]
fn flash_liquidation_of_an_unsafe_vault() {
    let existing = Some(vault(1_000_000, 10_000_000));
    let start = flash_liquidation_start(&open_state(), &config(), &vec![coin("base", 5_000_000)], 1, &existing, now(), &prices())
        .unwrap();
    assert_eq!((start.collateral_sent, start.max_amount_to_liquidate), (5_000_000, 10_000_000));
    let safe = Some(vault(10_000_000, 1_000_000));
    assert_eq!(
        flash_liquidation_start(&open_state(), &config(), &vec![coin("base", 1)], 1, &safe, now(), &prices()).unwrap_err(),
        ContractError::SafeVault
    );
}

#[test]
fn flash_liquidation_swap_refunds_the_excess() {
    let pool = PoolParams {
        id: 2,
        base_denom: "power".to_string(),
        quote_denom: "base".to_string(),
        base_decimal_places: 6,
        quote_decimal_places: 6,
    };
    let spot = Decimal::raw(2 * ONE);
    let five_percent = Some(Decimal::raw(ONE / 20));
    assert_eq!(flash_liquidation_swap(5_000_000, 3_000_000, five_percent, &pool, spot), Ok((2_000_000, 3_000_000, 5_700_000)));
    assert_eq!(flash_liquidation_swap(2_000_000, 3_000_000, None, &pool, spot), Ok((0, 2_000_000, 1)));
}

#[test]
fn payments_in_two_denoms() {
    let (a, b) = ("base".to_string(), "power".to_string());
    assert_eq!(may_pay_two_denoms(&vec![coin("base", 5), coin("power", 7)], &a, &b), Ok((5, 7)));
    assert_eq!(may_pay_two_denoms(&vec![coin("power", 7)], &a, &b), Ok((0, 7)));
    assert_eq!(may_pay_two_denoms(&vec![], &a, &b), Ok((0, 0)));
    assert_eq!(
        may_pay_two_denoms(&vec![coin("base", 1), coin("power", 1), coin("x", 1)], &a, &b),
        Err(ContractError::TooManyCoins)
    );
    assert_eq!(may_pay_two_denoms(&vec![coin("x", 1)], &a, &b), Err(ContractError::InvalidFunds));
}

#[test]
fn closing_a_short_plans_the_swap() {
    let existing = Some(vault(1_000_000, 3_000_000));
    let plan = close_short(&config(), &signer(), &vec![coin("base", 5_000_000)], 2_000_000, Some(100_000), 1, &existing, 10)
        .unwrap();
    match plan {
        CloseShortPlan::Swap { token_out_amount, token_in_max_amount, cache } => {
            assert_eq!((token_out_amount, token_in_max_amount), (2_000_000, 5_000_000));
            assert_eq!(cache.balance, Some(10));
            assert_eq!(cache.amount_to_swap, Some(5_000_000));
            assert_eq!(cache.amount_to_withdraw, Some(100_000));
            assert_eq!(cache.sender, Some(signer()));
            assert_eq!(cache.vault_id, Some(1));
        },
        CloseShortPlan::Burn => panic!("expected a swap"),
    }
    assert!(matches!(
        close_short(&config(), &signer(), &vec![], 0, None, 1, &existing, 10),
        Ok(CloseShortPlan::Burn)
    ));
    assert_eq!(
        close_short(&config(), &signer(), &vec![coin("base", 1)], 4_000_000, None, 1, &existing, 10).unwrap_err(),
        ContractError::BurnExceedsVault
    );
}

#[test]
fn opening_a_short_mints_for_sale() {
    let funds = vec![coin("base", 1_000_000)];
    let slippage = Some(Decimal::raw(ONE / 20));
    let (out, cache) = open_short(
        &open_state(), &config(), &signer(), &funds, 1_000_000, None, slippage, &None, 0, now(), &prices(), 1_000_000,
    )
    .unwrap();
    assert_eq!(out.delivery, MintDelivery::SellThroughContract);
    assert_eq!(cache.total_supply, Some(1_000_000));
    assert_eq!(cache.sender, Some(signer()));
    assert_eq!(cache.slippage, slippage);
    // the supply grew by 2 power: sell 2 at 0.3 less 5%
    assert_eq!(open_short_reply(&config(), &cache, 3_000_000, Decimal::raw(3 * ONE / 10)), Ok((2_000_000, 570_000)));
}

#[test]
fn close_short_reply_burns_what_was_bought() {
    let cache = TmpCacheValues {
        balance: Some(10),
        amount_to_swap: Some(5_000_000),
        amount_to_withdraw: Some(100_000),
        sender: Some(signer()),
        vault_id: Some(1),
        ..empty_cache()
    };
    let existing = Some(vault(1_000_000, 3_000_000));
    let (burnt, refund) =
        close_short_reply(&open_state(), &config(), &cache, 4_000_000, 2_000_010, &existing, now(), &prices()).unwrap();
    assert_eq!((burnt.vault.collateral, burnt.vault.short_amount), (900_000, 1_000_000));
    assert_eq!(burnt.amount_burned, 2_000_000);
    assert_eq!(refund, Some(("base".to_string(), 1_000_000)));
}

#[test]
fn flash_liquidation_replies() {
    let cache = TmpCacheValues { sender: Some(signer()), vault_id: Some(1), amount_to_swap: Some(500_000), ..empty_cache() };
    let (cache, recipient) = flash_liquidate_swap_reply(cache, 10_000_000);
    assert_eq!(recipient, signer());
    assert_eq!(cache.amount_to_burn, Some(10_000_000));
    let existing = Some(vault(1_000_000, 10_000_000));
    let out = flash_liquidate_reply(&open_state(), &config(), &cache, &existing, now(), &prices()).unwrap();
    assert_eq!((out.liquidation_amount, out.collateral_to_pay), (10_000_000, 1_000_000));
    let greedy = TmpCacheValues { amount_to_swap: Some(2_000_000), ..cache };
    assert_eq!(
        flash_liquidate_reply(&open_state(), &config(), &greedy, &existing, now(), &prices()).unwrap_err(),
        ContractError::UnprofitableLiquidation
    );
}
