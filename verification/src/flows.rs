//! The multi-step flows: removing empty vaults, flash liquidation, opening
//! and closing shorts through swaps, and the follow-ups that run when those
//! swaps reply.

use vstd::prelude::*;
use crate::config::{Config, VaultType, config_valid};
use crate::error::ContractError;
use crate::funding::{apply_funding_rate, apply_funding_result, funding_defined};
use crate::helpers::{
    PoolParams, collateral_asset_result, get_collateral_from_vault_type,
    get_min_amount_out_from_slippage, liquidation_results, liquidation_results_defined,
    min_amount_out_result, try_get_liquidation_results,
};
use crate::math::{Decimal, Timestamp};
use crate::operations::{
    BurnOutcome, LiquidationOutcome, MintOutcome, Prices, burn, burn_result, liquidate,
    liquidate_result, mint, mint_result,
};
use crate::payment::{
    Coin, must_pay, must_pay_result, nonpayable, nonpayable_result, sent_collateral_result,
};
use crate::state::{State, open_and_unpaused_result};
use crate::vault::{
    Vault, check_can_burn, check_can_burn_result, status_defined, status_solvent,
    try_calculate_status,
};

verus! {

/// Vaults inspected per removal call when no limit is given.
pub const DEFAULT_LIMIT: u64 = 500u64;

/// Values carried from a message to the reply of the swap it starts.
#[derive(Clone, Debug)]
pub struct TmpCacheValues {
    pub total_supply: Option<u128>,
    pub balance: Option<u128>,
    pub amount_to_swap: Option<u128>,
    pub amount_to_withdraw: Option<u128>,
    pub amount_to_burn: Option<u128>,
    pub sender: Option<String>,
    pub slippage: Option<Decimal>,
    pub vault_id: Option<u64>,
}

/// The number of vaults a removal call inspects.
pub fn removal_page_limit(limit: Option<u64>) -> (r: u64)
    ensures
        r == (match limit {
            Some(l) => l,
            None => DEFAULT_LIMIT,
        }),
{
    match limit {
        Some(l) => l,
        None => DEFAULT_LIMIT,
    }
}

/// Walking a page of vaults in order: every empty one is removed, each
/// removal lowering the vault counter by one. Gives the removed ids and the
/// counter, or `None` where the counter would go below zero.
pub open spec fn remove_empties(page: Seq<(u64, Vault)>, n: nat, count: u64) -> Option<(Seq<u64>, u64)>
    decreases n,
{
    if n == 0 {
        Some((Seq::empty(), count))
    } else {
        match remove_empties(page, (n - 1) as nat, count) {
            None => None,
            Some(prev) => {
                let entry = page[n - 1];
                if entry.1.collateral == 0 && entry.1.short_amount == 0 {
                    if prev.1 == 0 {
                        None
                    } else {
                        Some((prev.0.push(entry.0), (prev.1 - 1) as u64))
                    }
                } else {
                    Some(prev)
                }
            },
        }
    }
}

/// What a successful removal stores.
#[derive(Clone, Debug)]
pub struct RemovalOutcome {
    pub state: State,
    pub normalisation_factor: Decimal,
    pub removed: Vec<u64>,
    pub vault_count: u64,
}

/// The whole removal: no funds, the run-state gate, funding, then the
/// removal of the empty vaults of the page; at least one must go.
pub open spec fn remove_empty_vaults_result(
    state: State,
    funds: Seq<Coin>,
    page: Seq<(u64, Vault)>,
    vault_count: u64,
    now: Timestamp,
    prices: Prices,
) -> Result<(State, Decimal, Seq<u64>, u64), ContractError> {
    match nonpayable_result(funds) {
        Err(_) => Err(ContractError::NonPayable),
        Ok(_) => match open_and_unpaused_result(state) {
            Err(e) => Err(e),
            Ok(_) => match apply_funding_result(state, now, prices.funding_quote, prices.funding_power) {
                None => Err(ContractError::FundingFailed),
                Some(funded) => match remove_empties(page, page.len(), vault_count) {
                    None => Err(ContractError::Overflow),
                    Some(removed) => if removed.0.len() == 0 {
                        Err(ContractError::NoEmptyVaults)
                    } else {
                        Ok((funded.0, funded.1, removed.0, removed.1))
                    },
                },
            },
        },
    }
}

/// Removes the empty vaults among `page` (the vaults read in ascending id
/// order from the requested start), lowering the vault counter for each.
#[verifier::loop_isolation(false)]
pub fn remove_empty_vaults(
    state: &State,
    funds: &Vec<Coin>,
    page: &Vec<(u64, Vault)>,
    vault_count: u64,
    block_time: Timestamp,
    prices: &Prices,
) -> (r: Result<RemovalOutcome, ContractError>)
    requires
        funds@.len() == 0 && open_and_unpaused_result(*state) is Ok
            && state.last_funding_update.secs() != block_time.secs()
            ==> funding_defined(*state, block_time, prices.funding_quote, prices.funding_power),
    ensures
        match remove_empty_vaults_result(*state, funds@, page@, vault_count, block_time, *prices) {
            Ok(x) => r matches Ok(o) && o.state == x.0 && o.normalisation_factor == x.1
                && o.removed@ == x.2 && o.vault_count == x.3,
            Err(e) => r == Err::<RemovalOutcome, ContractError>(e),
        },
{
    match nonpayable(funds) {
        Ok(()) => {},
        Err(_) => { return Err(ContractError::NonPayable); },
    }
    state.is_open_and_unpaused()?;
    let funded = match apply_funding_rate(state, block_time, prices.funding_quote, prices.funding_power) {
        Some(x) => x,
        None => { return Err(ContractError::FundingFailed); },
    };
    let n = page.len();
    let mut removed: Vec<u64> = Vec::new();
    let mut count = vault_count;
    let mut i: usize = 0;
    while i < n
        invariant
            n == page@.len(),
            i <= n,
            remove_empties(page@, i as nat, vault_count) == Some((removed@, count)),
        decreases n - i,
    {
        let (id, v) = &page[i];
        if v.collateral == 0 && v.short_amount == 0 {
            if count == 0 {
                proof {
                    assert(remove_empties(page@, (i + 1) as nat, vault_count) is None);
                    lemma_remove_empties_stays_none(page@, (i + 1) as nat, n as nat, vault_count);
                }
                return Err(ContractError::Overflow);
            }
            match crate::vault::remove_vault(count, *id, v) {
                Ok(c) => { count = c; },
                Err(e) => { return Err(e); },
            }
            removed.push(*id);
        }
        i = i + 1;
    }
    if removed.len() == 0 {
        return Err(ContractError::NoEmptyVaults);
    }
    Ok(RemovalOutcome { state: funded.0, normalisation_factor: funded.1, removed, vault_count: count })
}

pub proof fn lemma_remove_empties_stays_none(page: Seq<(u64, Vault)>, m: nat, n: nat, count: u64)
    requires
        m <= n,
        remove_empties(page, m, count) is None,
    ensures
        remove_empties(page, n, count) is None,
    decreases n,
{
    if m < n {
        lemma_remove_empties_stays_none(page, m, (n - 1) as nat, count);
    }
}

/// Removing the empty vaults of a page removes only vaults that hold
/// neither collateral nor debt, as many as the page holds, and lowers the
/// counter by the number removed.
pub proof fn law_removal_takes_exactly_the_empty_vaults(page: Seq<(u64, Vault)>, n: nat, count: u64)
    requires
        n <= page.len(),
    ensures
        remove_empties(page, n, count) matches Some(r) ==> {
            &&& r.1 == count - r.0.len()
            &&& forall|k: int| #![trigger r.0[k]] 0 <= k < r.0.len() ==> exists|i: int| 0 <= i < n && #[trigger] page[i].0 == r.0[k]
                && page[i].1.collateral == 0 && page[i].1.short_amount == 0
            &&& r.0.len() == empties_among(page, n)
        },
    decreases n,
{
    if n > 0 {
        law_removal_takes_exactly_the_empty_vaults(page, (n - 1) as nat, count);
        if let Some(prev) = remove_empties(page, (n - 1) as nat, count) {
            let entry = page[n - 1];
            if entry.1.collateral == 0 && entry.1.short_amount == 0 && prev.1 != 0 {
                let ids = prev.0.push(entry.0);
                assert forall|k: int| #![trigger ids[k]] 0 <= k < ids.len() implies exists|i: int| 0 <= i < n && #[trigger] page[i].0 == ids[k]
                    && page[i].1.collateral == 0 && page[i].1.short_amount == 0 by {
                    if k == ids.len() - 1 {
                        assert(page[n - 1].0 == ids[k]);
                    } else {
                        assert(ids[k] == prev.0[k]);
                    }
                }
            }
        }
    }
}

/// How many of the first `n` vaults of a page are empty.
pub open spec fn empties_among(page: Seq<(u64, Vault)>, n: nat) -> nat
    decreases n,
{
    if n == 0 {
        0
    } else if page[n - 1].1.collateral == 0 && page[n - 1].1.short_amount == 0 {
        empties_among(page, (n - 1) as nat) + 1
    } else {
        empties_among(page, (n - 1) as nat)
    }
}

/// The first step of a flash liquidation: how much of an unsafe vault's
/// debt the collateral sent must buy back.
#[derive(Clone, Debug)]
pub struct FlashLiquidationStart {
    pub state: State,
    pub normalisation_factor: Decimal,
    pub collateral_sent: u128,
    pub max_amount_to_liquidate: u128,
}

pub open spec fn flash_liquidation_start_result(
    state: State,
    config: Config,
    funds: Seq<Coin>,
    vault_id: u64,
    existing: Option<Vault>,
    now: Timestamp,
    prices: Prices,
) -> Result<(State, Decimal, u128, u128), ContractError> {
    match open_and_unpaused_result(state) {
        Err(e) => Err(e),
        Ok(_) => match existing {
            None => Err(ContractError::VaultDoesNotExist(vault_id)),
            Some(v) => match must_pay_result(funds, config.base_asset.denom) {
                Err(_) => Err(ContractError::InvalidFunds),
                Ok(sent) => match apply_funding_result(state, now, prices.funding_quote, prices.funding_power) {
                    None => Err(ContractError::FundingFailed),
                    Some(funded) => if !status_defined(config, v, funded.1, prices.quote, prices.stake) {
                        Err(ContractError::Overflow)
                    } else if status_solvent(config, v, funded.1, prices.quote, prices.stake) {
                        Err(ContractError::SafeVault)
                    } else if !liquidation_results_defined(config, v.short_amount, v, prices.power, prices.stake) {
                        Err(ContractError::Overflow)
                    } else {
                        Ok((funded.0, funded.1, sent, liquidation_results(config, v.short_amount, v, prices.power, prices.stake).0))
                    },
                },
            },
        },
    }
}

/// Starts a flash liquidation of the unsafe vault `vault_id`: the base
/// collateral sent will be swapped for the power tokens that repay as much
/// of its debt as a liquidation offered all of it takes.
pub fn flash_liquidation_start(
    state: &State,
    config: &Config,
    funds: &Vec<Coin>,
    vault_id: u64,
    existing: &Option<Vault>,
    block_time: Timestamp,
    prices: &Prices,
) -> (r: Result<FlashLiquidationStart, ContractError>)
    requires
        open_and_unpaused_result(*state) is Ok && existing is Some
            && must_pay_result(funds@, config.base_asset.denom) is Ok
            && state.last_funding_update.secs() != block_time.secs()
            ==> funding_defined(*state, block_time, prices.funding_quote, prices.funding_power),
    ensures
        match flash_liquidation_start_result(*state, *config, funds@, vault_id, *existing, block_time, *prices) {
            Ok(x) => r matches Ok(o) && o.state == x.0 && o.normalisation_factor == x.1
                && o.collateral_sent == x.2 && o.max_amount_to_liquidate == x.3,
            Err(e) => r == Err::<FlashLiquidationStart, ContractError>(e),
        },
{
    state.is_open_and_unpaused()?;
    let current = match existing {
        None => { return Err(ContractError::VaultDoesNotExist(vault_id)); },
        Some(v) => v,
    };
    let collateral_sent = match must_pay(funds, &config.base_asset.denom) {
        Ok(a) => a,
        Err(_) => { return Err(ContractError::InvalidFunds); },
    };
    let funded = match apply_funding_rate(state, block_time, prices.funding_quote, prices.funding_power) {
        Some(x) => x,
        None => { return Err(ContractError::FundingFailed); },
    };
    match try_calculate_status(config, current, funded.1, prices.quote, prices.stake) {
        None => { return Err(ContractError::Overflow); },
        Some((is_safe, _, _)) => {
            if is_safe {
                return Err(ContractError::SafeVault);
            }
        },
    }
    let (max_amount_to_liquidate, _, _) = match try_get_liquidation_results(
        config,
        current.short_amount,
        current,
        prices.power,
        prices.stake,
    ) {
        Some(x) => x,
        None => { return Err(ContractError::Overflow); },
    };
    Ok(FlashLiquidationStart {
        state: funded.0,
        normalisation_factor: funded.1,
        collateral_sent,
        max_amount_to_liquidate,
    })
}

/// The swap of a flash liquidation: what is refunded of the collateral
/// sent, how much is swapped, and the least power to receive.
pub open spec fn flash_liquidation_swap_result(
    collateral_sent: u128,
    estimate_base_from_power: u128,
    slippage: Option<Decimal>,
    pool: PoolParams,
    spot_price: Decimal,
) -> Result<(u128, u128, u128), ContractError> {
    let refund = if collateral_sent >= estimate_base_from_power { collateral_sent - estimate_base_from_power } else { 0 };
    let swap_amount = if collateral_sent > estimate_base_from_power { estimate_base_from_power } else { collateral_sent };
    match min_amount_out_result(swap_amount, slippage, pool, spot_price) {
        Err(e) => Err(e),
        Ok(min_out) => Ok((refund as u128, swap_amount, min_out)),
    }
}

/// Plans the swap of a flash liquidation, given the base needed to buy the
/// power to liquidate (`estimate_base_from_power`): refunds what exceeds
/// it, swaps the rest, and bounds the output by the slippage tolerance.
pub fn flash_liquidation_swap(
    collateral_sent: u128,
    estimate_base_from_power: u128,
    slippage: Option<Decimal>,
    pool: &PoolParams,
    spot_price: Decimal,
) -> (r: Result<(u128, u128, u128), ContractError>)
    requires
        pool.base_decimal_places <= 18,
    ensures
        r == flash_liquidation_swap_result(collateral_sent, estimate_base_from_power, slippage, *pool, spot_price),
{
    let refund_amount = match collateral_sent.checked_sub(estimate_base_from_power) {
        Some(x) => x,
        None => 0,
    };
    let swap_amount = if collateral_sent > estimate_base_from_power { estimate_base_from_power } else { collateral_sent };
    let token_out_min_amount = get_min_amount_out_from_slippage(swap_amount, slippage, pool, spot_price)?;
    Ok((refund_amount, swap_amount, token_out_min_amount))
}

/// The amount of a denom among the funds: that of its first coin, 0 when
/// none.
pub open spec fn amount_of(funds: Seq<Coin>, denom: Seq<char>) -> u128 {
    if funds.len() > 0 && funds[0].denom@ == denom {
        funds[0].amount
    } else if funds.len() > 1 && funds[1].denom@ == denom {
        funds[1].amount
    } else {
        0
    }
}

pub open spec fn two_denoms_result(funds: Seq<Coin>, a: Seq<char>, b: Seq<char>) -> Result<(u128, u128), ContractError> {
    if funds.len() > 2 {
        Err(ContractError::TooManyCoins)
    } else if exists|i: int| 0 <= i < funds.len() && #[trigger] funds[i].denom@ != a && funds[i].denom@ != b {
        Err(ContractError::InvalidFunds)
    } else {
        Ok((amount_of(funds, a), amount_of(funds, b)))
    }
}

/// Reads optional payments in two denoms: at most two coins, each of one of
/// them; gives the amount of each (0 when not sent).
pub fn may_pay_two_denoms(funds: &Vec<Coin>, a: &String, b: &String) -> (r: Result<(u128, u128), ContractError>)
    ensures
        r == two_denoms_result(funds@, a@, b@),
{
    if funds.len() > 2 {
        return Err(ContractError::TooManyCoins);
    }
    let mut first: u128 = 0;
    let mut second: u128 = 0;
    let mut found_first = false;
    let mut found_second = false;
    let n = funds.len();
    let mut i: usize = 0;
    while i < n
        invariant
            n == funds@.len(),
            n <= 2,
            i <= n,
            forall|k: int| 0 <= k < i ==> #[trigger] funds@[k].denom@ == a@ || funds@[k].denom@ == b@,
            found_first == (exists|k: int| 0 <= k < i && #[trigger] funds@[k].denom@ == a@),
            found_second == (exists|k: int| 0 <= k < i && #[trigger] funds@[k].denom@ == b@),
            found_first ==> first == (if funds@[0].denom@ == a@ { funds@[0].amount } else { funds@[1].amount }),
            !found_first ==> first == 0,
            found_second ==> second == (if funds@[0].denom@ == b@ { funds@[0].amount } else { funds@[1].amount }),
            !found_second ==> second == 0,
        decreases n - i,
    {
        let c = &funds[i];
        let is_a = c.denom.eq(a);
        let is_b = c.denom.eq(b);
        if !is_a && !is_b {
            return Err(ContractError::InvalidFunds);
        }
        if is_a && !found_first {
            first = c.amount;
            found_first = true;
        }
        if is_b && !found_second {
            second = c.amount;
            found_second = true;
        }
        i = i + 1;
    }
    Ok((first, second))
}


/// How a close-short request proceeds.
#[derive(Clone, Debug)]
pub enum CloseShortPlan {
    /// No exposure to buy back: the request is a plain burn.
    Burn,
    /// Swap up to `token_in_max_amount` base for exactly `token_out_amount`
    /// power, then finish in the swap's reply with the cached values.
    Swap { token_out_amount: u128, token_in_max_amount: u128, cache: TmpCacheValues },
}

pub open spec fn close_short_result(
    config: Config,
    sender: String,
    funds: Seq<Coin>,
    exposure_to_burn: u128,
    amount_to_withdraw: Option<u128>,
    vault_id: u64,
    existing: Option<Vault>,
    power_balance: u128,
) -> Result<CloseShortPlan, ContractError> {
    match two_denoms_result(funds, config.base_asset.denom@, config.power_asset.denom@) {
        Err(_) => Err(ContractError::InvalidFunds),
        Ok(paid) => if exposure_to_burn == 0 {
            Ok(CloseShortPlan::Burn)
        } else {
            match check_can_burn_result(
                existing->0,
                sender@,
                (exposure_to_burn + paid.1) as u128,
                crate::operations::withdraw_or_zero(amount_to_withdraw),
            ) {
                Err(e) => Err(e),
                Ok(_) => Ok(CloseShortPlan::Swap {
                    token_out_amount: exposure_to_burn,
                    token_in_max_amount: paid.0,
                    cache: TmpCacheValues {
                        total_supply: None,
                        balance: Some((power_balance - paid.1) as u128),
                        amount_to_swap: Some(paid.0),
                        amount_to_withdraw,
                        amount_to_burn: None,
                        sender: Some(sender),
                        slippage: None,
                        vault_id: Some(vault_id),
                    },
                }),
            }
        },
    }
}

/// Closes (part of) a short: the base sent buys back `exposure_to_burn`
/// power (plus any power sent along) for the vault `vault_id` (stored value
/// `existing`); `power_balance` is the contract's power balance before the
/// swap. With no exposure to buy back it is a plain burn.
pub fn close_short(
    config: &Config,
    sender: &String,
    funds: &Vec<Coin>,
    exposure_to_burn: u128,
    amount_to_withdraw: Option<u128>,
    vault_id: u64,
    existing: &Option<Vault>,
    power_balance: u128,
) -> (r: Result<CloseShortPlan, ContractError>)
    requires
        exposure_to_burn != 0 ==> (two_denoms_result(funds@, config.base_asset.denom@, config.power_asset.denom@) matches Ok(paid) ==> {
            &&& existing is Some
            &&& exposure_to_burn + paid.1 <= u128::MAX
            &&& (check_can_burn_result(
                existing->0,
                sender@,
                (exposure_to_burn + paid.1) as u128,
                crate::operations::withdraw_or_zero(amount_to_withdraw),
            ) is Ok ==> paid.1 <= power_balance)
        }),
    ensures
        r == close_short_result(*config, *sender, funds@, exposure_to_burn, amount_to_withdraw, vault_id, *existing, power_balance),
{
    let (base_to_swap, amount_extra_power) = match may_pay_two_denoms(funds, &config.base_asset.denom, &config.power_asset.denom) {
        Ok(x) => x,
        Err(_) => { return Err(ContractError::InvalidFunds); },
    };
    if exposure_to_burn == 0 {
        return Ok(CloseShortPlan::Burn);
    }
    let current = existing.as_ref().unwrap();
    let withdraw = match amount_to_withdraw {
        Some(a) => a,
        None => 0,
    };
    check_can_burn(current, sender, exposure_to_burn + amount_extra_power, withdraw)?;
    Ok(CloseShortPlan::Swap {
        token_out_amount: exposure_to_burn,
        token_in_max_amount: base_to_swap,
        cache: TmpCacheValues {
            total_supply: None,
            balance: Some(power_balance - amount_extra_power),
            amount_to_swap: Some(base_to_swap),
            amount_to_withdraw,
            amount_to_burn: None,
            sender: Some(sender.clone()),
            slippage: None,
            vault_id: Some(vault_id),
        },
    })
}

/// With no exposure to buy back, closing a short whose funds are at most
/// one coin of the base and one of the power asset is a plain burn: no swap
/// is planned and nothing is cached for a reply; with any other funds it is
/// refused with `InvalidFunds`.
pub proof fn law_close_without_exposure_is_a_burn(
    config: Config,
    sender: String,
    funds: Seq<Coin>,
    amount_to_withdraw: Option<u128>,
    vault_id: u64,
    existing: Option<Vault>,
    power_balance: u128,
)
    ensures
        funds.len() <= 2 && (forall|i: int| 0 <= i < funds.len() ==> #[trigger] funds[i].denom@ == config.base_asset.denom@
            || funds[i].denom@ == config.power_asset.denom@)
            ==> close_short_result(config, sender, funds, 0, amount_to_withdraw, vault_id, existing, power_balance)
                matches Ok(CloseShortPlan::Burn),
        !(funds.len() <= 2 && (forall|i: int| 0 <= i < funds.len() ==> #[trigger] funds[i].denom@ == config.base_asset.denom@
            || funds[i].denom@ == config.power_asset.denom@))
            ==> close_short_result(config, sender, funds, 0, amount_to_withdraw, vault_id, existing, power_balance)
                == Err::<CloseShortPlan, ContractError>(ContractError::InvalidFunds),
{
}

/// Opens a short: records the power supply, sender, vault and slippage for
/// the reply, and mints to the contract for sale.
pub fn open_short(
    state: &State,
    config: &Config,
    sender: &String,
    funds: &Vec<Coin>,
    mint_amount: u128,
    vault_id: Option<u64>,
    slippage: Option<Decimal>,
    existing: &Option<Vault>,
    vault_count: u64,
    block_time: Timestamp,
    prices: &Prices,
    total_supply: u128,
) -> (r: Result<(MintOutcome, TmpCacheValues), ContractError>)
    requires
        config_valid(*config),
        open_and_unpaused_result(*state) is Ok && mint_amount != 0 && sent_collateral_result(funds@, *config) is Ok
            && state.last_funding_update.secs() != block_time.secs()
            ==> funding_defined(*state, block_time, prices.funding_quote, prices.funding_power),
    ensures
        match mint_result(*state, *config, *sender, funds@, mint_amount, vault_id, false, true, *existing, vault_count, block_time, *prices) {
            Ok(o) => r matches Ok(x) && x.0 == o && x.1 == (TmpCacheValues {
                total_supply: Some(total_supply),
                balance: None,
                amount_to_swap: None,
                amount_to_withdraw: None,
                amount_to_burn: None,
                sender: Some(*sender),
                slippage,
                vault_id,
            }),
            Err(e) => r == Err::<(MintOutcome, TmpCacheValues), ContractError>(e),
        },
{
    let cache = TmpCacheValues {
        total_supply: Some(total_supply),
        balance: None,
        amount_to_swap: None,
        amount_to_withdraw: None,
        amount_to_burn: None,
        sender: Some(sender.clone()),
        slippage,
        vault_id,
    };
    let outcome = mint(state, config, sender, funds, mint_amount, vault_id, false, true, existing, vault_count, block_time, prices)?;
    Ok((outcome, cache))
}

/// The pool swap that sells freshly minted power for base.
pub open spec fn sell_power_pool(c: Config) -> PoolParams {
    PoolParams {
        id: c.power_pool.id,
        base_denom: c.power_asset.denom,
        quote_denom: c.base_asset.denom,
        base_decimal_places: c.power_asset.decimals,
        quote_decimal_places: c.base_asset.decimals,
    }
}

pub open spec fn supply_before(cache: TmpCacheValues) -> u128 {
    match cache.total_supply {
        Some(s) => s,
        None => 0,
    }
}

/// After the mint of an open short: the power minted is the supply's
/// growth, sold for at least the slippage-bounded amount of base. Gives the
/// amount to sell and that minimum.
pub fn open_short_reply(
    config: &Config,
    cache: &TmpCacheValues,
    current_total_supply: u128,
    spot_price: Decimal,
) -> (r: Result<(u128, u128), ContractError>)
    requires
        config_valid(*config),
        supply_before(*cache) <= current_total_supply,
    ensures
        match min_amount_out_result(
            (current_total_supply - supply_before(*cache)) as u128,
            cache.slippage,
            sell_power_pool(*config),
            spot_price,
        ) {
            Ok(m) => r == Ok::<(u128, u128), ContractError>(((current_total_supply - supply_before(*cache)) as u128, m)),
            Err(e) => r == Err::<(u128, u128), ContractError>(e),
        },
{
    let prev_total_supply = match cache.total_supply {
        Some(s) => s,
        None => 0,
    };
    let mint_amount = current_total_supply - prev_total_supply;
    let pool = PoolParams {
        id: config.power_pool.id,
        base_denom: config.power_asset.denom.clone(),
        quote_denom: config.base_asset.denom.clone(),
        base_decimal_places: config.power_asset.decimals,
        quote_decimal_places: config.base_asset.decimals,
    };
    let token_out_min_amount = get_min_amount_out_from_slippage(mint_amount, cache.slippage, &pool, spot_price)?;
    Ok((mint_amount, token_out_min_amount))
}

/// The power bought back by a close-short swap, burnt as if the sender had
/// sent it.
pub open spec fn close_short_burn_funds(c: Config, cache: TmpCacheValues, current_balance: u128) -> Seq<Coin> {
    seq![Coin { denom: c.power_asset.denom, amount: (current_balance - cache.balance->0) as u128 }]
}

pub open spec fn close_short_reply_result(
    state: State,
    config: Config,
    cache: TmpCacheValues,
    token_in_amount: u128,
    current_balance: u128,
    existing: Option<Vault>,
    now: Timestamp,
    prices: Prices,
) -> Result<(BurnOutcome, Option<(String, u128)>), ContractError> {
    match cache.vault_id {
        None => Err(ContractError::VaultDoesNotExist(0)),
        Some(id) => match existing {
            None => Err(ContractError::VaultDoesNotExist(id)),
            Some(v) => match burn_result(
                state,
                config,
                cache.sender->0,
                close_short_burn_funds(config, cache, current_balance),
                cache.amount_to_withdraw,
                id,
                existing,
                now,
                prices,
            ) {
                Err(e) => Err(e),
                Ok(b) => if cache.amount_to_swap->0 > token_in_amount {
                    match collateral_asset_result(config, v.vault_type) {
                        Err(e) => Err(e),
                        Ok(asset) => Ok((b, Some((asset.denom, (cache.amount_to_swap->0 - token_in_amount) as u128)))),
                    }
                } else {
                    Ok((b, None))
                },
            },
        },
    }
}

/// After the swap of a close short: burns the power bought (the contract's
/// balance growth) against the vault and refunds the base the swap did not
/// use.
pub fn close_short_reply(
    state: &State,
    config: &Config,
    cache: &TmpCacheValues,
    token_in_amount: u128,
    current_balance: u128,
    existing: &Option<Vault>,
    block_time: Timestamp,
    prices: &Prices,
) -> (r: Result<(BurnOutcome, Option<(String, u128)>), ContractError>)
    requires
        cache.sender is Some,
        cache.balance is Some,
        cache.balance->0 <= current_balance,
        cache.vault_id is Some && existing is Some ==> {
            &&& cache.amount_to_swap is Some
            &&& (existing->0.vault_type is Staked ==> config.stake_assets is Some)
            &&& (open_and_unpaused_result(*state) is Ok
                && must_pay_result(close_short_burn_funds(*config, *cache, current_balance), config.power_asset.denom) is Ok
                && state.last_funding_update.secs() != block_time.secs()
                ==> funding_defined(*state, block_time, prices.funding_quote, prices.funding_power))
        },
    ensures
        r == close_short_reply_result(*state, *config, *cache, token_in_amount, current_balance, *existing, block_time, *prices),
{
    let sender = cache.sender.as_ref().unwrap();
    let burn_amount = current_balance - cache.balance.unwrap();
    let vault_id = match cache.vault_id {
        Some(id) => id,
        None => { return Err(ContractError::VaultDoesNotExist(0)); },
    };
    let expected_vault_type = match existing {
        Some(v) => v.vault_type.duplicate(),
        None => { return Err(ContractError::VaultDoesNotExist(vault_id)); },
    };
    let funds = vec![Coin { denom: config.power_asset.denom.clone(), amount: burn_amount }];
    proof {
        assert(funds@ == close_short_burn_funds(*config, *cache, current_balance));
    }
    let burnt = burn(state, config, sender, &funds, cache.amount_to_withdraw, vault_id, existing, block_time, prices)?;
    let swapped = cache.amount_to_swap.unwrap();
    if swapped > token_in_amount {
        let asset = get_collateral_from_vault_type(config, &expected_vault_type)?;
        Ok((burnt, Some((asset.denom, swapped - token_in_amount))))
    } else {
        Ok((burnt, None))
    }
}

/// After the swap of a flash liquidation: the power bought is recorded as
/// the amount to burn and sent on to the liquidator, who then liquidates.
/// Gives the updated cache and the liquidator.
pub fn flash_liquidate_swap_reply(cache: TmpCacheValues, token_out_amount: u128) -> (r: (TmpCacheValues, String))
    requires
        cache.sender is Some,
    ensures
        r.0 == (TmpCacheValues { amount_to_burn: Some(token_out_amount), ..cache }),
        r.1 == cache.sender->0,
{
    let recipient = cache.sender.as_ref().unwrap().clone();
    (TmpCacheValues { amount_to_burn: Some(token_out_amount), ..cache }, recipient)
}

/// After a flash liquidation's swaps: liquidates the vault with the power
/// bought, requiring at least the base swapped back as collateral.
pub fn flash_liquidate_reply(
    state: &State,
    config: &Config,
    cache: &TmpCacheValues,
    existing: &Option<Vault>,
    block_time: Timestamp,
    prices: &Prices,
) -> (r: Result<LiquidationOutcome, ContractError>)
    requires
        cache.sender is Some,
        cache.amount_to_burn is Some,
        cache.vault_id is Some,
        open_and_unpaused_result(*state) is Ok && existing is Some ==> {
            &&& (existing->0.vault_type is Staked ==> config.stake_assets is Some)
            &&& (collateral_asset_result(*config, existing->0.vault_type) is Ok
                && state.last_funding_update.secs() != block_time.secs()
                ==> funding_defined(*state, block_time, prices.funding_quote, prices.funding_power))
        },
    ensures
        r == liquidate_result(
            *state,
            *config,
            Seq::empty(),
            cache.amount_to_burn->0,
            cache.vault_id->0,
            *existing,
            cache.amount_to_swap,
            block_time,
            *prices,
        ),
{
    let funds: Vec<Coin> = Vec::new();
    liquidate(
        state,
        config,
        &funds,
        cache.amount_to_burn.unwrap(),
        cache.vault_id.unwrap(),
        existing,
        cache.amount_to_swap,
        block_time,
        prices,
    )
}


/// Closing a short with exposure to buy back caches the contract's power
/// balance less the power sent along with the request. So when the swap has
/// added the power it bought to that balance, the reply burns the power
/// bought plus the power sent, both against the vault.
pub proof fn law_close_short_burns_bought_and_sent(
    config: Config,
    sender: String,
    funds: Seq<Coin>,
    exposure_to_burn: u128,
    amount_to_withdraw: Option<u128>,
    vault_id: u64,
    existing: Option<Vault>,
    power_balance: u128,
    bought: u128,
)
    requires
        exposure_to_burn != 0,
        amount_of(funds, config.power_asset.denom@) <= power_balance,
        power_balance + bought <= u128::MAX,
    ensures
        close_short_result(config, sender, funds, exposure_to_burn, amount_to_withdraw, vault_id, existing, power_balance)
            matches Ok(CloseShortPlan::Swap { cache, .. }) ==> {
            &&& cache.balance == Some((power_balance - amount_of(funds, config.power_asset.denom@)) as u128)
            &&& close_short_burn_funds(config, cache, (power_balance + bought) as u128)[0].amount
                == bought + amount_of(funds, config.power_asset.denom@)
            &&& close_short_burn_funds(config, cache, (power_balance + bought) as u128)[0].denom == config.power_asset.denom
        },
{
}

} // verus!
