//! The funds attached to a message: which coins were sent, and what an
//! operation accepts.

use vstd::prelude::*;
use crate::config::{Config, VaultType};
use crate::error::ContractError;
use crate::vault::{find_stake_asset, find_stake_asset_index};

verus! {

/// An amount of one denom.
#[derive(Clone, Debug)]
pub struct Coin {
    pub denom: String,
    pub amount: u128,
}

pub open spec fn nonpayable_result(funds: Seq<Coin>) -> Result<(), ContractError> {
    if funds.len() == 0 {
        Ok(())
    } else {
        Err(ContractError::NonPayable)
    }
}

/// Fails when any coin was sent.
pub fn nonpayable(funds: &Vec<Coin>) -> (r: Result<(), ContractError>)
    ensures
        r == nonpayable_result(funds@),
{
    if funds.len() == 0 {
        Ok(())
    } else {
        Err(ContractError::NonPayable)
    }
}

pub open spec fn must_pay_result(funds: Seq<Coin>, denom: String) -> Result<u128, ContractError> {
    if funds.len() == 0 {
        Err(ContractError::NoFunds)
    } else if funds.len() > 1 {
        Err(ContractError::MultipleDenoms)
    } else if funds[0].amount == 0 {
        Err(ContractError::NoFunds)
    } else if funds[0].denom@ != denom@ {
        Err(ContractError::MissingDenom(denom))
    } else {
        Ok(funds[0].amount)
    }
}

/// Requires exactly one non-zero coin, of the given denom; returns its amount.
pub fn must_pay(funds: &Vec<Coin>, denom: &String) -> (r: Result<u128, ContractError>)
    ensures
        r == must_pay_result(funds@, *denom),
{
    if funds.len() == 0 {
        return Err(ContractError::NoFunds);
    }
    if funds.len() > 1 {
        return Err(ContractError::MultipleDenoms);
    }
    if funds[0].amount == 0 {
        return Err(ContractError::NoFunds);
    }
    if !funds[0].denom.eq(denom) {
        return Err(ContractError::MissingDenom(denom.clone()));
    }
    Ok(funds[0].amount)
}

/// The index of the first coin not of the given denom.
pub open spec fn first_other_denom(funds: Seq<Coin>, denom: Seq<char>, n: nat) -> Option<int>
    decreases n,
{
    if n == 0 {
        None
    } else {
        match first_other_denom(funds, denom, (n - 1) as nat) {
            Some(i) => Some(i),
            None => if funds[n - 1].denom@ != denom {
                Some(n - 1)
            } else {
                None
            },
        }
    }
}

pub proof fn lemma_first_other_denom_stays(funds: Seq<Coin>, denom: Seq<char>, m: nat, n: nat)
    requires
        m <= n,
        first_other_denom(funds, denom, m) is Some,
    ensures
        first_other_denom(funds, denom, n) == first_other_denom(funds, denom, m),
    decreases n,
{
    if m < n {
        lemma_first_other_denom_stays(funds, denom, m, (n - 1) as nat);
    }
}

pub open spec fn may_pay_result(funds: Seq<Coin>, denom: Seq<char>) -> Result<u128, ContractError> {
    if funds.len() == 0 {
        Ok(0)
    } else if funds.len() == 1 && funds[0].denom@ == denom {
        Ok(funds[0].amount)
    } else {
        Err(ContractError::ExtraDenom(funds[first_other_denom(funds, denom, funds.len())->0].denom))
    }
}

/// Sending is optional: returns the amount of the denom sent, 0 when nothing
/// was sent, and names the first other denom when something else was sent.
pub fn may_pay(funds: &Vec<Coin>, denom: &String) -> (r: Result<u128, ContractError>)
    requires
        funds@.len() >= 2 ==> first_other_denom(funds@, denom@, funds@.len()) is Some,
    ensures
        r == may_pay_result(funds@, denom@),
{
    if funds.len() == 0 {
        return Ok(0);
    }
    if funds.len() == 1 && funds[0].denom.eq(denom) {
        return Ok(funds[0].amount);
    }
    let n = funds.len();
    let mut i: usize = 0;
    while i < n
        invariant
            n == funds@.len(),
            i <= n,
            first_other_denom(funds@, denom@, i as nat) is None,
            n >= 2 ==> first_other_denom(funds@, denom@, n as nat) is Some,
            n == 1 ==> funds@[0].denom@ != denom@,
        decreases n - i,
    {
        if !funds[i].denom.eq(denom) {
            proof {
                assert(first_other_denom(funds@, denom@, (i + 1) as nat) == Some(i as int));
                lemma_first_other_denom_stays(funds@, denom@, (i + 1) as nat, n as nat);
            }
            return Err(ContractError::ExtraDenom(funds[i].denom.clone()));
        }
        i = i + 1;
    }
    proof {
        assert(first_other_denom(funds@, denom@, 1) is Some);
        assert(false);
    }
    Err(ContractError::NoFunds)
}

/// The collateral a mint message carries and the vault type it asks for.
pub open spec fn sent_collateral_result(funds: Seq<Coin>, c: Config) -> Result<(u128, Option<VaultType>), ContractError> {
    if funds.len() == 0 {
        Ok((0, None))
    } else if funds.len() == 1 {
        if c.stake_assets is Some && funds[0].amount != 0 && find_stake_asset(
            c.stake_assets->0@,
            funds[0].denom@,
            c.stake_assets->0@.len(),
        ) is Some {
            Ok((
                funds[0].amount,
                Some(VaultType::Staked {
                    denom: c.stake_assets->0@[find_stake_asset(
                        c.stake_assets->0@,
                        funds[0].denom@,
                        c.stake_assets->0@.len(),
                    )->0].denom,
                }),
            ))
        } else if funds[0].denom@ == c.base_asset.denom@ {
            Ok((funds[0].amount, Some(VaultType::Default)))
        } else {
            Err(ContractError::FailedToGetBaseCollateral)
        }
    } else {
        Err(ContractError::TooManyCoins)
    }
}

/// Reads the collateral sent with a mint: nothing (no vault type), a
/// non-zero amount of a listed staked asset (a staked vault), or the base
/// asset (a default vault); more than one coin is refused.
pub fn get_sent_collateral_and_vault_type(funds: &Vec<Coin>, config: &Config) -> (r: Result<(u128, Option<VaultType>), ContractError>)
    ensures
        r == sent_collateral_result(funds@, *config),
{
    if funds.len() == 0 {
        return Ok((0, None));
    }
    if funds.len() != 1 {
        return Err(ContractError::TooManyCoins);
    }
    if config.is_stake_enabled() && funds[0].amount != 0 {
        let assets = config.stake_assets.as_ref().unwrap();
        match find_stake_asset_index(assets, &funds[0].denom) {
            Some(i) => {
                return Ok((funds[0].amount, Some(VaultType::Staked { denom: assets[i].denom.clone() })));
            },
            None => {},
        }
    }
    match may_pay(funds, &config.base_asset.denom) {
        Ok(amount) => Ok((amount, Some(VaultType::Default))),
        Err(_) => Err(ContractError::FailedToGetBaseCollateral),
    }
}

} // verus!
