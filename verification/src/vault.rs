//! Vaults: their accounting, the operations that change them, and their
//! solvency.

use vstd::prelude::*;
use crate::config::{Config, StakeAsset, VaultType, same_vault_type};
use crate::error::ContractError;
use crate::math::{
    Decimal, decimal_to_fixed, fits_u128, mul_floor, pow10, pow10_u128, ratio_floor,
    to_fixed_value,
};

verus! {

/// Collateral must be worth at least 3/2 of the debt: the numerator, 3, in atomics.
pub const COLLATERAL_RATIO_NUMERATOR: u128 = 3_000_000_000_000_000_000u128;

/// Collateral must be worth at least 3/2 of the debt: the denominator, 2, in atomics.
pub const COLLATERAL_RATIO_DENOMINATOR: u128 = 2_000_000_000_000_000_000u128;

/// A vault: who operates it, the collateral it holds and the power tokens
/// minted against it.
#[derive(Clone, Debug)]
pub struct Vault {
    pub operator: String,
    pub collateral: u128,
    pub short_amount: u128,
    pub vault_type: VaultType,
}

impl Vault {
    /// A new vault with no collateral and no debt.
    pub fn new(operator: String, vault_type: VaultType) -> (r: Vault)
        ensures
            r.operator == operator,
            r.collateral == 0,
            r.short_amount == 0,
            r.vault_type == vault_type,
    {
        Vault { operator, collateral: 0, short_amount: 0, vault_type }
    }

    /// Whether the vault holds neither collateral nor debt.
    pub fn is_empty(&self) -> (r: bool)
        ensures
            r == (self.collateral == 0 && self.short_amount == 0),
    {
        self.collateral == 0 && self.short_amount == 0
    }

    /// A copy of this vault.
    pub fn duplicate(&self) -> (r: Vault)
        ensures
            r == *self,
    {
        Vault {
            operator: self.operator.clone(),
            collateral: self.collateral,
            short_amount: self.short_amount,
            vault_type: self.vault_type.duplicate(),
        }
    }
}

impl Default for Vault {
    fn default() -> (r: Vault)
        ensures
            r.operator@ == Seq::<char>::empty(),
            r.collateral == 0,
            r.short_amount == 0,
            r.vault_type is Default,
    {
        Vault { operator: String::new(), collateral: 0, short_amount: 0, vault_type: VaultType::Default }
    }
}

/// The first index below `n` of a staked asset with the given denom.
pub open spec fn find_stake_asset(s: Seq<StakeAsset>, denom: Seq<char>, n: nat) -> Option<int>
    decreases n,
{
    if n == 0 {
        None
    } else {
        match find_stake_asset(s, denom, (n - 1) as nat) {
            Some(i) => Some(i),
            None => if s[n - 1].denom@ == denom {
                Some(n - 1)
            } else {
                None
            },
        }
    }
}

pub proof fn lemma_find_stake_asset_stays(s: Seq<StakeAsset>, denom: Seq<char>, m: nat, n: nat)
    requires
        m <= n,
        find_stake_asset(s, denom, m) is Some,
    ensures
        find_stake_asset(s, denom, n) == find_stake_asset(s, denom, m),
    decreases n,
{
    if m < n {
        lemma_find_stake_asset_stays(s, denom, m, (n - 1) as nat);
    }
}

/// The decimals of the staked asset with the given denom, if it is listed.
pub open spec fn staked_decimals_of(c: Config, denom: Seq<char>) -> Option<u32> {
    match find_stake_asset(c.stake_assets->0@, denom, c.stake_assets->0@.len()) {
        Some(i) => Some(c.stake_assets->0@[i].decimals),
        None => None,
    }
}

/// Finds the first listed staked asset with the given denom.
pub fn find_stake_asset_index(assets: &Vec<StakeAsset>, denom: &String) -> (r: Option<usize>)
    ensures
        r matches Some(i) ==> find_stake_asset(assets@, denom@, assets@.len()) == Some(i as int)
            && i < assets@.len(),
        r is None ==> find_stake_asset(assets@, denom@, assets@.len()) is None,
{
    let n = assets.len();
    let mut i: usize = 0;
    while i < n
        invariant
            n == assets@.len(),
            i <= n,
            find_stake_asset(assets@, denom@, i as nat) is None,
        decreases n - i,
    {
        if assets[i].denom.eq(denom) {
            proof {
                assert(find_stake_asset(assets@, denom@, (i + 1) as nat) == Some(i as int));
                lemma_find_stake_asset_stays(assets@, denom@, (i + 1) as nat, n as nat);
            }
            return Some(i);
        }
        i = i + 1;
    }
    None
}

/// The decimals of a staked asset; staking must be enabled.
pub fn get_staked_asset_decimals(denom: &String, config: &Config) -> (r: Result<u32, ContractError>)
    requires
        config.stake_assets is Some,
    ensures
        r == (match staked_decimals_of(*config, denom@) {
            Some(d) => Ok::<u32, ContractError>(d),
            None => Err(ContractError::StakedAssetNotFound),
        }),
{
    let assets = config.stake_assets.as_ref().unwrap();
    match find_stake_asset_index(assets, denom) {
        Some(i) => Ok(assets[i].decimals),
        None => Err(ContractError::StakedAssetNotFound),
    }
}

/// The decimals used to read a vault's staked collateral: those of its
/// asset, or 6 when the asset is not listed.
pub open spec fn stake_decimals_or_default(c: Config, denom: Seq<char>) -> u32 {
    match staked_decimals_of(c, denom) {
        Some(d) => d,
        None => 6,
    }
}

/// The vault's debt in power tokens, as a decimal.
pub open spec fn status_short(c: Config, v: Vault) -> int {
    ratio_floor(v.short_amount as int, pow10(c.power_asset.decimals as nat) as int)
}

/// The debt scaled by the normalisation factor.
pub open spec fn status_normalised_short(c: Config, v: Vault, nf: Decimal) -> int {
    mul_floor(status_short(c, v), nf.atomics as int)
}

/// The debt's value in quote terms.
pub open spec fn status_debt(c: Config, v: Vault, nf: Decimal, quote: Decimal) -> int {
    mul_floor(status_normalised_short(c, v, nf), quote.atomics as int)
}

/// The staked collateral counted in units of the staked asset.
pub open spec fn status_staked_units(c: Config, v: Vault) -> int {
    match v.vault_type {
        VaultType::Staked { denom } => ratio_floor(
            v.collateral as int,
            pow10(stake_decimals_or_default(c, denom@) as nat) as int,
        ),
        VaultType::Default => 0,
    }
}

/// The collateral as a decimal in base terms.
pub open spec fn status_collateral(c: Config, v: Vault, stake_price: Option<Decimal>) -> int {
    match v.vault_type {
        VaultType::Default => ratio_floor(
            v.collateral as int,
            pow10(c.base_asset.decimals as nat) as int,
        ),
        VaultType::Staked { .. } => mul_floor(
            status_staked_units(c, v),
            match stake_price {
                Some(p) => p.atomics as int,
                None => 0,
            },
        ),
    }
}

pub open spec fn fixed(x: int, places: u32) -> int {
    x / (pow10((18 - places) as nat) as int)
}

/// Whether 2 x collateral covers 3 x debt, both rounded down to the base
/// asset's decimals.
pub open spec fn status_solvent(c: Config, v: Vault, nf: Decimal, quote: Decimal, stake_price: Option<Decimal>) -> bool {
    fixed(mul_floor(status_collateral(c, v, stake_price), COLLATERAL_RATIO_DENOMINATOR as int), c.base_asset.decimals)
        >= fixed(mul_floor(status_debt(c, v, nf, quote), COLLATERAL_RATIO_NUMERATOR as int), c.base_asset.decimals)
}

/// Whether the vault holds at least the minimum collateral.
pub open spec fn status_above_min(c: Config, v: Vault) -> bool {
    to_fixed_value(c.min_collateral_amount, c.base_asset.decimals as nat) <= v.collateral
}

/// Collateral over debt, or 0 when there is no debt or the vault is below
/// the minimum collateral.
pub open spec fn status_ratio(c: Config, v: Vault, nf: Decimal, quote: Decimal, stake_price: Option<Decimal>) -> int {
    if status_debt(c, v, nf, quote) == 0 || !status_above_min(c, v) {
        0
    } else {
        ratio_floor(status_collateral(c, v, stake_price), status_debt(c, v, nf, quote))
    }
}

/// The inputs on which computing a vault's status stays within range.
pub open spec fn status_defined(c: Config, v: Vault, nf: Decimal, quote: Decimal, stake_price: Option<Decimal>) -> bool {
    &&& c.power_asset.decimals <= 38
    &&& c.base_asset.decimals <= 18
    &&& (v.vault_type is Staked ==> {
        &&& c.stake_assets is Some
        &&& stake_decimals_or_default(c, v.vault_type->denom@) <= 38
        &&& fits_u128(status_staked_units(c, v))
    })
    &&& fits_u128(status_short(c, v))
    &&& fits_u128(status_normalised_short(c, v, nf))
    &&& fits_u128(status_debt(c, v, nf, quote))
    &&& fits_u128(status_collateral(c, v, stake_price))
    &&& fits_u128(mul_floor(status_collateral(c, v, stake_price), COLLATERAL_RATIO_DENOMINATOR as int))
    &&& fits_u128(mul_floor(status_debt(c, v, nf, quote), COLLATERAL_RATIO_NUMERATOR as int))
    &&& (status_debt(c, v, nf, quote) != 0 && status_above_min(c, v) ==> fits_u128(
        ratio_floor(status_collateral(c, v, stake_price), status_debt(c, v, nf, quote)),
    ))
}

/// The vault's status: whether it is solvent, whether it holds the minimum
/// collateral, and its collateral ratio.
pub fn calculate_status(
    config: &Config,
    vault: &Vault,
    normalisation_factor: Decimal,
    quote_price: Decimal,
    stake_price: Option<Decimal>,
) -> (r: (bool, bool, Decimal))
    requires
        status_defined(*config, *vault, normalisation_factor, quote_price, stake_price),
    ensures
        r.0 == status_solvent(*config, *vault, normalisation_factor, quote_price, stake_price),
        r.1 == status_above_min(*config, *vault),
        r.2.atomics == status_ratio(*config, *vault, normalisation_factor, quote_price, stake_price),
{
    proof {
        crate::math::lemma_pow10_positive(config.power_asset.decimals as nat);
        crate::math::lemma_pow10_positive(config.base_asset.decimals as nat);
    }
    let decimal_short_amount = Decimal::from_ratio(
        vault.short_amount,
        pow10_u128(config.power_asset.decimals),
    );
    let debt_value = decimal_short_amount.mul(normalisation_factor).mul(quote_price);
    let decimal_collateral = match &vault.vault_type {
        VaultType::Default => Decimal::from_ratio(
            vault.collateral,
            pow10_u128(config.base_asset.decimals),
        ),
        VaultType::Staked { denom } => {
            let stake_decimals = match get_staked_asset_decimals(denom, config) {
                Ok(d) => d,
                Err(_) => 6u32,
            };
            proof {
                crate::math::lemma_pow10_positive(stake_decimals as nat);
            }
            let stake_asset_collateral = Decimal::from_ratio(
                vault.collateral,
                pow10_u128(stake_decimals),
            );
            let price = match stake_price {
                Some(p) => p,
                None => Decimal::zero(),
            };
            stake_asset_collateral.mul(price)
        },
    };
    let adjusted_collateral = decimal_collateral.mul(Decimal::raw(COLLATERAL_RATIO_DENOMINATOR));
    let adjusted_debt = debt_value.mul(Decimal::raw(COLLATERAL_RATIO_NUMERATOR));

    let adjusted_collateral = decimal_to_fixed(adjusted_collateral, config.base_asset.decimals);
    let adjusted_debt = decimal_to_fixed(adjusted_debt, config.base_asset.decimals);
    let min_collateral = decimal_to_fixed(config.min_collateral_amount, config.base_asset.decimals);

    let above_min_collateral = min_collateral <= vault.collateral;
    let is_solvent = adjusted_collateral >= adjusted_debt;

    let collateral_ratio = if debt_value.is_zero() || !above_min_collateral {
        Decimal::zero()
    } else {
        decimal_collateral.div(debt_value)
    };
    (is_solvent, above_min_collateral, collateral_ratio)
}


/// The vault the store holds under an id, or the error for a missing vault.
pub open spec fn vault_type_result(vault: Option<Vault>, vault_id: u64) -> Result<VaultType, ContractError> {
    match vault {
        Some(v) => Ok(v.vault_type),
        None => Err(ContractError::VaultNotFound(vault_id)),
    }
}

/// The type of the vault stored under `vault_id` (`vault` is what the store
/// holds there).
pub fn get_vault_type(vault: &Option<Vault>, vault_id: u64) -> (r: Result<VaultType, ContractError>)
    ensures
        r == vault_type_result(*vault, vault_id),
{
    match vault {
        Some(v) => Ok(v.vault_type.duplicate()),
        None => Err(ContractError::VaultNotFound(vault_id)),
    }
}

/// Creating a vault: the new id is the counter plus one.
pub open spec fn created_vault_id(current_count: u64) -> int {
    current_count + 1
}

/// Creates a vault for `operator`; `current_count` is the stored vault
/// counter (0 when unset). Returns the new vault's id, which is also the new
/// counter, and the vault to store under it.
pub fn create_vault(current_count: u64, operator: String, vault_type: VaultType) -> (r: (u64, Vault))
    requires
        current_count < u64::MAX,
    ensures
        r.0 == created_vault_id(current_count),
        r.1 == (Vault { operator, collateral: 0, short_amount: 0, vault_type }),
{
    let nonce = current_count + 1;
    (nonce, Vault::new(operator, vault_type))
}

/// What removing a vault gives: the new counter, or why it cannot be removed.
pub open spec fn remove_vault_result(current_count: u64, vault_id: u64, v: Vault) -> Result<u64, ContractError> {
    if v.short_amount != 0 {
        Err(ContractError::VaultHasShortExposure(vault_id))
    } else if v.collateral != 0 {
        Err(ContractError::VaultHasCollateral(vault_id))
    } else {
        Ok((current_count - 1) as u64)
    }
}

/// Removes the vault `vault_id` (currently `vault`) if it holds neither
/// debt nor collateral; returns the decremented counter.
pub fn remove_vault(current_count: u64, vault_id: u64, vault: &Vault) -> (r: Result<u64, ContractError>)
    requires
        current_count >= 1,
    ensures
        r == remove_vault_result(current_count, vault_id, *vault),
{
    let nonce = current_count - 1;
    if vault.short_amount != 0 {
        return Err(ContractError::VaultHasShortExposure(vault_id));
    }
    if vault.collateral != 0 {
        return Err(ContractError::VaultHasCollateral(vault_id));
    }
    Ok(nonce)
}

/// What adding collateral and debt to a vault gives.
pub open spec fn update_vault_result(v: Vault, operator: Seq<char>, vault_type: VaultType, collateral: u128, short_amount: u128) -> Result<Vault, ContractError> {
    if operator != v.operator@ {
        Err(ContractError::OperatorDoesNotMatch)
    } else if !same_vault_type(vault_type, v.vault_type) {
        Err(ContractError::VaultTypeMismatch)
    } else {
        Ok(Vault {
            collateral: (v.collateral + collateral) as u128,
            short_amount: (v.short_amount + short_amount) as u128,
            ..v
        })
    }
}

/// Adds collateral and debt to the vault; only its operator may, and only
/// with the vault's own collateral type.
pub fn update_vault(
    current: &Vault,
    operator: &String,
    vault_type: &VaultType,
    collateral: u128,
    short_amount: u128,
) -> (r: Result<Vault, ContractError>)
    requires
        operator@ == current.operator@ && same_vault_type(*vault_type, current.vault_type) ==> {
            &&& current.collateral + collateral <= u128::MAX
            &&& current.short_amount + short_amount <= u128::MAX
        },
    ensures
        r == update_vault_result(*current, operator@, *vault_type, collateral, short_amount),
{
    if !operator.eq(&current.operator) {
        return Err(ContractError::OperatorDoesNotMatch);
    }
    if !crate::config::vault_type_eq(vault_type, &current.vault_type) {
        return Err(ContractError::VaultTypeMismatch);
    }
    Ok(Vault {
        operator: current.operator.clone(),
        collateral: current.collateral + collateral,
        short_amount: current.short_amount + short_amount,
        vault_type: current.vault_type.duplicate(),
    })
}

/// What checking a burn against a vault gives.
pub open spec fn check_can_burn_result(v: Vault, operator: Seq<char>, amount_to_burn: u128, collateral_to_withdraw: u128) -> Result<(), ContractError> {
    if operator != v.operator@ {
        Err(ContractError::OperatorDoesNotMatch)
    } else if collateral_to_withdraw > v.collateral || amount_to_burn > v.short_amount {
        Err(ContractError::BurnExceedsVault)
    } else {
        Ok(())
    }
}

/// Checks that the operator may burn `amount_to_burn` of debt and withdraw
/// `collateral_to_withdraw` from the vault.
pub fn check_can_burn(current: &Vault, operator: &String, amount_to_burn: u128, collateral_to_withdraw: u128) -> (r: Result<(), ContractError>)
    ensures
        r == check_can_burn_result(*current, operator@, amount_to_burn, collateral_to_withdraw),
{
    if !operator.eq(&current.operator) {
        return Err(ContractError::OperatorDoesNotMatch);
    }
    if collateral_to_withdraw > current.collateral || amount_to_burn > current.short_amount {
        return Err(ContractError::BurnExceedsVault);
    }
    Ok(())
}

/// What taking collateral and debt out of a vault gives.
pub open spec fn burn_vault_result(v: Vault, operator: Seq<char>, collateral: u128, short_amount: u128) -> Result<Vault, ContractError> {
    if operator != v.operator@ {
        Err(ContractError::OperatorDoesNotMatch)
    } else if collateral > v.collateral || short_amount > v.short_amount {
        Err(ContractError::BurnExceedsVault)
    } else {
        Ok(Vault {
            collateral: (v.collateral - collateral) as u128,
            short_amount: (v.short_amount - short_amount) as u128,
            ..v
        })
    }
}

/// Takes collateral and debt out of the vault; only its operator may, and
/// never more than it holds.
pub fn burn_vault(current: &Vault, operator: &String, collateral: u128, short_amount: u128) -> (r: Result<Vault, ContractError>)
    ensures
        r == burn_vault_result(*current, operator@, collateral, short_amount),
{
    if !operator.eq(&current.operator) {
        return Err(ContractError::OperatorDoesNotMatch);
    }
    if collateral > current.collateral || short_amount > current.short_amount {
        return Err(ContractError::BurnExceedsVault);
    }
    Ok(Vault {
        operator: current.operator.clone(),
        collateral: current.collateral - collateral,
        short_amount: current.short_amount - short_amount,
        vault_type: current.vault_type.duplicate(),
    })
}

/// What adding collateral to a vault gives.
pub open spec fn add_collateral_result(v: Vault, operator: Seq<char>, collateral: u128) -> Result<Vault, ContractError> {
    if operator != v.operator@ {
        Err(ContractError::OperatorDoesNotMatch)
    } else {
        Ok(Vault { collateral: (v.collateral + collateral) as u128, ..v })
    }
}

/// Adds collateral to the vault; only its operator may.
pub fn add_collateral(current: &Vault, operator: &String, collateral: u128) -> (r: Result<Vault, ContractError>)
    requires
        operator@ == current.operator@ ==> current.collateral + collateral <= u128::MAX,
    ensures
        r == add_collateral_result(*current, operator@, collateral),
{
    if !operator.eq(&current.operator) {
        return Err(ContractError::OperatorDoesNotMatch);
    }
    Ok(Vault {
        operator: current.operator.clone(),
        collateral: current.collateral + collateral,
        short_amount: current.short_amount,
        vault_type: current.vault_type.duplicate(),
    })
}

/// What taking collateral out of a vault gives.
pub open spec fn subtract_collateral_result(v: Vault, operator: Seq<char>, collateral: u128) -> Result<Vault, ContractError> {
    if operator != v.operator@ {
        Err(ContractError::OperatorDoesNotMatch)
    } else if collateral > v.collateral {
        Err(ContractError::SubtractExceedsCollateral)
    } else {
        Ok(Vault { collateral: (v.collateral - collateral) as u128, ..v })
    }
}

/// Takes collateral out of the vault; only its operator may, and never more
/// than it holds.
pub fn subtract_collateral(current: &Vault, operator: &String, collateral: u128) -> (r: Result<Vault, ContractError>)
    ensures
        r == subtract_collateral_result(*current, operator@, collateral),
{
    if !operator.eq(&current.operator) {
        return Err(ContractError::OperatorDoesNotMatch);
    }
    if collateral > current.collateral {
        return Err(ContractError::SubtractExceedsCollateral);
    }
    Ok(Vault {
        operator: current.operator.clone(),
        collateral: current.collateral - collateral,
        short_amount: current.short_amount,
        vault_type: current.vault_type.duplicate(),
    })
}

/// The vault's status as `calculate_status` gives it, or `None` on the
/// inputs where that computation leaves the decimal range or reads an
/// unlisted configuration.
pub fn try_calculate_status(
    config: &Config,
    vault: &Vault,
    normalisation_factor: Decimal,
    quote_price: Decimal,
    stake_price: Option<Decimal>,
) -> (r: Option<(bool, bool, Decimal)>)
    ensures
        r is Some <==> status_defined(*config, *vault, normalisation_factor, quote_price, stake_price),
        r matches Some(x) ==> {
            &&& x.0 == status_solvent(*config, *vault, normalisation_factor, quote_price, stake_price)
            &&& x.1 == status_above_min(*config, *vault)
            &&& x.2.atomics == status_ratio(*config, *vault, normalisation_factor, quote_price, stake_price)
        },
{
    if config.power_asset.decimals > 38 || config.base_asset.decimals > 18 {
        return None;
    }
    proof {
        crate::math::lemma_pow10_positive(config.power_asset.decimals as nat);
        crate::math::lemma_pow10_positive(config.base_asset.decimals as nat);
    }
    let short = crate::math::decimal_checked_from_ratio(vault.short_amount, pow10_u128(config.power_asset.decimals))?;
    let normalised = short.checked_mul(normalisation_factor)?;
    let debt_value = normalised.checked_mul(quote_price)?;
    let decimal_collateral = match &vault.vault_type {
        VaultType::Default => crate::math::decimal_checked_from_ratio(
            vault.collateral,
            pow10_u128(config.base_asset.decimals),
        )?,
        VaultType::Staked { denom } => {
            if config.stake_assets.is_none() {
                return None;
            }
            let stake_decimals = match get_staked_asset_decimals(denom, config) {
                Ok(d) => d,
                Err(_) => 6u32,
            };
            if stake_decimals > 38 {
                return None;
            }
            proof {
                crate::math::lemma_pow10_positive(stake_decimals as nat);
            }
            let units = crate::math::decimal_checked_from_ratio(vault.collateral, pow10_u128(stake_decimals))?;
            let price = match stake_price {
                Some(p) => p,
                None => Decimal::zero(),
            };
            units.checked_mul(price)?
        },
    };
    let adjusted_collateral = decimal_collateral.checked_mul(Decimal::raw(COLLATERAL_RATIO_DENOMINATOR))?;
    let adjusted_debt = debt_value.checked_mul(Decimal::raw(COLLATERAL_RATIO_NUMERATOR))?;
    let adjusted_collateral = decimal_to_fixed(adjusted_collateral, config.base_asset.decimals);
    let adjusted_debt = decimal_to_fixed(adjusted_debt, config.base_asset.decimals);
    let min_collateral = decimal_to_fixed(config.min_collateral_amount, config.base_asset.decimals);
    let above_min_collateral = min_collateral <= vault.collateral;
    let is_solvent = adjusted_collateral >= adjusted_debt;
    let collateral_ratio = if debt_value.is_zero() || !above_min_collateral {
        Decimal::zero()
    } else {
        decimal_collateral.checked_div(debt_value)?
    };
    Some((is_solvent, above_min_collateral, collateral_ratio))
}

/// The status of the vault stored under an id (`vault` is what the store
/// holds there): a missing vault counts as solvent, below the minimum and
/// with ratio 0.
pub fn get_status(
    config: &Config,
    vault: &Option<Vault>,
    normalisation_factor: Decimal,
    quote_price: Decimal,
    stake_price: Option<Decimal>,
) -> (r: (bool, bool, Decimal))
    requires
        *vault matches Some(v) ==> status_defined(*config, v, normalisation_factor, quote_price, stake_price),
    ensures
        *vault is None ==> r == (true, false, Decimal { atomics: 0 }),
        *vault matches Some(v) ==> {
            &&& r.0 == status_solvent(*config, v, normalisation_factor, quote_price, stake_price)
            &&& r.1 == status_above_min(*config, v)
            &&& r.2.atomics == status_ratio(*config, v, normalisation_factor, quote_price, stake_price)
        },
{
    match vault {
        None => (true, false, Decimal::zero()),
        Some(v) => calculate_status(config, v, normalisation_factor, quote_price, stake_price),
    }
}

/// The status of the vault stored under an id, as `get_status` gives it.
pub fn check_vault(
    config: &Config,
    vault: &Option<Vault>,
    normalisation_factor: Decimal,
    quote_price: Decimal,
    stake_price: Option<Decimal>,
) -> (r: (bool, bool, Decimal))
    requires
        *vault matches Some(v) ==> status_defined(*config, v, normalisation_factor, quote_price, stake_price),
    ensures
        *vault is None ==> r == (true, false, Decimal { atomics: 0 }),
        *vault matches Some(v) ==> {
            &&& r.0 == status_solvent(*config, v, normalisation_factor, quote_price, stake_price)
            &&& r.1 == status_above_min(*config, v)
            &&& r.2.atomics == status_ratio(*config, v, normalisation_factor, quote_price, stake_price)
        },
{
    get_status(config, vault, normalisation_factor, quote_price, stake_price)
}

/// Whether the vault stored under an id is solvent (a missing vault is).
pub fn is_vault_safe(
    config: &Config,
    vault: &Option<Vault>,
    normalisation_factor: Decimal,
    quote_price: Decimal,
    stake_price: Option<Decimal>,
) -> (r: bool)
    requires
        *vault matches Some(v) ==> status_defined(*config, v, normalisation_factor, quote_price, stake_price),
    ensures
        *vault is None ==> r,
        *vault matches Some(v) ==> r == status_solvent(*config, v, normalisation_factor, quote_price, stake_price),
{
    let (is_safe, _, _) = get_status(config, vault, normalisation_factor, quote_price, stake_price);
    is_safe
}

/// Adding collateral and then taking the same amount out leaves the vault
/// as it was.
pub proof fn law_add_then_subtract_collateral(v: Vault, operator: Seq<char>, amount: u128)
    requires
        operator == v.operator@,
        v.collateral + amount <= u128::MAX,
    ensures
        add_collateral_result(v, operator, amount) matches Ok(w)
            && subtract_collateral_result(w, operator, amount) == Ok::<Vault, ContractError>(v),
{
}

/// Minting into a vault and then burning the same debt and collateral leaves
/// the vault as it was.
pub proof fn law_update_then_burn(v: Vault, operator: Seq<char>, vault_type: VaultType, collateral: u128, short_amount: u128)
    requires
        operator == v.operator@,
        same_vault_type(vault_type, v.vault_type),
        v.collateral + collateral <= u128::MAX,
        v.short_amount + short_amount <= u128::MAX,
    ensures
        update_vault_result(v, operator, vault_type, collateral, short_amount) matches Ok(w)
            && burn_vault_result(w, operator, collateral, short_amount) == Ok::<Vault, ContractError>(v),
{
}

/// A burn passes the pre-check exactly when burning itself succeeds.
pub proof fn law_check_can_burn_matches_burn(v: Vault, operator: Seq<char>, amount_to_burn: u128, collateral_to_withdraw: u128)
    ensures
        check_can_burn_result(v, operator, amount_to_burn, collateral_to_withdraw) is Ok
            <==> burn_vault_result(v, operator, collateral_to_withdraw, amount_to_burn) is Ok,
{
}

/// Burning never leaves a vault with more collateral or debt than before,
/// and keeps its operator and collateral type.
pub proof fn law_burn_only_decreases(v: Vault, operator: Seq<char>, collateral: u128, short_amount: u128)
    ensures
        burn_vault_result(v, operator, collateral, short_amount) matches Ok(w) ==> {
            &&& w.collateral <= v.collateral
            &&& w.short_amount <= v.short_amount
            &&& w.operator == v.operator
            &&& w.vault_type == v.vault_type
        },
{
}

/// A freshly created vault is empty, and removing it right away succeeds and
/// restores the counter.
pub proof fn law_create_then_remove(current_count: u64, operator: String, vault_type: VaultType)
    requires
        current_count < u64::MAX,
    ensures
        remove_vault_result(
            (current_count + 1) as u64,
            (current_count + 1) as u64,
            Vault { operator, collateral: 0, short_amount: 0, vault_type },
        ) == Ok::<u64, ContractError>(current_count),
{
}

} // verus!
