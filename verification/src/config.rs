//! The protocol's configuration, the assets it names and the rules a valid
//! configuration obeys.

use vstd::prelude::*;
use crate::error::ContractError;
use crate::math::{Decimal, DECIMAL_FRACTIONAL, one_atomics};

verus! {

/// The funding period in seconds (17.5 days).
pub const FUNDING_PERIOD: u64 = 1_512_000u64;

/// A native asset: its denom and its number of decimals.
#[derive(Clone, Debug)]
pub struct Asset {
    pub denom: String,
    pub decimals: u32,
}

/// An AMM pool: its id and the denoms it prices.
#[derive(Clone, Debug)]
pub struct Pool {
    pub id: u64,
    pub base_denom: String,
    pub quote_denom: String,
}

/// A liquid-staked asset accepted as collateral, with the pool that prices it.
#[derive(Clone, Debug)]
pub struct StakeAsset {
    pub denom: String,
    pub decimals: u32,
    pub pool: Pool,
}

/// The kind of collateral a vault holds: the base asset, or a staked asset.
#[derive(Clone, Debug, PartialEq, Eq)]
pub enum VaultType {
    Default,
    Staked { denom: String },
}

/// The protocol's configuration.
#[derive(Clone, Debug)]
pub struct Config {
    pub query_contract: String,
    pub fee_pool_contract: String,
    pub fee_rate: Decimal,
    pub base_asset: Asset,
    pub power_asset: Asset,
    pub stake_assets: Option<Vec<StakeAsset>>,
    pub base_pool: Pool,
    pub power_pool: Pool,
    pub funding_period: u64,
    pub index_scale: u64,
    pub min_collateral_amount: Decimal,
}

impl VaultType {
    /// A copy of this vault type.
    pub fn duplicate(&self) -> (r: VaultType)
        ensures
            r == *self,
    {
        match self {
            VaultType::Default => VaultType::Default,
            VaultType::Staked { denom } => VaultType::Staked { denom: denom.clone() },
        }
    }
}

impl Asset {
    /// A copy of this asset.
    pub fn duplicate(&self) -> (r: Asset)
        ensures
            r == *self,
    {
        Asset { denom: self.denom.clone(), decimals: self.decimals }
    }
}

impl Pool {
    /// A copy of this pool.
    pub fn duplicate(&self) -> (r: Pool)
        ensures
            r == *self,
    {
        Pool { id: self.id, base_denom: self.base_denom.clone(), quote_denom: self.quote_denom.clone() }
    }
}

impl StakeAsset {
    /// A copy of this staked asset.
    pub fn duplicate(&self) -> (r: StakeAsset)
        ensures
            r == *self,
    {
        StakeAsset { denom: self.denom.clone(), decimals: self.decimals, pool: self.pool.duplicate() }
    }
}

impl Default for Asset {
    fn default() -> (r: Asset)
        ensures
            r.denom@ == Seq::<char>::empty(),
            r.decimals == 0,
    {
        Asset { denom: String::new(), decimals: 0 }
    }
}

impl Default for Pool {
    fn default() -> (r: Pool)
        ensures
            r.id == 0,
            r.base_denom@ == Seq::<char>::empty(),
            r.quote_denom@ == Seq::<char>::empty(),
    {
        Pool { id: 0, base_denom: String::new(), quote_denom: String::new() }
    }
}

impl Default for Config {
    /// An empty configuration: no addresses, no assets, a zero fee rate,
    /// an index scale of 1 and no minimum collateral.
    fn default() -> (r: Config)
        ensures
            r.query_contract@ == Seq::<char>::empty(),
            r.fee_pool_contract@ == Seq::<char>::empty(),
            r.fee_rate.atomics == 0,
            r.base_asset.denom@ == Seq::<char>::empty(),
            r.base_asset.decimals == 0,
            r.power_asset.denom@ == Seq::<char>::empty(),
            r.power_asset.decimals == 0,
            r.stake_assets is None,
            r.base_pool.id == 0,
            r.power_pool.id == 0,
            r.funding_period == 0,
            r.index_scale == 1,
            r.min_collateral_amount.atomics == 0,
    {
        Config {
            query_contract: String::new(),
            fee_pool_contract: String::new(),
            fee_rate: Decimal { atomics: 0 },
            base_asset: Asset::default(),
            power_asset: Asset::default(),
            stake_assets: None,
            base_pool: Pool::default(),
            power_pool: Pool::default(),
            funding_period: 0,
            index_scale: 1,
            min_collateral_amount: Decimal { atomics: 0 },
        }
    }
}

/// Whether two vault types are the same.
pub open spec fn same_vault_type(a: VaultType, b: VaultType) -> bool {
    match (a, b) {
        (VaultType::Default, VaultType::Default) => true,
        (VaultType::Staked { denom: x }, VaultType::Staked { denom: y }) => x@ == y@,
        _ => false,
    }
}

/// Compares two vault types.
pub fn vault_type_eq(a: &VaultType, b: &VaultType) -> (r: bool)
    ensures
        r == same_vault_type(*a, *b),
{
    match a {
        VaultType::Default => match b {
            VaultType::Default => true,
            VaultType::Staked { .. } => false,
        },
        VaultType::Staked { denom: x } => match b {
            VaultType::Default => false,
            VaultType::Staked { denom: y } => x.eq(y),
        },
    }
}

pub open spec fn decimals_valid(d: u32) -> bool {
    0 < d <= 18
}

/// Whether the asset at index `j` repeats the denom of an earlier one.
pub open spec fn repeats_earlier(s: Seq<StakeAsset>, j: int) -> bool {
    exists|i: int| 0 <= i < j && #[trigger] s[i].denom@ == s[j].denom@
}

/// The first index below `n` whose denom repeats an earlier one.
pub open spec fn first_repeat(s: Seq<StakeAsset>, n: nat) -> Option<int>
    decreases n,
{
    if n == 0 {
        None
    } else {
        match first_repeat(s, (n - 1) as nat) {
            Some(j) => Some(j),
            None => if repeats_earlier(s, n - 1) {
                Some(n - 1)
            } else {
                None
            },
        }
    }
}

/// The first index below `n` whose decimals are out of range.
pub open spec fn first_bad_decimals(s: Seq<StakeAsset>, n: nat) -> Option<int>
    decreases n,
{
    if n == 0 {
        None
    } else {
        match first_bad_decimals(s, (n - 1) as nat) {
            Some(j) => Some(j),
            None => if !decimals_valid(s[n - 1].decimals) {
                Some(n - 1)
            } else {
                None
            },
        }
    }
}

/// What checking a list of staked assets for repeated denoms gives.
pub open spec fn duplicates_result(s: Seq<StakeAsset>) -> Result<(), ContractError> {
    match first_repeat(s, s.len()) {
        Some(j) => Err(ContractError::DuplicateAssetDenom(s[j].denom)),
        None => Ok(()),
    }
}

pub open spec fn index_scale_valid(x: u64) -> bool {
    x == 10 || x == 100 || x == 1000 || x == 10000 || x == 100000 || x == 1000000
}

/// What validating a configuration gives: the first rule it breaks, in the
/// order the rules are checked.
pub open spec fn validate_result(c: Config) -> Result<(), ContractError> {
    if !decimals_valid(c.base_asset.decimals) {
        Err(ContractError::InvalidBaseDecimals)
    } else if !decimals_valid(c.power_asset.decimals) {
        Err(ContractError::InvalidPowerDecimals)
    } else if c.stake_assets is Some && duplicates_result(c.stake_assets->0@) is Err {
        duplicates_result(c.stake_assets->0@)
    } else if c.stake_assets is Some && first_bad_decimals(
        c.stake_assets->0@,
        c.stake_assets->0@.len(),
    ) is Some {
        Err(
            ContractError::InvalidStakeAssetDecimals(
                c.stake_assets->0@[first_bad_decimals(
                    c.stake_assets->0@,
                    c.stake_assets->0@.len(),
                )->0].denom,
            ),
        )
    } else if c.fee_rate.atomics >= one_atomics() {
        Err(ContractError::InvalidFeeRate)
    } else if c.min_collateral_amount.atomics == 0 {
        Err(ContractError::ZeroMinCollateral)
    } else if !index_scale_valid(c.index_scale) {
        Err(ContractError::InvalidIndexScale)
    } else if !(0 < c.funding_period <= 2 * FUNDING_PERIOD) {
        Err(ContractError::InvalidFundingPeriod)
    } else if c.power_asset.denom@ == c.base_asset.denom@ {
        Err(ContractError::SameBaseAndPowerDenom)
    } else if c.power_pool.id == c.base_pool.id {
        Err(ContractError::SameBaseAndPowerPool)
    } else {
        Ok(())
    }
}

/// A configuration that obeys every rule.
pub open spec fn config_valid(c: Config) -> bool {
    validate_result(c) is Ok
}

/// Checks that no two staked assets share a denom; names the first repeated one.
pub fn check_duplicates(assets: &Vec<StakeAsset>) -> (r: Result<(), ContractError>)
    ensures
        r == duplicates_result(assets@),
{
    let n = assets.len();
    let mut j: usize = 0;
    while j < n
        invariant
            n == assets@.len(),
            j <= n,
            first_repeat(assets@, j as nat) is None,
        decreases n - j,
    {
        let mut i: usize = 0;
        while i < j
            invariant
                n == assets@.len(),
                i <= j < n,
                first_repeat(assets@, j as nat) is None,
                forall|k: int| 0 <= k < i ==> assets@[k].denom@ != assets@[j as int].denom@,
            decreases j - i,
        {
            if assets[i].denom == assets[j].denom {
                proof {
                    assert(repeats_earlier(assets@, j as int));
                    assert(first_repeat(assets@, (j + 1) as nat) == Some(j as int));
                    lemma_first_repeat_stays(assets@, (j + 1) as nat, n as nat);
                }
                return Err(ContractError::DuplicateAssetDenom(assets[j].denom.clone()));
            }
            i = i + 1;
        }
        proof {
            assert(!repeats_earlier(assets@, j as int));
        }
        j = j + 1;
    }
    Ok(())
}

pub proof fn lemma_first_repeat_stays(s: Seq<StakeAsset>, m: nat, n: nat)
    requires
        m <= n,
        first_repeat(s, m) is Some,
    ensures
        first_repeat(s, n) == first_repeat(s, m),
    decreases n,
{
    if m < n {
        lemma_first_repeat_stays(s, m, (n - 1) as nat);
    }
}

pub proof fn lemma_first_bad_decimals_stays(s: Seq<StakeAsset>, m: nat, n: nat)
    requires
        m <= n,
        first_bad_decimals(s, m) is Some,
    ensures
        first_bad_decimals(s, n) == first_bad_decimals(s, m),
    decreases n,
{
    if m < n {
        lemma_first_bad_decimals_stays(s, m, (n - 1) as nat);
    }
}

fn is_valid_index_scale(x: u64) -> (r: bool)
    ensures
        r == index_scale_valid(x),
{
    x == 10 || x == 100 || x == 1000 || x == 10000 || x == 100000 || x == 1000000
}

impl Config {
    /// Checks the configuration against every rule, in a fixed order, and
    /// reports the first one broken.
    #[verifier::loop_isolation(false)]
    pub fn validate(&self) -> (r: Result<(), ContractError>)
        ensures
            r == validate_result(*self),
    {
        if !(self.base_asset.decimals > 0 && self.base_asset.decimals <= 18) {
            return Err(ContractError::InvalidBaseDecimals);
        }
        if !(self.power_asset.decimals > 0 && self.power_asset.decimals <= 18) {
            return Err(ContractError::InvalidPowerDecimals);
        }
        match &self.stake_assets {
            Some(stake_assets) => {
                check_duplicates(stake_assets)?;
                let n = stake_assets.len();
                let mut k: usize = 0;
                while k < n
                    invariant
                        n == stake_assets@.len(),
                        k <= n,
                        first_bad_decimals(stake_assets@, k as nat) is None,
                    decreases n - k,
                {
                    let asset = &stake_assets[k];
                    if !(asset.decimals > 0 && asset.decimals <= 18) {
                        proof {
                            assert(first_bad_decimals(stake_assets@, (k + 1) as nat) == Some(k as int));
                            lemma_first_bad_decimals_stays(stake_assets@, (k + 1) as nat, n as nat);
                        }
                        return Err(ContractError::InvalidStakeAssetDecimals(asset.denom.clone()));
                    }
                    k = k + 1;
                }
            },
            None => {},
        }
        if !(self.fee_rate.atomics < DECIMAL_FRACTIONAL) {
            return Err(ContractError::InvalidFeeRate);
        }
        if self.min_collateral_amount.atomics == 0 {
            return Err(ContractError::ZeroMinCollateral);
        }
        if !is_valid_index_scale(self.index_scale) {
            return Err(ContractError::InvalidIndexScale);
        }
        if !(self.funding_period > 0 && self.funding_period <= 2 * FUNDING_PERIOD) {
            return Err(ContractError::InvalidFundingPeriod);
        }
        if self.power_asset.denom == self.base_asset.denom {
            return Err(ContractError::SameBaseAndPowerDenom);
        }
        if self.power_pool.id == self.base_pool.id {
            return Err(ContractError::SameBaseAndPowerPool);
        }
        Ok(())
    }

    /// Whether staked assets are accepted as collateral.
    pub fn is_stake_enabled(&self) -> (r: bool)
        ensures
            r == self.stake_assets is Some,
    {
        self.stake_assets.is_some()
    }
}

/// No two staked assets share a denom.
pub open spec fn stake_denoms_distinct(s: Seq<StakeAsset>) -> bool {
    forall|i: int, j: int| 0 <= i < j < s.len() ==> #[trigger] s[i].denom@ != #[trigger] s[j].denom@
}

/// Every staked asset has between 1 and 18 decimals.
pub open spec fn stake_decimals_valid(s: Seq<StakeAsset>) -> bool {
    forall|i: int| 0 <= i < s.len() ==> decimals_valid(#[trigger] s[i].decimals)
}

pub proof fn lemma_first_repeat_none(s: Seq<StakeAsset>, n: nat)
    requires
        n <= s.len(),
    ensures
        first_repeat(s, n) is None <==> forall|i: int, j: int| 0 <= i < j < n ==> #[trigger] s[i].denom@ != #[trigger] s[j].denom@,
    decreases n,
{
    if n > 0 {
        lemma_first_repeat_none(s, (n - 1) as nat);
        if first_repeat(s, (n - 1) as nat) is None && repeats_earlier(s, n - 1) {
            let i = choose|i: int| 0 <= i < n - 1 && #[trigger] s[i].denom@ == s[n - 1].denom@;
            assert(s[i].denom@ == s[n - 1].denom@);
        }
        if first_repeat(s, n) is None {
            assert forall|i: int, j: int| 0 <= i < j < n implies #[trigger] s[i].denom@ != #[trigger] s[j].denom@ by {
                if j == n - 1 {
                    assert(!repeats_earlier(s, n - 1));
                }
            }
        }
    }
}

pub proof fn lemma_first_bad_decimals_none(s: Seq<StakeAsset>, n: nat)
    requires
        n <= s.len(),
    ensures
        first_bad_decimals(s, n) is None <==> forall|i: int| 0 <= i < n ==> decimals_valid(#[trigger] s[i].decimals),
    decreases n,
{
    if n > 0 {
        lemma_first_bad_decimals_none(s, (n - 1) as nat);
    }
}

/// A configuration passes validation exactly when both assets have 1 to 18
/// decimals, the staked assets (if any) have distinct denoms and 1 to 18
/// decimals, the fee rate is below one, the minimum collateral is not zero,
/// the index scale is a power of ten from 10 to 1,000,000, the funding
/// period is positive and at most twice the standard one, and the base and
/// power assets differ in denom and in pool.
pub proof fn law_validate_accepts_exactly(c: Config)
    ensures
        validate_result(c) is Ok <==> {
            &&& decimals_valid(c.base_asset.decimals)
            &&& decimals_valid(c.power_asset.decimals)
            &&& (c.stake_assets is Some ==> stake_denoms_distinct(c.stake_assets->0@)
                && stake_decimals_valid(c.stake_assets->0@))
            &&& c.fee_rate.atomics < one_atomics()
            &&& c.min_collateral_amount.atomics != 0
            &&& index_scale_valid(c.index_scale)
            &&& 0 < c.funding_period <= 2 * FUNDING_PERIOD
            &&& c.power_asset.denom@ != c.base_asset.denom@
            &&& c.power_pool.id != c.base_pool.id
        },
{
    if c.stake_assets is Some {
        let s = c.stake_assets->0@;
        lemma_first_repeat_none(s, s.len());
        lemma_first_bad_decimals_none(s, s.len());
    }
}

} // verus!
