//! Values the protocol's queries compute.

use vstd::prelude::*;
use crate::math::{Timestamp, nanos_per_second};

verus! {

/// Vaults listed per page when no limit is given.
pub const DEFAULT_VAULT_PAGE: u32 = 10u32;

/// The most vaults listed per page.
pub const MAX_VAULT_PAGE: u32 = 50u32;

/// The id the next created vault will get: the stored counter (0 when
/// unset) plus one.
pub fn get_next_vault_id(vault_count: Option<u64>) -> (r: u64)
    requires
        vault_count matches Some(c) ==> c < u64::MAX,
    ensures
        r == (match vault_count {
            Some(c) => c + 1,
            None => 1,
        }),
{
    let current = match vault_count {
        Some(c) => c,
        None => 0,
    };
    current + 1
}

/// The page size for listing a user's vaults: the limit asked for (10 by
/// default), at most 50.
pub fn user_vaults_limit(limit: Option<u32>) -> (r: usize)
    ensures
        r == (match limit {
            Some(l) => if l < MAX_VAULT_PAGE { l } else { MAX_VAULT_PAGE },
            None => DEFAULT_VAULT_PAGE,
        }),
{
    let l = match limit {
        Some(l) => l,
        None => DEFAULT_VAULT_PAGE,
    };
    if l < MAX_VAULT_PAGE { l as usize } else { MAX_VAULT_PAGE as usize }
}

/// The start of a price window of `period` seconds ending now.
pub fn calculate_start_time(block_time: Timestamp, period: u64) -> (r: Timestamp)
    requires
        period * nanos_per_second() <= block_time.nanos,
    ensures
        r.nanos == block_time.nanos - period * nanos_per_second(),
{
    block_time.minus_seconds(period)
}

} // verus!
