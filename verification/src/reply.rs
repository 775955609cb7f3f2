//! Reading the pool manager's answers: the data a swap reply carries, the
//! amounts decoded from it, and the follow-ups of the open-short,
//! close-short and flash-liquidation swaps that those amounts drive.

use vstd::prelude::*;
use crate::admin::{decimal_from_str, parse_decimal};
use crate::config::Config;
use crate::error::ContractError;
use crate::flows::{
    TmpCacheValues, close_short_burn_funds, close_short_reply, close_short_reply_result,
    flash_liquidate_swap_reply,
};
use crate::funding::funding_defined;
use crate::math::{Decimal, Timestamp};
use crate::operations::{BurnOutcome, Prices};
use crate::payment::must_pay_result;
use crate::state::{State, open_and_unpaused_result};
use crate::vault::Vault;
use osmosis_std::types::osmosis::poolmanager::v1beta1::{
    MsgSwapExactAmountInResponse, MsgSwapExactAmountOutResponse,
};
use std::str::FromStr;

verus! {

/// The `token_in_amount` text of the `MsgSwapExactAmountOutResponse` that
/// the bytes encode; `None` when they are not such a message.
pub uninterp spec fn swap_out_token_in_amount(data: Seq<u8>) -> Option<Seq<char>>;

/// The `token_out_amount` text of the `MsgSwapExactAmountInResponse` that
/// the bytes encode; `None` when they are not such a message.
pub uninterp spec fn swap_in_token_out_amount(data: Seq<u8>) -> Option<Seq<char>>;

pub open spec fn is_decimal_digit(c: char) -> bool {
    '0' <= c && c <= '9'
}

/// The number that a string of decimal digits writes.
pub open spec fn digits_value(s: Seq<char>) -> int
    decreases s.len(),
{
    if s.len() == 0 {
        0
    } else {
        digits_value(s.drop_last()) * 10 + ((s.last() as int) - ('0' as int))
    }
}

/// An unsigned 128-bit amount written in decimal: an optional `+`, then at
/// least one digit and nothing else, with a value that fits.
pub open spec fn amount_text_value(s: Seq<char>) -> Option<u128> {
    let digits = if s.len() > 0 && s[0] == '+' { s.drop_first() } else { s };
    if digits.len() > 0
        && (forall|i: int| 0 <= i < digits.len() ==> is_decimal_digit(#[trigger] digits[i]))
        && digits_value(digits) <= u128::MAX {
        Some(digits_value(digits) as u128)
    } else {
        None
    }
}

/// Decodes the answer of an exact-amount-out swap and gives its
/// `token_in_amount` text.
///
/// Trusted: calls `TryFrom<Binary>` of osmosis-std's
/// `MsgSwapExactAmountOutResponse`, a protobuf decode; the contract only
/// names its result (`swap_out_token_in_amount`).
#[verifier::external_body]
fn decode_swap_out_token_in(data: &Vec<u8>) -> (r: Option<String>)
    ensures
        r is Some <==> swap_out_token_in_amount(data@) is Some,
        r matches Some(s) ==> swap_out_token_in_amount(data@) == Some(s@),
{
    match MsgSwapExactAmountOutResponse::try_from(cosmwasm_std::Binary::from(data.clone())) {
        Ok(response) => Some(response.token_in_amount),
        Err(_) => None,
    }
}

/// Decodes the answer of an exact-amount-in swap and gives its
/// `token_out_amount` text.
///
/// Trusted: calls `TryFrom<Binary>` of osmosis-std's
/// `MsgSwapExactAmountInResponse`, a protobuf decode; the contract only
/// names its result (`swap_in_token_out_amount`).
#[verifier::external_body]
fn decode_swap_in_token_out(data: &Vec<u8>) -> (r: Option<String>)
    ensures
        r is Some <==> swap_in_token_out_amount(data@) is Some,
        r matches Some(s) ==> swap_in_token_out_amount(data@) == Some(s@),
{
    match MsgSwapExactAmountInResponse::try_from(cosmwasm_std::Binary::from(data.clone())) {
        Ok(response) => Some(response.token_out_amount),
        Err(_) => None,
    }
}

/// Reads a decimal amount.
///
/// Trusted: calls `cosmwasm_std::Uint128::from_str`, which is `str::parse`
/// for `u128`: an optional `+` followed by decimal digits only, refused when
/// empty or out of range.
#[verifier::external_body]
fn uint128_from_str(s: &String) -> (r: Option<u128>)
    ensures
        r == amount_text_value(s@),
{
    match cosmwasm_std::Uint128::from_str(s) {
        Ok(u) => Some(u.u128()),
        Err(_) => None,
    }
}

/// An amount that the chain reports as text (a balance, a supply, a swap
/// estimate), or `None` when the text is not one.
pub fn read_amount(s: &String) -> (r: Option<u128>)
    ensures
        r == amount_text_value(s@),
{
    uint128_from_str(s)
}

/// A decimal that the chain reports as text (a spot price, a TWAP), or
/// `None` when the text is not one.
pub fn read_decimal(s: &String) -> (r: Option<Decimal>)
    ensures
        r is Some <==> parse_decimal(s@) is Some,
        r matches Some(d) ==> parse_decimal(s@) == Some(d.atomics),
{
    decimal_from_str(s)
}

/// The data a submessage answered with: its bytes when it succeeded with
/// data, and otherwise the failure it reported or the lack of data.
pub fn parse_response_result_data(result: Result<Option<Vec<u8>>, String>) -> (r: Result<Vec<u8>, ContractError>)
    ensures
        match result {
            Ok(Some(data)) => r == Ok::<Vec<u8>, ContractError>(data),
            Ok(None) => r matches Err(ContractError::SubMsgError(m)) && m@ == "No data in reply"@,
            Err(e) => r == Err::<Vec<u8>, ContractError>(ContractError::SubMsgError(e)),
        },
{
    match result {
        Ok(Some(data)) => Ok(data),
        Ok(None) => Err(ContractError::SubMsgError("No data in reply".to_owned())),
        Err(e) => Err(ContractError::SubMsgError(e)),
    }
}

/// After the swap of an open short: the base the swap gave out is sent on
/// to the short seller. Gives the recipient, the denom and the amount text
/// as the swap reported it.
pub fn open_short_swap_reply(config: &Config, cache: &TmpCacheValues, data: &Vec<u8>) -> (r: Result<(String, String, String), ContractError>)
    requires
        cache.sender is Some,
    ensures
        match swap_in_token_out_amount(data@) {
            None => r == Err::<(String, String, String), ContractError>(ContractError::InvalidReplyData),
            Some(t) => r matches Ok((to, denom, amount))
                && to@ == cache.sender->0@
                && denom@ == config.base_asset.denom@
                && amount@ == t,
        },
{
    let amount = match decode_swap_in_token_out(data) {
        Some(a) => a,
        None => { return Err(ContractError::InvalidReplyData); },
    };
    let to = cache.sender.as_ref().unwrap().clone();
    Ok((to, config.base_asset.denom.clone(), amount))
}

/// The close-short follow-up read from the swap's answer: refused when the
/// bytes are not an exact-amount-out answer or its amount is not a number;
/// otherwise `close_short_reply` with the amount the swap took in.
pub open spec fn close_short_reply_from_data_result(
    state: State,
    config: Config,
    cache: TmpCacheValues,
    data: Seq<u8>,
    current_balance: u128,
    existing: Option<Vault>,
    now: Timestamp,
    prices: Prices,
) -> Result<(BurnOutcome, Option<(String, u128)>), ContractError> {
    match swap_out_token_in_amount(data) {
        None => Err(ContractError::InvalidReplyData),
        Some(t) => match amount_text_value(t) {
            None => Err(ContractError::InvalidAmount),
            Some(token_in_amount) => close_short_reply_result(
                state, config, cache, token_in_amount, current_balance, existing, now, prices,
            ),
        },
    }
}

/// After the swap of a close short, from the bytes the swap answered with:
/// decodes the amount of base it took in, then burns the power bought and
/// refunds the base it did not use (`close_short_reply`).
pub fn close_short_reply_from_data(
    state: &State,
    config: &Config,
    cache: &TmpCacheValues,
    data: &Vec<u8>,
    current_balance: u128,
    existing: &Option<Vault>,
    block_time: Timestamp,
    prices: &Prices,
) -> (r: Result<(BurnOutcome, Option<(String, u128)>), ContractError>)
    requires
        cache.sender is Some,
        cache.balance is Some,
        cache.balance->0 <= current_balance,
        cache.vault_id is Some && existing is Some ==> {
            &&& cache.amount_to_swap is Some
            &&& (existing->0.vault_type is Staked ==> config.stake_assets is Some)
            &&& (open_and_unpaused_result(*state) is Ok
                && must_pay_result(close_short_burn_funds(*config, *cache, current_balance), config.power_asset.denom) is Ok
                && state.last_funding_update.secs() != block_time.secs()
                ==> funding_defined(*state, block_time, prices.funding_quote, prices.funding_power))
        },
    ensures
        r == close_short_reply_from_data_result(*state, *config, *cache, data@, current_balance, *existing, block_time, *prices),
{
    let text = match decode_swap_out_token_in(data) {
        Some(t) => t,
        None => { return Err(ContractError::InvalidReplyData); },
    };
    let token_in_amount = match uint128_from_str(&text) {
        Some(a) => a,
        None => { return Err(ContractError::InvalidAmount); },
    };
    close_short_reply(state, config, cache, token_in_amount, current_balance, existing, block_time, prices)
}

/// After the swap of a flash liquidation, from the bytes the swap answered
/// with: the power bought is recorded as the amount to burn and sent on to
/// the liquidator. Gives the updated cache, the liquidator and the amount
/// text as the swap reported it.
pub fn flash_liquidate_swap_reply_from_data(cache: TmpCacheValues, data: &Vec<u8>) -> (r: Result<(TmpCacheValues, String, String), ContractError>)
    requires
        cache.sender is Some,
    ensures
        match swap_in_token_out_amount(data@) {
            None => r == Err::<(TmpCacheValues, String, String), ContractError>(ContractError::InvalidReplyData),
            Some(t) => match amount_text_value(t) {
                None => r == Err::<(TmpCacheValues, String, String), ContractError>(ContractError::InvalidAmount),
                Some(bought) => r matches Ok((c, to, amount))
                    && c == (TmpCacheValues { amount_to_burn: Some(bought), ..cache })
                    && to == cache.sender->0
                    && amount@ == t,
            },
        },
{
    let text = match decode_swap_in_token_out(data) {
        Some(t) => t,
        None => { return Err(ContractError::InvalidReplyData); },
    };
    let bought = match uint128_from_str(&text) {
        Some(a) => a,
        None => { return Err(ContractError::InvalidAmount); },
    };
    let (c, to) = flash_liquidate_swap_reply(cache, bought);
    Ok((c, to, text))
}

} // verus!
