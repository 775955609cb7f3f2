//! The fee collector: the list of token denoms it may pay out (at most
//! three, none repeated) and who may send them.

use vstd::prelude::*;
use crate::error::ContractError;

verus! {

/// The largest number of tokens the collector supports.
pub const TOKEN_LIMIT: usize = 3usize;

/// Tokens listed per page when no limit is given.
pub const DEFAULT_PAGINATION_LIMIT: u32 = 10u32;

/// The most tokens listed per page.
pub const MAX_PAGINATION_LIMIT: u32 = 3u32;

/// Whether a denom is in the list.
pub open spec fn lists(l: Seq<String>, denom: Seq<char>) -> bool {
    exists|i: int| 0 <= i < l.len() && #[trigger] l[i]@ == denom
}

/// A well-formed token list: at most `TOKEN_LIMIT` denoms, none repeated.
pub open spec fn token_list_wf(l: Seq<String>) -> bool {
    &&& l.len() <= TOKEN_LIMIT
    &&& forall|i: int, j: int| 0 <= i < l.len() && 0 <= j < l.len() && i != j ==> #[trigger] l[i]@ != #[trigger] l[j]@
}

/// The stored list, or the empty list when none was ever stored.
pub open spec fn stored(list: Option<Vec<String>>) -> Seq<String> {
    match list {
        Some(l) => l@,
        None => Seq::empty(),
    }
}

/// Finds the position of a denom in the list.
pub fn position_of(list: &Vec<String>, denom: &String) -> (r: Option<usize>)
    ensures
        r matches Some(i) ==> i < list@.len() && list@[i as int]@ == denom@
            && forall|k: int| 0 <= k < i ==> list@[k]@ != denom@,
        r is None ==> !lists(list@, denom@),
{
    let n = list.len();
    let mut i: usize = 0;
    while i < n
        invariant
            n == list@.len(),
            i <= n,
            forall|k: int| 0 <= k < i ==> list@[k]@ != denom@,
        decreases n - i,
    {
        if list[i].eq(denom) {
            return Some(i);
        }
        i = i + 1;
    }
    None
}

pub open spec fn save_token_result(list: Seq<String>, denom: String) -> Result<Seq<String>, ContractError> {
    if lists(list, denom@) {
        Err(ContractError::TokenAlreadyAdded)
    } else if list.len() >= TOKEN_LIMIT {
        Err(ContractError::TokenCapacityReached)
    } else {
        Ok(list.push(denom))
    }
}

/// Adds a denom to the stored list (`list` is what is stored, if anything):
/// refused when already listed or when the list is full.
pub fn save_token(list: Option<Vec<String>>, denom: String) -> (r: Result<Vec<String>, ContractError>)
    ensures
        match save_token_result(stored(list), denom) {
            Ok(l) => r matches Ok(v) && v@ == l,
            Err(e) => r == Err::<Vec<String>, ContractError>(e),
        },
{
    let mut token_list = match list {
        None => Vec::new(),
        Some(l) => l,
    };
    if position_of(&token_list, &denom).is_some() {
        return Err(ContractError::TokenAlreadyAdded);
    }
    if token_list.len() >= TOKEN_LIMIT {
        return Err(ContractError::TokenCapacityReached);
    }
    token_list.push(denom);
    Ok(token_list)
}

/// The first `limit` listed denoms.
pub fn read_token_list(list: &Option<Vec<String>>, limit: usize) -> (r: Vec<String>)
    ensures
        r@ == stored(*list).take(if limit < stored(*list).len() { limit as int } else { stored(*list).len() as int }),
{
    match list {
        None => Vec::new(),
        Some(l) => {
            let take = if limit < l.len() { limit } else { l.len() };
            let mut out: Vec<String> = Vec::new();
            let mut i: usize = 0;
            while i < take
                invariant
                    take <= l@.len(),
                    i <= take,
                    out@ == l@.take(i as int),
                decreases take - i,
            {
                out.push(l[i].clone());
                proof {
                    assert(l@.take((i + 1) as int) == l@.take(i as int).push(l@[i as int]));
                }
                i = i + 1;
            }
            out
        },
    }
}

/// Whether a denom is listed.
pub fn is_token(list: &Option<Vec<String>>, token: &String) -> (r: bool)
    ensures
        r == lists(stored(*list), token@),
{
    match list {
        None => false,
        Some(l) => position_of(l, token).is_some(),
    }
}

pub open spec fn remove_token_result(list: Option<Seq<String>>, denom: Seq<char>) -> Result<Seq<String>, ContractError> {
    match list {
        None => Err(ContractError::NoTokensStored),
        Some(l) => if !lists(l, denom) {
            Err(ContractError::TokenNotAdded)
        } else {
            let i = choose|i: int| 0 <= i < l.len() && l[i]@ == denom && forall|k: int| 0 <= k < i ==> l[k]@ != denom;
            Ok(l.update(i, l.last()).drop_last())
        },
    }
}

pub open spec fn stored_opt(list: Option<Vec<String>>) -> Option<Seq<String>> {
    match list {
        Some(l) => Some(l@),
        None => None,
    }
}

/// Removes a denom from the stored list, moving the last denom into its
/// place: refused when nothing is stored or the denom is not listed.
pub fn remove_token(list: Option<Vec<String>>, denom: &String) -> (r: Result<Vec<String>, ContractError>)
    ensures
        match remove_token_result(stored_opt(list), denom@) {
            Ok(l) => r matches Ok(v) && v@ == l,
            Err(e) => r == Err::<Vec<String>, ContractError>(e),
        },
{
    let mut token_list = match list {
        None => { return Err(ContractError::NoTokensStored); },
        Some(l) => l,
    };
    let index = match position_of(&token_list, denom) {
        None => { return Err(ContractError::TokenNotAdded); },
        Some(i) => i,
    };
    proof {
        let l = token_list@;
        let c = choose|i: int| 0 <= i < l.len() && l[i]@ == denom@ && forall|k: int| 0 <= k < i ==> l[k]@ != denom@;
        assert(0 <= c < l.len() && l[c]@ == denom@ && forall|k: int| 0 <= k < c ==> l[k]@ != denom@);
        if c < index as int {
            assert(l[c]@ != denom@);
        } else if c > index as int {
            assert(l[index as int]@ != denom@);
        }
        assert(c == index as int);
    }
    token_list.swap_remove(index);
    Ok(token_list)
}

/// The page size for listing tokens: the limit asked for (10 by default),
/// at most three.
pub fn token_page_limit(limit: Option<u32>) -> (r: usize)
    ensures
        r == (match limit {
            Some(l) => if l < MAX_PAGINATION_LIMIT { l } else { MAX_PAGINATION_LIMIT },
            None => MAX_PAGINATION_LIMIT,
        }),
{
    let l = match limit {
        Some(l) => l,
        None => DEFAULT_PAGINATION_LIMIT,
    };
    if l < MAX_PAGINATION_LIMIT { l as usize } else { MAX_PAGINATION_LIMIT as usize }
}

/// The number of listed tokens, counted up to the capacity.
pub fn token_list_length(list: &Option<Vec<String>>) -> (r: usize)
    ensures
        r == (if stored(*list).len() < TOKEN_LIMIT { stored(*list).len() as int } else { TOKEN_LIMIT as int }),
{
    read_token_list(list, TOKEN_LIMIT).len()
}

pub open spec fn add_token_result(sender_is_owner: bool, denom_known: bool, list: Seq<String>, token: String) -> Result<Seq<String>, ContractError> {
    if !sender_is_owner {
        Err(ContractError::Unauthorized)
    } else if !denom_known {
        Err(ContractError::InvalidDenom(token))
    } else {
        save_token_result(list, token)
    }
}

/// Lists a new token: only the owner may, and only a denom the chain knows
/// (`denom_known`: its metadata exists).
pub fn add_token(sender_is_owner: bool, denom_known: bool, list: Option<Vec<String>>, token: String) -> (r: Result<Vec<String>, ContractError>)
    ensures
        match add_token_result(sender_is_owner, denom_known, stored(list), token) {
            Ok(l) => r matches Ok(v) && v@ == l,
            Err(e) => r == Err::<Vec<String>, ContractError>(e),
        },
{
    if !sender_is_owner {
        return Err(ContractError::Unauthorized);
    }
    if !denom_known {
        return Err(ContractError::InvalidDenom(token));
    }
    save_token(list, token)
}

/// Delists a token: only the owner may.
pub fn remove_listed_token(sender_is_owner: bool, list: Option<Vec<String>>, token: &String) -> (r: Result<Vec<String>, ContractError>)
    ensures
        !sender_is_owner ==> r == Err::<Vec<String>, ContractError>(ContractError::Unauthorized),
        sender_is_owner ==> match remove_token_result(stored_opt(list), token@) {
            Ok(l) => r matches Ok(v) && v@ == l,
            Err(e) => r == Err::<Vec<String>, ContractError>(e),
        },
{
    if !sender_is_owner {
        return Err(ContractError::Unauthorized);
    }
    remove_token(list, token)
}

/// Replaces the whitelisted sender: only the owner may.
pub fn update_whitelist(sender_is_owner: bool, address: String) -> (r: Result<String, ContractError>)
    ensures
        sender_is_owner ==> r == Ok::<String, ContractError>(address),
        !sender_is_owner ==> r == Err::<String, ContractError>(ContractError::Unauthorized),
{
    if !sender_is_owner {
        return Err(ContractError::Unauthorized);
    }
    Ok(address)
}

pub open spec fn send_token_result(
    amount: u128,
    sender_is_owner: bool,
    sender: Seq<char>,
    whitelist: Seq<char>,
    recipient_valid: bool,
    list: Seq<String>,
    token: String,
    balance: u128,
) -> Result<(), ContractError> {
    if amount == 0 {
        Err(ContractError::ZeroTransfer)
    } else if !sender_is_owner && sender != whitelist {
        Err(ContractError::Unauthorized)
    } else if !recipient_valid {
        Err(ContractError::InvalidAddress)
    } else if !lists(list, token@) {
        Err(ContractError::TokenUnsupported(token))
    } else if balance < amount {
        Err(ContractError::InsufficientBalance)
    } else {
        Ok(())
    }
}

/// Decides whether the collector pays `amount` of `token`: a non-zero
/// amount, asked by the owner or the whitelisted address, to a valid
/// recipient address (`recipient_valid`), of a listed token the collector
/// holds enough of (`balance`).
pub fn send_token(
    amount: u128,
    sender_is_owner: bool,
    sender: &String,
    whitelist: &String,
    recipient_valid: bool,
    list: &Option<Vec<String>>,
    token: &String,
    balance: u128,
) -> (r: Result<(), ContractError>)
    ensures
        r == send_token_result(amount, sender_is_owner, sender@, whitelist@, recipient_valid, stored(*list), *token, balance),
{
    if amount == 0 {
        return Err(ContractError::ZeroTransfer);
    }
    if !sender_is_owner && !sender.eq(whitelist) {
        return Err(ContractError::Unauthorized);
    }
    if !recipient_valid {
        return Err(ContractError::InvalidAddress);
    }
    if !is_token(list, token) {
        return Err(ContractError::TokenUnsupported(token.clone()));
    }
    if balance < amount {
        return Err(ContractError::InsufficientBalance);
    }
    Ok(())
}

/// Saving keeps the list well formed and makes the token listed.
pub proof fn law_save_keeps_list_wf(list: Seq<String>, denom: String)
    requires
        token_list_wf(list),
    ensures
        save_token_result(list, denom) matches Ok(l) ==> token_list_wf(l) && lists(l, denom@),
{
    if save_token_result(list, denom) is Ok {
        let l = list.push(denom);
        assert(l[list.len() as int]@ == denom@);
        assert forall|i: int, j: int| 0 <= i < l.len() && 0 <= j < l.len() && i != j implies #[trigger] l[i]@ != #[trigger] l[j]@ by {
            if i == list.len() as int {
                assert(list[j]@ != denom@);
            } else if j == list.len() as int {
                assert(list[i]@ != denom@);
            } else {
                assert(l[i] == list[i] && l[j] == list[j]);
            }
        }
    }
}

/// Removing keeps the list well formed, delists exactly the removed token
/// and keeps every other one.
pub proof fn law_remove_keeps_list_wf(list: Seq<String>, denom: Seq<char>)
    requires
        token_list_wf(list),
    ensures
        remove_token_result(Some(list), denom) matches Ok(l) ==> {
            &&& token_list_wf(l)
            &&& !lists(l, denom)
            &&& forall|d: Seq<char>| d != denom ==> (lists(l, d) <==> lists(list, d))
        },
{
    if remove_token_result(Some(list), denom) is Ok {
        let i = choose|i: int| 0 <= i < list.len() && list[i]@ == denom && forall|k: int| 0 <= k < i ==> list[k]@ != denom;
        let n = list.len() as int;
        let l = list.update(i, list.last()).drop_last();
        assert(l.len() == n - 1);
        assert forall|a: int, b: int| 0 <= a < l.len() && 0 <= b < l.len() && a != b implies #[trigger] l[a]@ != #[trigger] l[b]@ by {
            let a2 = if a == i { n - 1 } else { a };
            let b2 = if b == i { n - 1 } else { b };
            assert(l[a] == list[a2]);
            assert(l[b] == list[b2]);
        }
        assert(!lists(l, denom)) by {
            if lists(l, denom) {
                let a = choose|a: int| 0 <= a < l.len() && #[trigger] l[a]@ == denom;
                let a2 = if a == i { n - 1 } else { a };
                assert(l[a] == list[a2]);
                assert(list[a2]@ == list[i]@);
            }
        }
        assert forall|d: Seq<char>| d != denom implies (lists(l, d) <==> lists(list, d)) by {
            if lists(l, d) {
                let a = choose|a: int| 0 <= a < l.len() && #[trigger] l[a]@ == d;
                let a2 = if a == i { n - 1 } else { a };
                assert(l[a] == list[a2]);
                assert(list[a2]@ == d);
            }
            if lists(list, d) {
                let a = choose|a: int| 0 <= a < list.len() && #[trigger] list[a]@ == d;
                assert(a != i);
                if a == n - 1 {
                    assert(l[i] == list[n - 1]);
                    assert(l[i]@ == d);
                } else {
                    assert(l[a] == list[a]);
                    assert(l[a]@ == d);
                }
            }
        }
    }
}

} // verus!
