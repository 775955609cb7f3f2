//! Two-step transfer of a contract's ownership: the owner proposes a new
//! owner for a limited time, and the proposed owner claims it.

use vstd::prelude::*;
use crate::error::ContractError;

verus! {

/// A pending transfer: the proposed owner and the second until which the
/// proposal may be claimed.
#[derive(Clone, Debug)]
pub struct OwnerProposal {
    pub owner: String,
    pub expiry: u64,
}

pub open spec fn proposal_result(sender_is_owner: bool, new_owner: String, duration: u64, now: u64) -> Result<OwnerProposal, ContractError> {
    if !sender_is_owner {
        Err(ContractError::Unauthorized)
    } else if now + duration > u64::MAX {
        Err(ContractError::Overflow)
    } else {
        Ok(OwnerProposal { owner: new_owner, expiry: (now + duration) as u64 })
    }
}

/// The owner proposes `new_owner`, who may claim for `duration` seconds
/// from `now`.
pub fn propose_owner(sender_is_owner: bool, new_owner: String, duration: u64, now: u64) -> (r: Result<OwnerProposal, ContractError>)
    ensures
        match proposal_result(sender_is_owner, new_owner, duration, now) {
            Ok(p) => r matches Ok(q) && q.owner == p.owner && q.expiry == p.expiry,
            Err(e) => r == Err::<OwnerProposal, ContractError>(e),
        },
{
    if !sender_is_owner {
        return Err(ContractError::Unauthorized);
    }
    match now.checked_add(duration) {
        Some(expiry) => Ok(OwnerProposal { owner: new_owner, expiry }),
        None => Err(ContractError::Overflow),
    }
}

/// The owner withdraws a pending proposal.
pub fn reject_owner(sender_is_owner: bool) -> (r: Result<(), ContractError>)
    ensures
        sender_is_owner ==> r == Ok::<(), ContractError>(()),
        !sender_is_owner ==> r == Err::<(), ContractError>(ContractError::Unauthorized),
{
    if !sender_is_owner {
        return Err(ContractError::Unauthorized);
    }
    Ok(())
}

pub open spec fn claim_result(proposal: Option<OwnerProposal>, sender: Seq<char>, now: u64) -> Result<String, ContractError> {
    match proposal {
        None => Err(ContractError::ProposalNotFound),
        Some(p) => if sender != p.owner@ {
            Err(ContractError::Unauthorized)
        } else if now > p.expiry {
            Err(ContractError::Expired)
        } else {
            Ok(p.owner)
        },
    }
}

/// The proposed owner claims ownership before the proposal expires; gives
/// the new owner.
pub fn claim_ownership(proposal: &Option<OwnerProposal>, sender: &String, now: u64) -> (r: Result<String, ContractError>)
    ensures
        r == claim_result(*proposal, sender@, now),
{
    match proposal {
        None => Err(ContractError::ProposalNotFound),
        Some(p) => {
            if !sender.eq(&p.owner) {
                return Err(ContractError::Unauthorized);
            }
            if now > p.expiry {
                return Err(ContractError::Expired);
            }
            Ok(p.owner.clone())
        },
    }
}

/// A proposal made by the owner can be claimed by the proposed owner, and
/// by nobody else, at any time up to its expiry, and by nobody after it.
pub proof fn law_propose_then_claim(new_owner: String, duration: u64, now: u64, sender: Seq<char>, later: u64)
    requires
        now + duration <= u64::MAX,
    ensures
        proposal_result(true, new_owner, duration, now) matches Ok(p) && {
            &&& (later <= now + duration && sender == new_owner@ ==> claim_result(Some(p), sender, later)
                == Ok::<String, ContractError>(new_owner))
            &&& (sender != new_owner@ ==> claim_result(Some(p), sender, later)
                == Err::<String, ContractError>(ContractError::Unauthorized))
            &&& (later > now + duration && sender == new_owner@ ==> claim_result(Some(p), sender, later)
                == Err::<String, ContractError>(ContractError::Expired))
        },
{
}

} // verus!
