//! The protocol's run state: whether it is open, whether it is paused, and
//! the funding bookkeeping; and the owner's actions on it.

use vstd::prelude::*;
use crate::error::ContractError;
use crate::math::{Decimal, Timestamp};

verus! {

/// One week in seconds: how long anyone but the owner waits after a pause
/// before unpausing.
pub const WEEK_IN_SECONDS: u64 = 604_800u64;

/// The run state.
#[derive(Clone, Copy, Debug, PartialEq, Eq, Structural)]
pub struct State {
    pub is_open: bool,
    pub is_paused: bool,
    pub last_pause: Timestamp,
    pub normalisation_factor: Decimal,
    pub last_funding_update: Timestamp,
}

pub open spec fn open_and_unpaused_result(s: State) -> Result<(), ContractError> {
    if !s.is_open {
        Err(ContractError::NotOpenForAction)
    } else if s.is_paused {
        Err(ContractError::PausedForAction)
    } else {
        Ok(())
    }
}

pub open spec fn paused_result(s: State) -> Result<(), ContractError> {
    if !s.is_open {
        Err(ContractError::NotOpenForAction)
    } else if !s.is_paused {
        Err(ContractError::UnpausedForAction)
    } else {
        Ok(())
    }
}

impl State {
    /// The state of a freshly instantiated protocol: closed, paused, with a
    /// normalisation factor of one.
    pub fn initial(block_time: Timestamp) -> (r: State)
        ensures
            !r.is_open,
            r.is_paused,
            r.last_pause == block_time,
            r.normalisation_factor.atomics == crate::math::one_atomics(),
            r.last_funding_update == block_time,
    {
        State {
            is_open: false,
            is_paused: true,
            last_pause: block_time,
            normalisation_factor: Decimal::one(),
            last_funding_update: block_time,
        }
    }

    /// Succeeds when user actions are allowed: the protocol is open and not paused.
    pub fn is_open_and_unpaused(&self) -> (r: Result<(), ContractError>)
        ensures
            r == open_and_unpaused_result(*self),
    {
        if !self.is_open {
            return Err(ContractError::NotOpenForAction);
        }
        if self.is_paused {
            return Err(ContractError::PausedForAction);
        }
        Ok(())
    }

    /// Succeeds when the protocol is open and paused.
    pub fn is_paused(&self) -> (r: Result<(), ContractError>)
        ensures
            r == paused_result(*self),
    {
        if !self.is_open {
            return Err(ContractError::NotOpenForAction);
        }
        if !self.is_paused {
            return Err(ContractError::UnpausedForAction);
        }
        Ok(())
    }
}

pub open spec fn open_contract_result(
    s: State,
    sender_is_owner: bool,
    denom_admin: Seq<char>,
    contract_address: Seq<char>,
    block_time: Timestamp,
) -> Result<State, ContractError> {
    if !sender_is_owner {
        Err(ContractError::Unauthorized)
    } else if s.is_open {
        Err(ContractError::IsOpen)
    } else if denom_admin != contract_address {
        Err(ContractError::NotTokenAdmin)
    } else {
        Ok(State {
            is_open: true,
            is_paused: false,
            last_funding_update: block_time,
            last_pause: block_time,
            ..s
        })
    }
}

/// Opens the protocol: only the owner may, only once, and only when this
/// contract administers the power token (`denom_admin` is the power denom's
/// admin). Starts funding and clears the pause at `block_time`.
pub fn open_contract(
    state: &State,
    sender_is_owner: bool,
    denom_admin: &String,
    contract_address: &String,
    block_time: Timestamp,
) -> (r: Result<State, ContractError>)
    ensures
        r == open_contract_result(*state, sender_is_owner, denom_admin@, contract_address@, block_time),
{
    if !sender_is_owner {
        return Err(ContractError::Unauthorized);
    }
    if state.is_open {
        return Err(ContractError::IsOpen);
    }
    if !denom_admin.eq(contract_address) {
        return Err(ContractError::NotTokenAdmin);
    }
    Ok(State {
        is_open: true,
        is_paused: false,
        last_pause: block_time,
        normalisation_factor: state.normalisation_factor,
        last_funding_update: block_time,
    })
}

pub open spec fn pause_result(s: State, sender_is_owner: bool, block_time: Timestamp) -> Result<State, ContractError> {
    if !sender_is_owner {
        Err(ContractError::Unauthorized)
    } else if !s.is_open {
        Err(ContractError::NotOpenForAction)
    } else if s.is_paused {
        Err(ContractError::PausedForAction)
    } else {
        Ok(State { is_paused: true, last_pause: block_time, ..s })
    }
}

/// Pauses the protocol: only the owner may, and only while it is open and
/// unpaused. Records the pause time.
pub fn pause(state: &State, sender_is_owner: bool, block_time: Timestamp) -> (r: Result<State, ContractError>)
    ensures
        r == pause_result(*state, sender_is_owner, block_time),
{
    if !sender_is_owner {
        return Err(ContractError::Unauthorized);
    }
    match state.is_open_and_unpaused() {
        Err(e) => { return Err(e); },
        Ok(()) => {},
    }
    Ok(State { is_paused: true, last_pause: block_time, ..*state })
}

/// The earliest second at which the sender may unpause.
pub open spec fn unpause_time(s: State, sender_is_owner: bool) -> int {
    if sender_is_owner {
        s.last_pause.secs()
    } else {
        s.last_pause.secs() + WEEK_IN_SECONDS
    }
}

pub open spec fn unpause_result(s: State, sender_is_owner: bool, block_time: Timestamp) -> Result<State, ContractError> {
    if !s.is_open {
        Err(ContractError::NotOpen)
    } else if block_time.secs() < unpause_time(s, sender_is_owner) {
        Err(ContractError::NotExpired)
    } else {
        Ok(State { is_paused: false, ..s })
    }
}

/// Unpauses an open protocol: the owner at any time after the pause, anyone
/// else once a week has passed since it.
pub fn unpause(state: &State, sender_is_owner: bool, block_time: Timestamp) -> (r: Result<State, ContractError>)
    ensures
        r == unpause_result(*state, sender_is_owner, block_time),
{
    if !state.is_open {
        return Err(ContractError::NotOpen);
    }
    let last = state.last_pause.seconds();
    let now = block_time.seconds();
    let too_early = if sender_is_owner {
        now < last
    } else {
        (now as u128) < (last as u128) + (WEEK_IN_SECONDS as u128)
    };
    if too_early {
        return Err(ContractError::NotExpired);
    }
    Ok(State { is_paused: false, ..*state })
}

/// Pausing blocks every user action, and the owner's unpause at or after the
/// pause time allows them again, with the pause time recorded.
pub proof fn law_pause_then_owner_unpause(s: State, t1: Timestamp, t2: Timestamp)
    requires
        s.is_open,
        !s.is_paused,
        t1.secs() <= t2.secs(),
    ensures
        pause_result(s, true, t1) matches Ok(p) && {
            &&& open_and_unpaused_result(p) is Err
            &&& unpause_result(p, true, t2) matches Ok(u) && {
                &&& open_and_unpaused_result(u) is Ok
                &&& u == State { last_pause: t1, ..s }
            }
        },
{
}

/// Anyone but the owner can unpause exactly when a week has passed since
/// the pause.
pub proof fn law_public_unpause_waits_a_week(s: State, t: Timestamp)
    requires
        s.is_open,
    ensures
        unpause_result(s, false, t) is Ok <==> t.secs() >= s.last_pause.secs() + WEEK_IN_SECONDS,
{
}

/// Opening succeeds at most once: an opened protocol refuses to open again.
pub proof fn law_open_once(s: State, admin: Seq<char>, addr: Seq<char>, t1: Timestamp, t2: Timestamp)
    ensures
        open_contract_result(s, true, admin, addr, t1) matches Ok(o)
            ==> open_contract_result(o, true, admin, addr, t2) == Err::<State, ContractError>(ContractError::IsOpen),
{
}

} // verus!
