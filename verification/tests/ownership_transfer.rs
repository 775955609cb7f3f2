use margined_power::error::ContractError;
use margined_power::ownership::{claim_ownership, propose_owner, reject_owner};

const DURATION: u64 = 1_000;
const NOW: u64 = 1_700_000_000;

#[test]
fn ownership_changes_hands_in_two_steps() {
    let trader = "trader".to_string();
    let signer = "signer".to_string();
    // claim before any proposal
    assert_eq!(claim_ownership(&None, &signer, NOW), Err(ContractError::ProposalNotFound));
    // only the owner proposes
    assert_eq!(propose_owner(false, trader.clone(), DURATION, NOW).unwrap_err(), ContractError::Unauthorized);
    let proposal = propose_owner(true, trader.clone(), DURATION, NOW).unwrap();
    assert_eq!((proposal.owner.as_str(), proposal.expiry), ("trader", NOW + DURATION));
    let pending = Some(proposal);
    // nobody but the proposed owner claims
    assert_eq!(claim_ownership(&pending, &signer, NOW + 1), Err(ContractError::Unauthorized));
    // after the expiry the claim fails
    assert_eq!(claim_ownership(&pending, &trader, NOW + DURATION + 1), Err(ContractError::Expired));
    // up to the expiry it succeeds
    assert_eq!(claim_ownership(&pending, &trader, NOW + DURATION), Ok(trader.clone()));
}

#[test]
fn only_the_owner_rejects_a_proposal() {
    assert_eq!(reject_owner(false), Err(ContractError::Unauthorized));
    assert_eq!(reject_owner(true), Ok(()));
}

#[test]
fn proposal_expiry_out_of_range() {
    assert_eq!(propose_owner(true, "t".to_string(), u64::MAX, NOW).unwrap_err(), ContractError::Overflow);
}
