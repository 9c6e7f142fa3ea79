use grant_ledger::errors::LedgerError;
use grant_ledger::ledger::Contract;
use grant_ledger::transfer::Party;
use grant_ledger::transfer::TransferRequest;

#[test]
fn test_initialization() {
    let mut ledger = Contract::new();
    let admin: u64 = 17;
    let token_id: u64 = 23;

    assert_eq!(ledger.initialize(admin, token_id), Ok(()));

    let stored_admin = ledger.admin().unwrap();
    assert_eq!(stored_admin, admin);

    let stored_token = ledger.reward_asset().unwrap();
    assert_eq!(stored_token, token_id);
}

#[test]
fn test_claim_without_being_eligible() {
    let mut ledger = Contract::new();
    let admin: u64 = 17;
    let token_id: u64 = 23;
    assert_eq!(ledger.initialize(admin, token_id), Ok(()));

    let user: u64 = 40;

    // The admin never registered this user: the claim must fail.
    assert_eq!(ledger.claim_schoolarship(user, user), Err(LedgerError::NotEligible));
    assert_eq!(ledger.eligible_amount(user), None);
}

#[test]
fn test_second_initialization_rejected() {
    let mut ledger = Contract::new();
    assert_eq!(ledger.initialize(1, 2), Ok(()));
    assert_eq!(ledger.initialize(8, 9), Err(LedgerError::AlreadyInitialized));

    // The registry of the first call is untouched.
    assert_eq!(ledger.admin(), Some(1));
    assert_eq!(ledger.reward_asset(), Some(2));
}

#[test]
fn test_set_eligible_requires_admin() {
    let mut ledger = Contract::new();
    assert_eq!(ledger.initialize(1, 2), Ok(()));

    // A non-admin caller is turned away and the table stays empty.
    assert_eq!(ledger.set_eligible(5, 6, 100), Err(LedgerError::Unauthorized));
    assert_eq!(ledger.eligible_amount(6), None);
    assert_eq!(ledger.eligible_count(), 0);

    // The admin succeeds.
    assert_eq!(ledger.set_eligible(1, 6, 100), Ok(()));
    assert_eq!(ledger.eligible_amount(6), Some(100));
    assert_eq!(ledger.eligible_count(), 1);
}

#[test]
fn test_fund_leaves_eligibility_untouched() {
    let mut ledger = Contract::new();
    assert_eq!(ledger.initialize(1, 2), Ok(()));
    assert_eq!(ledger.set_eligible(1, 6, 100), Ok(()));

    let funder: u64 = 3;
    let request = ledger.fund(funder, funder, 1000).unwrap();
    assert_eq!(
        request,
        TransferRequest {
            asset: 2,
            from: Party::Account(funder),
            to: Party::Custody,
            amount: 1000,
        }
    );

    // Funding granted nobody anything: the table is exactly as before.
    assert_eq!(ledger.eligible_count(), 1);
    assert_eq!(ledger.eligible_amount(6), Some(100));
    assert_eq!(ledger.eligible_amount(funder), None);
}

#[test]
fn test_re_eligibility_overwrite() {
    let mut ledger = Contract::new();
    assert_eq!(ledger.initialize(1, 2), Ok(()));

    assert_eq!(ledger.set_eligible(1, 6, 200), Ok(()));
    assert_eq!(ledger.set_eligible(1, 6, 350), Ok(()));

    // One entry, valued at the second amount: 200 was discarded, not summed.
    assert_eq!(ledger.eligible_count(), 1);
    assert_eq!(ledger.eligible_amount(6), Some(350));
}

#[test]
fn test_scenario_full_disbursement() {
    let mut ledger = Contract::new();
    let admin: u64 = 1;
    let token: u64 = 9;
    let funder: u64 = 3;
    let user: u64 = 4;

    assert_eq!(ledger.initialize(admin, token), Ok(()));

    let fund_request = ledger.fund(funder, funder, 1000).unwrap();
    assert_eq!(
        fund_request,
        TransferRequest { asset: token, from: Party::Account(funder), to: Party::Custody, amount: 1000 }
    );

    assert_eq!(ledger.set_eligible(admin, user, 200), Ok(()));

    let payout = ledger.claim_schoolarship(user, user).unwrap();
    assert_eq!(
        payout,
        TransferRequest { asset: token, from: Party::Custody, to: Party::Account(user), amount: 200 }
    );
    assert_eq!(ledger.settle_claim(user, payout.amount, true), Ok(()));

    // The entry is consumed: a second claim fails.
    assert_eq!(ledger.eligible_amount(user), None);
    assert_eq!(ledger.claim_schoolarship(user, user), Err(LedgerError::NotEligible));
}

#[test]
fn test_operations_before_initialization() {
    let mut ledger = Contract::new();
    assert!(!ledger.is_initialized());

    assert_eq!(ledger.fund(3, 3, 50), Err(LedgerError::NotInitialized));
    assert_eq!(ledger.set_eligible(1, 6, 100), Err(LedgerError::NotInitialized));
    assert_eq!(ledger.claim_schoolarship(6, 6), Err(LedgerError::NotInitialized));
}

#[test]
fn test_unauthorized_callers() {
    let mut ledger = Contract::new();
    assert_eq!(ledger.initialize(1, 2), Ok(()));

    // A funder must authorize its own funding call.
    assert_eq!(ledger.fund(5, 6, 50), Err(LedgerError::Unauthorized));

    // A claim must be authenticated by the beneficiary itself.
    assert_eq!(ledger.set_eligible(1, 6, 100), Ok(()));
    assert_eq!(ledger.claim_schoolarship(5, 6), Err(LedgerError::Unauthorized));
    assert_eq!(ledger.eligible_amount(6), Some(100));
}

#[test]
fn test_failed_payout_rolls_claim_back() {
    let mut ledger = Contract::new();
    assert_eq!(ledger.initialize(1, 2), Ok(()));
    assert_eq!(ledger.set_eligible(1, 6, 100), Ok(()));

    let payout = ledger.claim_schoolarship(6, 6).unwrap();
    assert_eq!(payout.amount, 100);
    assert_eq!(ledger.eligible_amount(6), None);

    // The host reports the payout failed: the whole claim rolls back.
    assert_eq!(ledger.settle_claim(6, payout.amount, false), Err(LedgerError::TransferFailed));
    assert_eq!(ledger.eligible_amount(6), Some(100));

    // The restored entitlement can be claimed again, this time for good.
    let retried = ledger.claim_schoolarship(6, 6).unwrap();
    assert_eq!(retried.amount, 100);
    assert_eq!(ledger.settle_claim(6, retried.amount, true), Ok(()));
    assert_eq!(ledger.eligible_amount(6), None);
}

#[test]
fn test_hello() {
    let greeting = Contract::hello(String::from("World"));
    assert_eq!(greeting, vec![String::from("Hello"), String::from("World")]);
}
