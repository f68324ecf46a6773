//! End-to-end tests of the campaign state machine, driven through the
//! in-memory asset ledger.

use crowdfund::CampaignEvent;
use crowdfund::CrowdfundingContract;
use crowdfund::Error;
use crowdfund::InMemoryLedger;

const CONTRACT: u64 = 7;
const OWNER: u64 = 1;
const TOKEN: u64 = 2;
const ALICE: u64 = 3;
const BOB: u64 = 4;

/// A fresh instance plus a ledger where Alice and Bob each hold plenty.
fn setup() -> (CrowdfundingContract, InMemoryLedger) {
    let contract = CrowdfundingContract::new(CONTRACT);
    let mut ledger = InMemoryLedger::new();
    ledger.set_balance(ALICE, 10_000);
    ledger.set_balance(BOB, 10_000);
    (contract, ledger)
}

#[test]
fn test_initialize() {
    let mut contract = CrowdfundingContract::new(CONTRACT);
    let target_amount: i128 = 1_000_000_000;
    let now: u32 = 0;
    let deadline: u32 = now + 1000;

    let r = contract.initialize(OWNER, OWNER, TOKEN, target_amount, deadline, now);
    assert_eq!(r, Ok(()));

    let status = contract.get_status(now);
    assert_eq!(status.total_raised, 0);
    assert_eq!(status.target_amount, target_amount);
    assert_eq!(status.deadline, deadline);
    assert!(!status.target_reached);
    assert!(!status.deadline_passed);
    assert!(!status.is_finalized);
}

#[test]
fn test_double_initialize() {
    let mut contract = CrowdfundingContract::new(CONTRACT);
    let target_amount: i128 = 1_000_000_000;
    let now: u32 = 0;
    let deadline: u32 = now + 1000;

    let first = contract.initialize(OWNER, OWNER, TOKEN, target_amount, deadline, now);
    assert_eq!(first, Ok(()));
    // A second initialization must fail and change nothing.
    let second = contract.initialize(OWNER, OWNER, TOKEN, target_amount, deadline, now);
    assert_eq!(second, Err(Error::AlreadyInitialized));
    let status = contract.get_status(now);
    assert_eq!(status.target_amount, target_amount);
    assert_eq!(status.deadline, deadline);
    assert_eq!(status.total_raised, 0);
}

#[test]
fn test_get_deposit() {
    let mut contract = CrowdfundingContract::new(CONTRACT);
    let now: u32 = 0;
    contract
        .initialize(OWNER, OWNER, TOKEN, 1_000_000_000, now + 1000, now)
        .unwrap();

    // Check initial deposit is 0.
    let deposit = contract.get_deposit(ALICE);
    assert_eq!(deposit, 0);
}

#[test]
fn test_initialize_invalid_target() {
    let mut contract = CrowdfundingContract::new(CONTRACT);
    assert_eq!(
        contract.initialize(OWNER, OWNER, TOKEN, 0, 100, 0),
        Err(Error::InvalidTarget)
    );
    assert_eq!(
        contract.initialize(OWNER, OWNER, TOKEN, -5, 100, 0),
        Err(Error::InvalidTarget)
    );
}

#[test]
fn test_initialize_invalid_deadline() {
    let mut contract = CrowdfundingContract::new(CONTRACT);
    // The deadline must be strictly in the future.
    assert_eq!(
        contract.initialize(OWNER, OWNER, TOKEN, 1000, 50, 50),
        Err(Error::InvalidDeadline)
    );
    assert_eq!(
        contract.initialize(OWNER, OWNER, TOKEN, 1000, 49, 50),
        Err(Error::InvalidDeadline)
    );
}

#[test]
fn test_initialize_unauthorized() {
    let mut contract = CrowdfundingContract::new(CONTRACT);
    assert_eq!(
        contract.initialize(ALICE, OWNER, TOKEN, 1000, 100, 0),
        Err(Error::Unauthorized)
    );
}

#[test]
fn test_deposit_accumulates() {
    let (mut contract, mut ledger) = setup();
    contract.initialize(OWNER, OWNER, TOKEN, 1000, 100, 0).unwrap();

    assert_eq!(contract.deposit(&mut ledger, ALICE, ALICE, 100, 10), Ok(()));
    assert_eq!(contract.deposit(&mut ledger, ALICE, ALICE, 250, 20), Ok(()));
    assert_eq!(contract.get_deposit(ALICE), 350);

    assert_eq!(contract.deposit(&mut ledger, BOB, BOB, 50, 30), Ok(()));
    assert_eq!(contract.get_deposit(BOB), 50);

    // The raised total is the sum over all contributors.
    assert_eq!(contract.get_status(30).total_raised, 400);
    // The funds really moved into the contract's holding address.
    assert_eq!(ledger.balance_of(CONTRACT), 400);
    assert_eq!(ledger.balance_of(ALICE), 10_000 - 350);
}

#[test]
fn test_deposit_deadline() {
    let (mut contract, mut ledger) = setup();
    contract.initialize(OWNER, OWNER, TOKEN, 1000, 100, 0).unwrap();

    // Strictly before the deadline a positive deposit goes through.
    assert_eq!(contract.deposit(&mut ledger, ALICE, ALICE, 10, 99), Ok(()));
    // At or after the deadline it fails.
    assert_eq!(
        contract.deposit(&mut ledger, ALICE, ALICE, 10, 100),
        Err(Error::DeadlinePassed)
    );
    assert_eq!(
        contract.deposit(&mut ledger, ALICE, ALICE, 10, 200),
        Err(Error::DeadlinePassed)
    );
    assert_eq!(contract.get_deposit(ALICE), 10);
}

#[test]
fn test_deposit_invalid_amount() {
    let (mut contract, mut ledger) = setup();
    contract.initialize(OWNER, OWNER, TOKEN, 1000, 100, 0).unwrap();
    assert_eq!(
        contract.deposit(&mut ledger, ALICE, ALICE, 0, 10),
        Err(Error::InvalidAmount)
    );
    assert_eq!(
        contract.deposit(&mut ledger, ALICE, ALICE, -20, 10),
        Err(Error::InvalidAmount)
    );
}

#[test]
fn test_deposit_unauthorized() {
    let (mut contract, mut ledger) = setup();
    contract.initialize(OWNER, OWNER, TOKEN, 1000, 100, 0).unwrap();
    assert_eq!(
        contract.deposit(&mut ledger, BOB, ALICE, 100, 10),
        Err(Error::Unauthorized)
    );
}

#[test]
fn test_deposit_uninitialized() {
    let (mut contract, mut ledger) = setup();
    assert_eq!(
        contract.deposit(&mut ledger, ALICE, ALICE, 100, 10),
        Err(Error::Uninitialized)
    );
}

#[test]
fn test_deposit_transfer_failed() {
    let (mut contract, mut ledger) = setup();
    contract.initialize(OWNER, OWNER, TOKEN, 1000, 100, 0).unwrap();
    // Alice holds 10_000; a larger pledge is refused by the ledger and
    // the whole operation aborts with zero observable effect.
    assert_eq!(
        contract.deposit(&mut ledger, ALICE, ALICE, 20_000, 10),
        Err(Error::TransferFailed)
    );
    assert_eq!(contract.get_deposit(ALICE), 0);
    assert_eq!(contract.get_status(10).total_raised, 0);
    assert_eq!(ledger.balance_of(ALICE), 10_000);
    assert_eq!(ledger.balance_of(CONTRACT), 0);
}

#[test]
fn test_deposit_after_finalize() {
    let (mut contract, mut ledger) = setup();
    contract.initialize(OWNER, OWNER, TOKEN, 1000, 100, 0).unwrap();
    contract.deposit(&mut ledger, ALICE, ALICE, 1000, 10).unwrap();
    contract.withdraw(&mut ledger, OWNER, 150).unwrap();
    // The finalization check comes before the deadline check.
    assert_eq!(
        contract.deposit(&mut ledger, ALICE, ALICE, 100, 10),
        Err(Error::CampaignFinalized)
    );
}

#[test]
fn test_withdraw_before_deadline() {
    let (mut contract, mut ledger) = setup();
    contract.initialize(OWNER, OWNER, TOKEN, 1000, 100, 0).unwrap();
    // Even with the target already met, the deadline gates withdrawal.
    contract.deposit(&mut ledger, ALICE, ALICE, 5000, 10).unwrap();
    assert_eq!(
        contract.withdraw(&mut ledger, OWNER, 99),
        Err(Error::DeadlineNotReached)
    );
}

#[test]
fn test_withdraw_target_not_reached() {
    let (mut contract, mut ledger) = setup();
    contract.initialize(OWNER, OWNER, TOKEN, 1000, 100, 0).unwrap();
    contract.deposit(&mut ledger, ALICE, ALICE, 999, 10).unwrap();
    assert_eq!(
        contract.withdraw(&mut ledger, OWNER, 100),
        Err(Error::TargetNotReached)
    );
}

#[test]
fn test_withdraw_only_once() {
    let (mut contract, mut ledger) = setup();
    contract.initialize(OWNER, OWNER, TOKEN, 1000, 100, 0).unwrap();
    contract.deposit(&mut ledger, ALICE, ALICE, 1200, 10).unwrap();

    assert_eq!(contract.withdraw(&mut ledger, OWNER, 150), Ok(()));
    // The raised total is kept as the historical amount.
    let status = contract.get_status(150);
    assert_eq!(status.total_raised, 1200);
    assert!(status.is_finalized);
    // A second attempt fails and moves nothing further.
    assert_eq!(
        contract.withdraw(&mut ledger, OWNER, 200),
        Err(Error::AlreadyFinalized)
    );
    assert_eq!(ledger.balance_of(OWNER), 1200);
}

#[test]
fn test_withdraw_transfer_failed_then_retried() {
    let (mut contract, mut ledger) = setup();
    contract.initialize(OWNER, OWNER, TOKEN, 1000, 100, 0).unwrap();
    contract.deposit(&mut ledger, ALICE, ALICE, 1000, 10).unwrap();
    // Drain the contract's holding address behind the campaign's back:
    // the withdrawal transfer fails, nothing is finalized, and the
    // withdrawal stays available for a later attempt.
    ledger.set_balance(CONTRACT, 0);
    assert_eq!(
        contract.withdraw(&mut ledger, OWNER, 150),
        Err(Error::TransferFailed)
    );
    assert!(!contract.get_status(150).is_finalized);
    ledger.set_balance(CONTRACT, 1000);
    assert_eq!(contract.withdraw(&mut ledger, OWNER, 160), Ok(()));
    assert_eq!(ledger.balance_of(OWNER), 1000);
    assert!(contract.get_status(160).is_finalized);
}

#[test]
fn test_deposit_by_holding_address() {
    let (mut contract, mut ledger) = setup();
    contract.initialize(OWNER, OWNER, TOKEN, 1000, 100, 0).unwrap();
    // A pledge from the contract's own holding address moves no funds
    // but is recorded like any other.
    ledger.set_balance(CONTRACT, 100);
    assert_eq!(contract.deposit(&mut ledger, CONTRACT, CONTRACT, 60, 10), Ok(()));
    assert_eq!(contract.get_deposit(CONTRACT), 60);
    assert_eq!(contract.get_status(10).total_raised, 60);
    assert_eq!(ledger.balance_of(CONTRACT), 100);
}

#[test]
fn test_withdraw_unauthorized() {
    let (mut contract, mut ledger) = setup();
    contract.initialize(OWNER, OWNER, TOKEN, 1000, 100, 0).unwrap();
    assert_eq!(
        contract.withdraw(&mut ledger, ALICE, 150),
        Err(Error::Unauthorized)
    );
}

#[test]
fn test_withdraw_uninitialized() {
    let (mut contract, mut ledger) = setup();
    assert_eq!(
        contract.withdraw(&mut ledger, OWNER, 150),
        Err(Error::Uninitialized)
    );
}

#[test]
fn test_refund_campaign_succeeded() {
    let (mut contract, mut ledger) = setup();
    contract.initialize(OWNER, OWNER, TOKEN, 1000, 100, 0).unwrap();
    contract.deposit(&mut ledger, ALICE, ALICE, 1500, 10).unwrap();
    // Even after the deadline, a met target forbids refunds.
    assert_eq!(
        contract.refund(&mut ledger, ALICE, ALICE, 150),
        Err(Error::CampaignSucceeded)
    );
}

#[test]
fn test_refund_no_deposit() {
    let (mut contract, mut ledger) = setup();
    contract.initialize(OWNER, OWNER, TOKEN, 1000, 100, 0).unwrap();
    contract.deposit(&mut ledger, ALICE, ALICE, 300, 10).unwrap();
    // Bob never deposited.
    assert_eq!(
        contract.refund(&mut ledger, BOB, BOB, 150),
        Err(Error::NoDeposit)
    );
}

#[test]
fn test_refund_before_deadline() {
    let (mut contract, mut ledger) = setup();
    contract.initialize(OWNER, OWNER, TOKEN, 1000, 100, 0).unwrap();
    contract.deposit(&mut ledger, ALICE, ALICE, 300, 10).unwrap();
    assert_eq!(
        contract.refund(&mut ledger, ALICE, ALICE, 99),
        Err(Error::DeadlineNotReached)
    );
}

#[test]
fn test_refund_after_finalize() {
    let (mut contract, mut ledger) = setup();
    contract.initialize(OWNER, OWNER, TOKEN, 1000, 100, 0).unwrap();
    contract.deposit(&mut ledger, ALICE, ALICE, 1000, 10).unwrap();
    contract.withdraw(&mut ledger, OWNER, 150).unwrap();
    assert_eq!(
        contract.refund(&mut ledger, ALICE, ALICE, 150),
        Err(Error::CampaignFinalized)
    );
}

#[test]
fn test_refund_transfer_failed() {
    let (mut contract, mut ledger) = setup();
    contract.initialize(OWNER, OWNER, TOKEN, 1000, 100, 0).unwrap();
    contract.deposit(&mut ledger, ALICE, ALICE, 300, 10).unwrap();
    // Drain the contract's holding address behind the campaign's back:
    // the refund transfer then fails and the record is left untouched.
    ledger.set_balance(CONTRACT, 0);
    assert_eq!(
        contract.refund(&mut ledger, ALICE, ALICE, 150),
        Err(Error::TransferFailed)
    );
    assert_eq!(contract.get_deposit(ALICE), 300);
    assert_eq!(contract.get_status(150).total_raised, 300);
}

#[test]
fn test_scenario_successful_campaign() {
    let (mut contract, mut ledger) = setup();
    let start: u32 = 0;
    contract
        .initialize(OWNER, OWNER, TOKEN, 1000, start + 100, start)
        .unwrap();
    contract
        .deposit(&mut ledger, ALICE, ALICE, 600, start + 10)
        .unwrap();
    contract
        .deposit(&mut ledger, BOB, BOB, 500, start + 20)
        .unwrap();

    let mid = contract.get_status(start + 50);
    assert_eq!(mid.total_raised, 1100);
    assert!(mid.target_reached);
    assert!(!mid.deadline_passed);
    assert!(!mid.is_finalized);

    assert_eq!(contract.withdraw(&mut ledger, OWNER, start + 150), Ok(()));
    assert_eq!(ledger.balance_of(OWNER), 1100);
    assert_eq!(ledger.balance_of(CONTRACT), 0);
    assert!(contract.get_status(start + 150).is_finalized);
}

#[test]
fn test_scenario_failed_campaign() {
    let (mut contract, mut ledger) = setup();
    let start: u32 = 0;
    contract
        .initialize(OWNER, OWNER, TOKEN, 1000, start + 100, start)
        .unwrap();
    contract
        .deposit(&mut ledger, ALICE, ALICE, 300, start + 10)
        .unwrap();

    assert_eq!(
        contract.withdraw(&mut ledger, OWNER, start + 150),
        Err(Error::TargetNotReached)
    );
    assert_eq!(contract.refund(&mut ledger, ALICE, ALICE, start + 150), Ok(()));
    assert_eq!(ledger.balance_of(ALICE), 10_000);
    assert_eq!(contract.get_deposit(ALICE), 0);
    assert_eq!(contract.get_status(start + 150).total_raised, 0);
    // A refund is non-repeatable.
    assert_eq!(
        contract.refund(&mut ledger, ALICE, ALICE, start + 160),
        Err(Error::NoDeposit)
    );
}

#[test]
fn test_status_uninitialized() {
    // Reads before initialization report zero defaults rather than
    // failing; the derived flags then read as 0 >= 0 and now >= 0.
    let contract = CrowdfundingContract::new(CONTRACT);
    let status = contract.get_status(5);
    assert_eq!(status.total_raised, 0);
    assert_eq!(status.target_amount, 0);
    assert_eq!(status.deadline, 0);
    assert!(status.target_reached);
    assert!(status.deadline_passed);
    assert!(!status.is_finalized);
    assert_eq!(contract.get_deposit(ALICE), 0);
}

#[test]
fn test_events_emitted() {
    let (mut contract, mut ledger) = setup();
    contract.initialize(OWNER, OWNER, TOKEN, 1000, 100, 0).unwrap();
    contract.deposit(&mut ledger, ALICE, ALICE, 300, 10).unwrap();
    contract.deposit(&mut ledger, BOB, BOB, 200, 20).unwrap();
    contract.refund(&mut ledger, ALICE, ALICE, 150).unwrap();

    let events = contract.events();
    assert_eq!(events.len(), 3);
    assert_eq!(
        events[0],
        CampaignEvent::Deposit { contributor: ALICE, amount: 300, total_raised: 300 }
    );
    assert_eq!(
        events[1],
        CampaignEvent::Deposit { contributor: BOB, amount: 200, total_raised: 500 }
    );
    assert_eq!(events[2], CampaignEvent::Refund { contributor: ALICE, amount: 300 });
}

#[test]
fn test_withdraw_event() {
    let (mut contract, mut ledger) = setup();
    contract.initialize(OWNER, OWNER, TOKEN, 1000, 100, 0).unwrap();
    contract.deposit(&mut ledger, ALICE, ALICE, 1100, 10).unwrap();
    contract.withdraw(&mut ledger, OWNER, 150).unwrap();
    let events = contract.events();
    assert_eq!(events.len(), 2);
    assert_eq!(events[1], CampaignEvent::Withdraw { owner: OWNER, amount: 1100 });
}
