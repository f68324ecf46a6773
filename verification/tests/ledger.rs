//! Tests of the in-memory asset ledger on its own.

use crowdfund::InMemoryLedger;
use crowdfund::TokenLedger;
use crowdfund::TransferError;

#[test]
fn test_ledger_starts_empty() {
    let ledger = InMemoryLedger::new();
    assert_eq!(ledger.balance_of(1), 0);
}

#[test]
fn test_ledger_set_balance_overwrites() {
    let mut ledger = InMemoryLedger::new();
    ledger.set_balance(1, 500);
    assert_eq!(ledger.balance_of(1), 500);
    ledger.set_balance(1, 70);
    assert_eq!(ledger.balance_of(1), 70);
}

#[test]
fn test_ledger_transfer_moves_funds() {
    let mut ledger = InMemoryLedger::new();
    ledger.set_balance(1, 500);
    assert_eq!(ledger.transfer(1, 2, 200), Ok(()));
    assert_eq!(ledger.balance_of(1), 300);
    assert_eq!(ledger.balance_of(2), 200);
}

#[test]
fn test_ledger_transfer_insufficient() {
    let mut ledger = InMemoryLedger::new();
    ledger.set_balance(1, 100);
    assert_eq!(ledger.transfer(1, 2, 101), Err(TransferError));
    assert_eq!(ledger.balance_of(1), 100);
    assert_eq!(ledger.balance_of(2), 0);
}

#[test]
fn test_ledger_transfer_needs_positive_amount() {
    let mut ledger = InMemoryLedger::new();
    ledger.set_balance(1, 100);
    assert_eq!(ledger.transfer(1, 2, 0), Err(TransferError));
    assert_eq!(ledger.transfer(1, 2, -5), Err(TransferError));
}

#[test]
fn test_ledger_self_transfer() {
    let mut ledger = InMemoryLedger::new();
    ledger.set_balance(1, 100);
    assert_eq!(ledger.transfer(1, 1, 60), Ok(()));
    assert_eq!(ledger.balance_of(1), 100);
    assert_eq!(ledger.transfer(1, 1, 101), Err(TransferError));
}

#[test]
fn test_ledger_transfer_overflow_guard() {
    let mut ledger = InMemoryLedger::new();
    ledger.set_balance(1, i128::MAX);
    ledger.set_balance(2, i128::MAX);
    // Crediting 2 would overflow its balance, so nothing moves.
    assert_eq!(ledger.transfer(1, 2, 1), Err(TransferError));
    assert_eq!(ledger.balance_of(1), i128::MAX);
    assert_eq!(ledger.balance_of(2), i128::MAX);
}
