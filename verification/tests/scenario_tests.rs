//! End-to-end scenarios and the error taxonomy, event by event.
//! Amounts are in cents: 100.00 currency units are 10000 units.

use ledger_engine::account::AccountError;
use ledger_engine::amount::Amount;
use ledger_engine::engine::{Database, Transaction, TransactionError, TransactionType};

fn amt(units: i64) -> Amount {
    Amount::from_units(units)
}

fn deposit(tx: u32, client: u16, units: i64) -> Transaction {
    Transaction { tx_type: TransactionType::Deposit, client, tx, amount: Some(amt(units)) }
}

fn withdrawal(tx: u32, client: u16, units: i64) -> Transaction {
    Transaction { tx_type: TransactionType::Withdrawal, client, tx, amount: Some(amt(units)) }
}

fn reference(tx_type: TransactionType, tx: u32, client: u16) -> Transaction {
    Transaction { tx_type, client, tx, amount: None }
}

#[test]
fn scenario_full_dispute_cycle_resolve() {
    let mut db = Database::default();
    assert_eq!(db.process(deposit(1, 1, 10000)), Ok(()));
    assert_eq!(db.process(reference(TransactionType::Dispute, 1, 1)), Ok(()));
    let acc = db.account(1).unwrap();
    assert_eq!(acc.available, amt(0));
    assert_eq!(acc.held, amt(10000));

    assert_eq!(db.process(reference(TransactionType::Resolve, 1, 1)), Ok(()));
    let acc = db.account(1).unwrap();
    assert_eq!(acc.available, amt(10000));
    assert_eq!(acc.held, amt(0));

    // the flag is cleared again: the entry may be disputed anew
    assert_eq!(db.process(reference(TransactionType::Dispute, 1, 1)), Ok(()));
}

#[test]
fn scenario_chargeback_locks_out_later_deposits() {
    let mut db = Database::default();
    assert_eq!(db.process(deposit(1, 1, 10000)), Ok(()));
    assert_eq!(db.process(reference(TransactionType::Dispute, 1, 1)), Ok(()));
    assert_eq!(db.process(reference(TransactionType::Chargeback, 1, 1)), Ok(()));
    let acc = db.account(1).unwrap();
    assert_eq!(acc.available, amt(0));
    assert_eq!(acc.held, amt(0));
    assert!(acc.locked);

    assert_eq!(
        db.process(deposit(2, 1, 5000)),
        Err(TransactionError::AccountError(AccountError::Locked))
    );
    assert_eq!(db.account(1).unwrap().available, amt(0));
}

#[test]
fn scenario_unknown_reference_creates_fresh_account() {
    let mut db = Database::default();
    assert_eq!(
        db.process(reference(TransactionType::Dispute, 99, 1)),
        Err(TransactionError::ReferenceNotFound)
    );
    // the defensive account creation of the dispute path
    let acc = db.account(1).unwrap();
    assert_eq!(acc.available, amt(0));
    assert_eq!(acc.held, amt(0));
    assert!(!acc.locked);
}

#[test]
fn zero_and_missing_amounts_are_rejected() {
    let mut db = Database::default();
    assert_eq!(db.process(deposit(1, 1, 0)), Err(TransactionError::NegativeAmount));
    assert_eq!(
        db.process(Transaction {
            tx_type: TransactionType::Deposit,
            client: 1,
            tx: 1,
            amount: None,
        }),
        Err(TransactionError::MissingAmount)
    );
    // neither rejection consumed the identifier
    assert_eq!(db.process(deposit(1, 1, 100)), Ok(()));
}

#[test]
fn duplicate_identifier_reports_duplicate_even_across_kinds() {
    let mut db = Database::default();
    assert_eq!(db.process(deposit(1, 1, 10000)), Ok(()));
    assert_eq!(db.process(deposit(1, 1, 10000)), Err(TransactionError::Duplicate));
    // a withdrawal may not reuse a consumed identifier either
    assert_eq!(db.process(withdrawal(1, 1, 100)), Err(TransactionError::Duplicate));
    assert_eq!(db.account(1).unwrap().available, amt(10000));
}

#[test]
fn insufficient_funds_is_reported_as_such() {
    let mut db = Database::default();
    assert_eq!(db.process(deposit(1, 1, 5000)), Ok(()));
    assert_eq!(
        db.process(withdrawal(2, 1, 10000)),
        Err(TransactionError::AccountError(AccountError::InsufficientFunds))
    );
}

#[test]
fn withdrawals_cannot_be_disputed() {
    let mut db = Database::default();
    assert_eq!(db.process(deposit(1, 1, 10000)), Ok(()));
    assert_eq!(db.process(withdrawal(2, 1, 3000)), Ok(()));
    assert_eq!(
        db.process(reference(TransactionType::Dispute, 2, 1)),
        Err(TransactionError::InvalidDispute)
    );
    let acc = db.account(1).unwrap();
    assert_eq!(acc.available, amt(7000));
    assert_eq!(acc.held, amt(0));
}

#[test]
fn dispute_needs_available_funds_to_hold() {
    let mut db = Database::default();
    assert_eq!(db.process(deposit(1, 1, 10000)), Ok(()));
    assert_eq!(db.process(withdrawal(2, 1, 8000)), Ok(()));
    // only 2000 cents are left available, the deposit held 10000
    assert_eq!(
        db.process(reference(TransactionType::Dispute, 1, 1)),
        Err(TransactionError::AccountError(AccountError::InsufficientFunds))
    );
    let acc = db.account(1).unwrap();
    assert_eq!(acc.available, amt(2000));
    assert_eq!(acc.held, amt(0));
}

#[test]
fn replaying_a_deposit_leaves_the_account_identical() {
    let mut db = Database::default();
    let tx = deposit(1, 1, 12345);
    assert_eq!(db.process(tx), Ok(()));
    let after_first = *db.account(1).unwrap();
    assert_eq!(db.process(tx), Err(TransactionError::Duplicate));
    assert_eq!(*db.account(1).unwrap(), after_first);
}

#[test]
fn client_ids_record_first_appearance_order() {
    let mut db = Database::default();
    let _ = db.process(deposit(1, 7, 100));
    let _ = db.process(deposit(2, 3, 100));
    let _ = db.process(deposit(3, 7, 100));
    let _ = db.process(deposit(4, 5, 100));
    assert_eq!(db.client_ids().clone(), vec![7u16, 3, 5]);
    assert!(db.account(3).is_some());
    assert!(db.account(4).is_none());
}

#[test]
fn can_accept_flags_only_overflowing_deposits() {
    let mut db = Database::default();
    let big = deposit(1, 1, i64::MAX);
    assert!(db.can_accept(&big));
    assert_eq!(db.process(big), Ok(()));
    let one_more = deposit(2, 1, 1);
    assert!(!db.can_accept(&one_more));
    // every other event stays acceptable
    assert!(db.can_accept(&withdrawal(3, 1, 100)));
    assert!(db.can_accept(&reference(TransactionType::Dispute, 1, 1)));
}

#[test]
fn get_total_sums_available_and_held() {
    let mut db = Database::default();
    let _ = db.process(deposit(1, 1, 10000));
    let _ = db.process(deposit(2, 1, 595));
    let _ = db.process(reference(TransactionType::Dispute, 2, 1));
    let acc = db.account(1).unwrap();
    assert_eq!(acc.available, amt(10000));
    assert_eq!(acc.held, amt(595));
    assert_eq!(acc.get_total(), amt(10595));
}
