use ledger::ledger::{apply, map_adjust_error, statement};
use ledger::store::{AccountStore, AdjustError};
use ledger::structs::{BalanceDTO, LedgerError, Timestamp, TransactionDTO, TransactionKind};

fn at(secs: i64) -> Timestamp {
    Timestamp { secs, nanos: 0 }
}

fn request(value: i32, kind: &str, description: &str) -> TransactionDTO {
    TransactionDTO {
        value,
        transaction_type: kind.to_string(),
        description: description.to_string(),
    }
}

fn store_with(id: i32, limit: i32, balance: i32) -> AccountStore {
    let mut store = AccountStore::new();
    assert!(store.provision(id, limit, balance));
    store
}

#[test]
fn statement_lists_newest_first() {
    let mut store = store_with(1, 1000, 0);
    assert!(apply(&mut store, 1, request(100, "c", "dep"), at(1)).is_ok());
    assert!(apply(&mut store, 1, request(50, "d", "wd"), at(2)).is_ok());
    assert!(apply(&mut store, 1, request(10, "c", "x"), at(3)).is_ok());
    let s = statement(&store, 1, at(4)).unwrap();
    assert_eq!(s.balance.total, 60);
    assert_eq!(s.balance.limit, 1000);
    assert_eq!(s.balance.date, at(4));
    let t = &s.last_transactions;
    assert_eq!(t.len(), 3);
    assert_eq!((t[0].value, t[0].kind, t[0].description.as_str()), (10, TransactionKind::Credit, "x"));
    assert_eq!((t[1].value, t[1].kind, t[1].description.as_str()), (50, TransactionKind::Debit, "wd"));
    assert_eq!((t[2].value, t[2].kind, t[2].description.as_str()), (100, TransactionKind::Credit, "dep"));
    assert_eq!(t[0].timestamp, at(3));
    assert_eq!(t[2].timestamp, at(1));
}

#[test]
fn boundary_of_the_credit_limit() {
    let mut store = store_with(7, 100, -100);
    assert_eq!(
        apply(&mut store, 7, request(1, "d", "one"), at(1)),
        Err(LedgerError::InsufficientFunds)
    );
    assert_eq!(
        apply(&mut store, 7, request(1, "c", "one"), at(2)),
        Ok(BalanceDTO { total: -99, limit: 100 })
    );
}

#[test]
fn debit_to_exactly_minus_limit_is_taken() {
    let mut store = store_with(1, 100, 0);
    assert_eq!(
        apply(&mut store, 1, request(100, "d", "all"), at(1)),
        Ok(BalanceDTO { total: -100, limit: 100 })
    );
    assert_eq!(
        apply(&mut store, 1, request(1, "d", "more"), at(2)),
        Err(LedgerError::InsufficientFunds)
    );
}

#[test]
fn rejected_debit_changes_nothing() {
    let mut store = store_with(1, 50, 10);
    assert!(apply(&mut store, 1, request(5, "c", "first"), at(1)).is_ok());
    let before = statement(&store, 1, at(2)).unwrap();
    assert_eq!(
        apply(&mut store, 1, request(66, "d", "too much"), at(3)),
        Err(LedgerError::InsufficientFunds)
    );
    let after = statement(&store, 1, at(2)).unwrap();
    assert_eq!(before.balance, after.balance);
    assert_eq!(after.balance.total, 15);
    assert_eq!(after.last_transactions.len(), 1);
    assert_eq!(after.last_transactions[0].description, "first");
}

#[test]
fn equal_debits_share_the_limit() {
    let limit: i32 = 1000;
    let n: i32 = 7;
    let mut store = store_with(3, limit, 0);
    let mut taken = 0;
    for i in 0..n {
        if apply(&mut store, 3, request(limit / n, "d", "share"), at(i as i64)).is_ok() {
            taken += 1;
        }
    }
    assert_eq!(taken, n);
    let s = statement(&store, 3, at(100)).unwrap();
    assert_eq!(s.balance.total, -(n * (limit / n)));
    assert_eq!(s.balance.total, -994);
    assert!(s.balance.total + s.balance.limit >= 0);
}

#[test]
fn equal_debits_beyond_the_limit_are_refused() {
    let mut store = store_with(3, 100, 0);
    let mut taken = 0;
    for i in 0..10 {
        if apply(&mut store, 3, request(30, "d", "d"), at(i)).is_ok() {
            taken += 1;
        }
    }
    assert_eq!(taken, 3);
    assert_eq!(statement(&store, 3, at(20)).unwrap().balance.total, -90);
    assert_eq!(statement(&store, 3, at(20)).unwrap().last_transactions.len(), 3);
}

#[test]
fn description_length_is_checked() {
    let mut store = store_with(1, 100, 0);
    for (value, kind) in [(1, "c"), (5, "d"), (1000, "c")] {
        assert_eq!(apply(&mut store, 1, request(value, kind, ""), at(1)), Err(LedgerError::InvalidRequest));
        assert_eq!(
            apply(&mut store, 1, request(value, kind, "elevenchars"), at(1)),
            Err(LedgerError::InvalidRequest)
        );
    }
    assert!(apply(&mut store, 1, request(1, "c", "tenchars!!"), at(1)).is_ok());
    assert!(apply(&mut store, 1, request(1, "c", "a"), at(1)).is_ok());
    // ten characters, more than ten bytes
    assert!(apply(&mut store, 1, request(1, "c", "ééééééééééé"), at(1)).is_err());
    assert!(apply(&mut store, 1, request(1, "c", "éééééééééé"), at(1)).is_ok());
}

#[test]
fn amount_and_kind_are_checked() {
    let mut store = store_with(1, 100, 0);
    assert_eq!(apply(&mut store, 1, request(0, "c", "zero"), at(1)), Err(LedgerError::InvalidRequest));
    assert_eq!(apply(&mut store, 1, request(-5, "d", "neg"), at(1)), Err(LedgerError::InvalidRequest));
    assert_eq!(apply(&mut store, 1, request(5, "x", "kind"), at(1)), Err(LedgerError::InvalidRequest));
    assert_eq!(apply(&mut store, 1, request(5, "cc", "kind"), at(1)), Err(LedgerError::InvalidRequest));
    assert_eq!(apply(&mut store, 1, request(5, "", "kind"), at(1)), Err(LedgerError::InvalidRequest));
    assert_eq!(statement(&store, 1, at(2)).unwrap().last_transactions.len(), 0);
}

#[test]
fn invalid_request_to_unknown_account_is_invalid() {
    let mut store = AccountStore::new();
    assert_eq!(apply(&mut store, 9, request(5, "c", ""), at(1)), Err(LedgerError::InvalidRequest));
}

#[test]
fn unknown_account_is_not_found() {
    let mut store = store_with(1, 100, 0);
    assert_eq!(
        apply(&mut store, 2, request(5, "c", "hello"), at(1)),
        Err(LedgerError::AccountNotFound)
    );
    assert_eq!(statement(&store, 2, at(1)).err(), Some(LedgerError::AccountNotFound));
    let s = statement(&store, 1, at(1)).unwrap();
    assert_eq!(s.balance.total, 0);
    assert!(s.last_transactions.is_empty());
    assert!(!store.contains(2));
}

#[test]
fn statement_keeps_the_ten_most_recent() {
    let mut store = store_with(1, 0, 0);
    for i in 1..=12 {
        assert!(apply(&mut store, 1, request(i, "c", "dep"), at(i as i64)).is_ok());
    }
    let s = statement(&store, 1, at(50)).unwrap();
    assert_eq!(s.balance.total, 78);
    assert_eq!(s.last_transactions.len(), 10);
    let values: Vec<i32> = s.last_transactions.iter().map(|t| t.value).collect();
    assert_eq!(values, vec![12, 11, 10, 9, 8, 7, 6, 5, 4, 3]);
}

#[test]
fn accounts_are_independent() {
    let mut store = store_with(1, 10, 0);
    assert!(store.provision(2, 20, 5));
    assert!(apply(&mut store, 1, request(10, "d", "a"), at(1)).is_ok());
    assert_eq!(statement(&store, 2, at(2)).unwrap().balance.total, 5);
    assert!(statement(&store, 2, at(2)).unwrap().last_transactions.is_empty());
}

#[test]
fn provisioning_rules() {
    let mut store = AccountStore::new();
    assert!(store.provision(1, 100, -100));
    assert!(!store.provision(1, 5, 0));
    assert!(!store.provision(2, -1, 0));
    assert!(!store.provision(3, 100, -101));
    assert!(store.contains(1));
    assert!(!store.contains(2));
    assert!(!store.contains(3));
    assert_eq!(statement(&store, 1, at(0)).unwrap().balance.limit, 100);
}

#[test]
fn adjust_reports_store_errors() {
    let mut store = store_with(1, 10, 0);
    assert_eq!(store.atomic_adjust(2, 5, "x".to_string(), at(1)), Err(AdjustError::NotFound));
    assert_eq!(store.atomic_adjust(1, -11, "x".to_string(), at(1)), Err(AdjustError::ConstraintViolation));
    assert_eq!(store.atomic_adjust(1, -10, "x".to_string(), at(1)), Ok(BalanceDTO { total: -10, limit: 10 }));
    let (b, recent) = store.recent(1).unwrap();
    assert_eq!(b, BalanceDTO { total: -10, limit: 10 });
    assert_eq!(recent.len(), 1);
    assert_eq!(recent[0].kind, TransactionKind::Debit);
    assert_eq!(recent[0].value, 10);
    assert!(store.recent(2).is_none());
}

#[test]
fn balance_overflow_is_refused() {
    let mut store = store_with(1, 0, i32::MAX - 5);
    assert_eq!(
        apply(&mut store, 1, request(6, "c", "big"), at(1)),
        Err(LedgerError::BalanceOutOfRange)
    );
    assert_eq!(
        apply(&mut store, 1, request(5, "c", "big"), at(1)),
        Ok(BalanceDTO { total: i32::MAX, limit: 0 })
    );
    assert_eq!(store.atomic_adjust(1, 1, "x".to_string(), at(1)), Err(AdjustError::OutOfRange));
}

#[test]
fn store_refusals_become_ledger_errors() {
    assert_eq!(map_adjust_error(AdjustError::NotFound), LedgerError::AccountNotFound);
    assert_eq!(map_adjust_error(AdjustError::ConstraintViolation), LedgerError::InsufficientFunds);
    assert_eq!(map_adjust_error(AdjustError::OutOfRange), LedgerError::BalanceOutOfRange);
}
