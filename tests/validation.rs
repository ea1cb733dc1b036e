use ledger::structs::{LedgerError, Timestamp, Transaction, TransactionDTO, TransactionKind};
use ledger::validation::MAX_DESCRIPTION_CHARS;

fn request(value: i32, kind: &str, description: &str) -> TransactionDTO {
    TransactionDTO {
        value,
        transaction_type: kind.to_string(),
        description: description.to_string(),
    }
}

#[test]
fn kind_codes() {
    assert_eq!(TransactionKind::parse("c"), Some(TransactionKind::Credit));
    assert_eq!(TransactionKind::parse("d"), Some(TransactionKind::Debit));
    assert_eq!(TransactionKind::parse("C"), None);
    assert_eq!(TransactionKind::parse("credit"), None);
    assert_eq!(TransactionKind::parse(""), None);
}

#[test]
fn valid_request_gives_signed_delta() {
    let credit = request(100, "c", "dep").validate().unwrap();
    assert_eq!(credit.amount, 100);
    assert_eq!(credit.kind, TransactionKind::Credit);
    assert_eq!(credit.description, "dep");
    assert_eq!(credit.delta(), 100);
    let debit = request(42, "d", "wd").validate().unwrap();
    assert_eq!(debit.kind, TransactionKind::Debit);
    assert_eq!(debit.delta(), -42);
    let max = request(i32::MAX, "d", "max").validate().unwrap();
    assert_eq!(max.delta(), -i32::MAX);
}

#[test]
fn invalid_requests() {
    assert_eq!(request(1, "c", "").validate().err(), Some(LedgerError::InvalidRequest));
    assert_eq!(request(1, "d", "12345678901").validate().err(), Some(LedgerError::InvalidRequest));
    assert_eq!(request(0, "c", "ok").validate().err(), Some(LedgerError::InvalidRequest));
    assert_eq!(request(i32::MIN, "d", "ok").validate().err(), Some(LedgerError::InvalidRequest));
    assert_eq!(request(3, "e", "ok").validate().err(), Some(LedgerError::InvalidRequest));
    assert_eq!(MAX_DESCRIPTION_CHARS, 10);
    assert!(request(3, "d", "1234567890").validate().is_ok());
}

#[test]
fn duplicate_copies_every_field() {
    let t = Transaction {
        value: 5,
        kind: TransactionKind::Debit,
        description: "copy".to_string(),
        timestamp: Timestamp { secs: 12, nanos: 34 },
    };
    let u = t.duplicate();
    assert_eq!(u.value, 5);
    assert_eq!(u.kind, TransactionKind::Debit);
    assert_eq!(u.description, "copy");
    assert_eq!(u.timestamp, Timestamp { secs: 12, nanos: 34 });
}

#[test]
fn kind_code_round_trip() {
    assert_eq!(TransactionKind::Credit.code(), "c");
    assert_eq!(TransactionKind::Debit.code(), "d");
    for kind in [TransactionKind::Credit, TransactionKind::Debit] {
        assert_eq!(TransactionKind::parse(kind.code()), Some(kind));
    }
}
