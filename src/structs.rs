use vstd::prelude::*;

verus! {

/// Whether a transaction adds to the balance or takes from it.
#[derive(Clone, Copy, Debug, PartialEq, Eq, Structural)]
pub enum TransactionKind {
    Credit,
    Debit,
}

/// The kind that a one-letter code names: `"c"` for a credit, `"d"` for a debit.
pub open spec fn kind_of_code(s: Seq<char>) -> Option<TransactionKind> {
    if s == seq!['c'] {
        Some(TransactionKind::Credit)
    } else if s == seq!['d'] {
        Some(TransactionKind::Debit)
    } else {
        None
    }
}

/// The signed change to the balance that a transaction of `kind` and
/// magnitude `amount` makes.
pub open spec fn signed_amount(kind: TransactionKind, amount: int) -> int {
    match kind {
        TransactionKind::Credit => amount,
        TransactionKind::Debit => -amount,
    }
}

impl TransactionKind {
    /// Reads the one-letter code of a kind.
    pub fn parse(s: &str) -> (r: Option<TransactionKind>)
        ensures
            r == kind_of_code(s@),
    {
        if s.unicode_len() != 1 {
            return None;
        }
        let c = s.get_char(0);
        if c == 'c' {
            assert(s@ =~= seq!['c']);
            Some(TransactionKind::Credit)
        } else if c == 'd' {
            assert(s@ =~= seq!['d']);
            Some(TransactionKind::Debit)
        } else {
            None
        }
    }

    /// The one-letter code of the kind.
    pub fn code(&self) -> (r: &'static str)
        ensures
            kind_of_code(r@) == Some(*self),
    {
        match self {
            TransactionKind::Credit => {
                proof {
                    reveal_strlit("c");
                }
                let r: &'static str = "c";
                assert(r@ =~= seq!['c']);
                assert(kind_of_code(r@) == Some(TransactionKind::Credit));
                r
            },
            TransactionKind::Debit => {
                proof {
                    reveal_strlit("d");
                }
                let r: &'static str = "d";
                assert(r@ =~= seq!['d']);
                assert(r@[0] != seq!['c'][0]);
                assert(kind_of_code(r@) == Some(TransactionKind::Debit));
                r
            },
        }
    }
}

/// A point in time: whole seconds since the Unix epoch, and the nanoseconds
/// past that second.
#[derive(Clone, Copy, Debug, PartialEq, Eq, Structural)]
pub struct Timestamp {
    pub secs: i64,
    pub nanos: u32,
}

/// An account as the store reports it.
#[derive(Debug)]
pub struct Client {
    pub id: i32,
    pub name: String,
    pub limit: i32,
    pub balance: i32,
}

/// The balance and credit limit of an account after a transaction.
#[derive(Clone, Copy, Debug, PartialEq, Eq, Structural)]
pub struct BalanceDTO {
    pub total: i32,
    pub limit: i32,
}

/// A transaction request as a caller sends it: a magnitude, a one-letter
/// kind code and a description.
#[derive(Debug)]
pub struct TransactionDTO {
    pub value: i32,
    pub transaction_type: String,
    pub description: String,
}

/// The balance part of a statement, with the time the statement was taken.
#[derive(Clone, Copy, Debug, PartialEq, Eq, Structural)]
pub struct Balance {
    pub total: i32,
    pub date: Timestamp,
    pub limit: i32,
}

/// One recorded transaction: its magnitude, kind, description and the time
/// it was stored.
#[derive(Debug)]
pub struct Transaction {
    pub value: i32,
    pub kind: TransactionKind,
    pub description: String,
    pub timestamp: Timestamp,
}

impl Transaction {
    /// A field-by-field copy.
    pub fn duplicate(&self) -> (r: Transaction)
        ensures
            r == *self,
    {
        Transaction {
            value: self.value,
            kind: self.kind,
            description: self.description.clone(),
            timestamp: self.timestamp,
        }
    }
}

/// A statement: the current balance and the most recent transactions,
/// newest first.
#[derive(Debug)]
pub struct StatementDTO {
    pub balance: Balance,
    pub last_transactions: Vec<Transaction>,
}

/// What can go wrong with a ledger operation.
#[derive(Clone, Copy, Debug, PartialEq, Eq, Structural)]
pub enum LedgerError {
    /// The request is malformed: a bad kind, a description of the wrong
    /// length, or an amount that is not positive.
    InvalidRequest,
    /// No account has the given id.
    AccountNotFound,
    /// The transaction would take the balance below minus the credit limit.
    InsufficientFunds,
    /// The new balance would not fit the balance's integer type.
    BalanceOutOfRange,
    /// The storage behind the ledger failed.
    StorageUnavailable,
}

} // verus!
