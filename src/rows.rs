use vstd::prelude::*;
use crate::store::RECENT_LIMIT;
use crate::structs::{
    Balance, BalanceDTO, Client, LedgerError, StatementDTO, Timestamp, Transaction,
    TransactionKind,
};

verus! {

/// The format of the transaction times in text rows, such as
/// `1983 Apr 13 12:09:14.274 +0000`.
pub const TIMESTAMP_FORMAT: &'static str = "%Y %b %d %H:%M:%S%.3f %z";

/// The instant that a time text names under a format, if it names one.
pub uninterp spec fn timestamp_of_text(s: Seq<char>, fmt: Seq<char>) -> Option<Timestamp>;

/// Relies on chrono's `DateTime::parse_from_str`: it reads a date, a time and
/// an offset from the text under the format, and the outcome depends on the
/// two strings alone. The instant is handed back as whole seconds since the
/// Unix epoch (`timestamp`) and the nanoseconds past them
/// (`timestamp_subsec_nanos`).
#[verifier::external_body]
fn parse_timestamp(s: &str, fmt: &str) -> (r: Option<Timestamp>)
    ensures
        r == timestamp_of_text(s@, fmt@),
{
    match chrono::DateTime::parse_from_str(s, fmt) {
        Ok(d) => Some(Timestamp { secs: d.timestamp(), nanos: d.timestamp_subsec_nanos() }),
        Err(_) => None,
    }
}

/// One row of the statement query: the account's columns, and those of one
/// of its transactions when it has any (the join leaves them empty
/// otherwise).
#[derive(Debug)]
pub struct StatementRow {
    pub id: i32,
    pub name: String,
    pub limit: i32,
    pub balance: i32,
    pub transaction: Option<Transaction>,
}

/// One row of the statement query from a store that reports the
/// transaction's time as text.
#[derive(Debug)]
pub struct TextStatementRow {
    pub id: i32,
    pub name: String,
    pub limit: i32,
    pub balance: i32,
    pub value: i32,
    pub kind: TransactionKind,
    pub description: String,
    pub timestamp: String,
}

/// One row of the balance query, or of the conditional update.
#[derive(Clone, Copy, Debug, PartialEq, Eq, Structural)]
pub struct BalanceRow {
    pub balance: i32,
    pub limit: i32,
}

/// The transactions that the rows carry, in row order.
pub open spec fn row_transactions(rows: Seq<StatementRow>) -> Seq<Transaction>
    decreases rows.len(),
{
    if rows.len() == 0 {
        Seq::empty()
    } else {
        let before = row_transactions(rows.drop_last());
        match rows.last().transaction {
            Some(t) => before.push(t),
            None => before,
        }
    }
}

/// At most the first `RECENT_LIMIT` items.
pub open spec fn capped<A>(s: Seq<A>) -> Seq<A> {
    if s.len() <= RECENT_LIMIT {
        s
    } else {
        s.take(RECENT_LIMIT as int)
    }
}

/// A text row read as a row: the transaction is there when its time text
/// parses under `TIMESTAMP_FORMAT`.
pub open spec fn row_of_text(row: TextStatementRow) -> StatementRow {
    StatementRow {
        id: row.id,
        name: row.name,
        limit: row.limit,
        balance: row.balance,
        transaction: match timestamp_of_text(row.timestamp@, TIMESTAMP_FORMAT@) {
            Some(ts) => Some(
                Transaction {
                    value: row.value,
                    kind: row.kind,
                    description: row.description,
                    timestamp: ts,
                },
            ),
            None => None,
        },
    }
}

impl Client {
    /// The account columns of a statement row.
    pub fn from(row: &StatementRow) -> (r: Client)
        ensures
            r == (Client { id: row.id, name: row.name, limit: row.limit, balance: row.balance }),
    {
        Client { id: row.id, name: row.name.clone(), limit: row.limit, balance: row.balance }
    }
}

impl BalanceDTO {
    /// The balance and limit of a balance row.
    pub fn from(row: &BalanceRow) -> (r: BalanceDTO)
        ensures
            r == (BalanceDTO { total: row.balance, limit: row.limit }),
    {
        BalanceDTO { total: row.balance, limit: row.limit }
    }

    /// The balance that a balance query returned; no row means no account.
    pub fn from_alesia_response(response: Vec<BalanceRow>) -> (r: Result<BalanceDTO, LedgerError>)
        ensures
            response@.len() == 0 ==> r == Err::<BalanceDTO, LedgerError>(
                LedgerError::AccountNotFound,
            ),
            response@.len() > 0 ==> r == Ok::<BalanceDTO, LedgerError>(
                BalanceDTO { total: response@[0].balance, limit: response@[0].limit },
            ),
    {
        if response.len() == 0 {
            Err(LedgerError::AccountNotFound)
        } else {
            Ok(BalanceDTO::from(&response[0]))
        }
    }

    /// The outcome of a conditional update, from the rows it returned and,
    /// when it returned none, the rows of a balance query made after it: a
    /// returned row is the new balance; an account that exists but was not
    /// updated failed the limit check; otherwise there is no account.
    pub fn from_update(updated: Vec<BalanceRow>, current: Vec<BalanceRow>) -> (r: Result<
        BalanceDTO,
        LedgerError,
    >)
        ensures
            updated@.len() > 0 ==> r == Ok::<BalanceDTO, LedgerError>(
                BalanceDTO { total: updated@[0].balance, limit: updated@[0].limit },
            ),
            updated@.len() == 0 && current@.len() > 0 ==> r == Err::<BalanceDTO, LedgerError>(
                LedgerError::InsufficientFunds,
            ),
            updated@.len() == 0 && current@.len() == 0 ==> r == Err::<BalanceDTO, LedgerError>(
                LedgerError::AccountNotFound,
            ),
    {
        if updated.len() > 0 {
            Ok(BalanceDTO::from(&updated[0]))
        } else if current.len() > 0 {
            Err(LedgerError::InsufficientFunds)
        } else {
            Err(LedgerError::AccountNotFound)
        }
    }
}

impl StatementDTO {
    /// A statement taken at `as_of` from the rows of the statement query:
    /// the balance of the first row, and the transactions of the rows in
    /// their order, at most `RECENT_LIMIT` of them. No row means no account.
    pub fn from(rows: Vec<StatementRow>, as_of: Timestamp) -> (r: Result<StatementDTO, LedgerError>)
        ensures
            r is Err <==> rows@.len() == 0,
            r is Err ==> r == Err::<StatementDTO, LedgerError>(LedgerError::AccountNotFound),
            r matches Ok(s) ==> {
                &&& s.balance == (Balance {
                    total: rows@[0].balance,
                    date: as_of,
                    limit: rows@[0].limit,
                })
                &&& s.last_transactions@ == capped(row_transactions(rows@))
            },
    {
        if rows.len() == 0 {
            return Err(LedgerError::AccountNotFound);
        }
        let client = Client::from(&rows[0]);
        let balance = Balance { total: client.balance, date: as_of, limit: client.limit };
        let mut transactions: Vec<Transaction> = Vec::new();
        let mut i: usize = 0;
        while i < rows.len()
            invariant
                i <= rows@.len(),
                transactions@ == capped(row_transactions(rows@.take(i as int))),
            decreases rows@.len() - i,
        {
            let ghost before = transactions@;
            assert(rows@.take(i as int + 1).drop_last() =~= rows@.take(i as int));
            match &rows[i].transaction {
                Some(t) => {
                    if transactions.len() < RECENT_LIMIT {
                        transactions.push(t.duplicate());
                    } else {
                        assert(before.len() == RECENT_LIMIT);
                        assert(capped(row_transactions(rows@.take(i as int)).push(*t))
                            =~= capped(row_transactions(rows@.take(i as int))));
                    }
                },
                None => {},
            }
            i = i + 1;
        }
        assert(rows@.take(rows@.len() as int) =~= rows@);
        Ok(StatementDTO { balance, last_transactions: transactions })
    }

    /// A statement taken at `as_of` from text rows: a row whose time text
    /// does not parse under `TIMESTAMP_FORMAT` contributes no transaction.
    /// No row means no account.
    pub fn from_alesia_response(response: Vec<TextStatementRow>, as_of: Timestamp) -> (r: Result<
        StatementDTO,
        LedgerError,
    >)
        ensures
            r is Err <==> response@.len() == 0,
            r is Err ==> r == Err::<StatementDTO, LedgerError>(LedgerError::AccountNotFound),
            r matches Ok(s) ==> {
                &&& s.balance == (Balance {
                    total: response@[0].balance,
                    date: as_of,
                    limit: response@[0].limit,
                })
                &&& s.last_transactions@ == capped(
                    row_transactions(response@.map_values(|row: TextStatementRow| row_of_text(row))),
                )
            },
    {
        let mut rows: Vec<StatementRow> = Vec::new();
        let mut i: usize = 0;
        while i < response.len()
            invariant
                i <= response@.len(),
                rows@ == response@.take(i as int).map_values(
                    |row: TextStatementRow| row_of_text(row),
                ),
            decreases response@.len() - i,
        {
            let row = &response[i];
            let transaction = match parse_timestamp(row.timestamp.as_str(), TIMESTAMP_FORMAT) {
                Some(ts) => Some(
                    Transaction {
                        value: row.value,
                        kind: row.kind,
                        description: row.description.clone(),
                        timestamp: ts,
                    },
                ),
                None => None,
            };
            rows.push(
                StatementRow {
                    id: row.id,
                    name: row.name.clone(),
                    limit: row.limit,
                    balance: row.balance,
                    transaction,
                },
            );
            i = i + 1;
            assert(rows@ =~= response@.take(i as int).map_values(
                |row: TextStatementRow| row_of_text(row),
            ));
        }
        assert(response@.take(response@.len() as int) =~= response@);
        StatementDTO::from(rows, as_of)
    }
}

} // verus!
