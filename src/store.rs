use vstd::prelude::*;
use std::collections::HashMap;
use crate::structs::{BalanceDTO, Timestamp, Transaction, TransactionKind};
use crate::validation::description_fits;

verus! {

broadcast use vstd::std_specs::hash::group_hash_axioms;

/// How many transactions a statement lists at most.
pub const RECENT_LIMIT: usize = 10;

/// What the store knows of one account: its credit limit, its balance and
/// its transaction log in order of insertion.
pub struct AccountState {
    pub limit: int,
    pub balance: int,
    pub log: Seq<Transaction>,
}

/// A stored transaction record: a positive magnitude and a description that fits.
pub open spec fn record_ok(t: Transaction) -> bool {
    t.value > 0 && description_fits(t.description@)
}

/// The account invariant: the limit is not negative, the balance never goes
/// below minus the limit, and every record is well formed.
pub open spec fn account_ok(a: AccountState) -> bool {
    &&& 0 <= a.limit <= i32::MAX
    &&& i32::MIN <= a.balance <= i32::MAX
    &&& a.balance + a.limit >= 0
    &&& forall|i: int| 0 <= i < a.log.len() ==> record_ok(#[trigger] a.log[i])
}

/// Whether the limit admits a change of `delta`: checked against the balance
/// after the change.
pub open spec fn admits(a: AccountState, delta: int) -> bool {
    a.balance + delta + a.limit >= 0
}

/// Whether the store takes a change of `delta`: the limit admits it and the
/// new balance fits in an `i32`.
pub open spec fn accepts(a: AccountState, delta: int) -> bool {
    admits(a, delta) && a.balance + delta <= i32::MAX
}

/// The record that a change of `delta` leaves in the log.
pub open spec fn record_for(delta: int, description: String, at: Timestamp) -> Transaction {
    Transaction {
        value: (if delta < 0 { -delta } else { delta }) as i32,
        kind: if delta < 0 { TransactionKind::Debit } else { TransactionKind::Credit },
        description,
        timestamp: at,
    }
}

/// The account after a change of `delta` was admitted.
pub open spec fn after_adjust(a: AccountState, delta: int, description: String, at: Timestamp) -> AccountState {
    AccountState {
        limit: a.limit,
        balance: a.balance + delta,
        log: a.log.push(record_for(delta, description, at)),
    }
}

/// The most recent records of a log, newest first, at most `RECENT_LIMIT` of them.
pub open spec fn newest_first(log: Seq<Transaction>) -> Seq<Transaction> {
    let n = if log.len() < RECENT_LIMIT { log.len() as int } else { RECENT_LIMIT as int };
    Seq::new(n as nat, |i: int| log[log.len() - 1 - i])
}

/// Why the store refused an adjustment.
#[derive(Clone, Copy, Debug, PartialEq, Eq, Structural)]
pub enum AdjustError {
    /// No account has the id.
    NotFound,
    /// The new balance would break the credit limit.
    ConstraintViolation,
    /// The new balance would not fit in an `i32`.
    OutOfRange,
}

/// One account as it is held in the store.
pub struct Account {
    limit: i32,
    balance: i32,
    transactions: Vec<Transaction>,
}

impl View for Account {
    type V = AccountState;

    closed spec fn view(&self) -> AccountState {
        AccountState {
            limit: self.limit as int,
            balance: self.balance as int,
            log: self.transactions@,
        }
    }
}

/// The accounts, keyed by id. Every change to a balance goes through
/// `atomic_adjust`, which takes the store by exclusive reference, so the
/// check of the limit and the write form one step.
pub struct AccountStore {
    accounts: HashMap<i32, Account>,
}

impl View for AccountStore {
    type V = Map<i32, AccountState>;

    closed spec fn view(&self) -> Map<i32, AccountState> {
        self.accounts@.map_values(|a: Account| a@)
    }
}

impl AccountStore {
    /// Every account keeps the account invariant.
    pub open spec fn wf(&self) -> bool {
        forall|id: i32| #[trigger] self@.contains_key(id) ==> account_ok(self@[id])
    }

    /// An empty store.
    pub fn new() -> (r: AccountStore)
        ensures
            r.wf(),
            r@ == Map::<i32, AccountState>::empty(),
    {
        let r = AccountStore { accounts: HashMap::new() };
        assert(r@ =~= Map::<i32, AccountState>::empty());
        r
    }

    /// Adds an account with no transactions. Refused when the id is taken,
    /// the limit is negative, or the balance is below minus the limit.
    pub fn provision(&mut self, id: i32, limit: i32, balance: i32) -> (r: bool)
        requires
            old(self).wf(),
        ensures
            final(self).wf(),
            r == (!old(self)@.contains_key(id) && limit >= 0 && balance + limit >= 0),
            r ==> final(self)@ == old(self)@.insert(
                id,
                AccountState { limit: limit as int, balance: balance as int, log: Seq::empty() },
            ),
            !r ==> final(self)@ == old(self)@,
    {
        if self.accounts.contains_key(&id) || limit < 0 || (balance as i64) + (limit as i64) < 0 {
            return false;
        }
        let acc = Account { limit, balance, transactions: Vec::new() };
        self.accounts.insert(id, acc);
        assert(self@ =~= old(self)@.insert(
            id,
            AccountState { limit: limit as int, balance: balance as int, log: Seq::empty() },
        ));
        true
    }

    /// Whether an account has the id.
    pub fn contains(&self, id: i32) -> (r: bool)
        ensures
            r == self@.contains_key(id),
    {
        self.accounts.contains_key(&id)
    }

    /// The atomic balance update. Reads the account, computes the new
    /// balance, checks the credit limit against it, and only then writes the
    /// balance and appends the record, all while holding the store
    /// exclusively. Any failure leaves the store as it was.
    pub fn atomic_adjust(&mut self, id: i32, delta: i32, description: String, at: Timestamp) -> (r:
        Result<BalanceDTO, AdjustError>)
        requires
            old(self).wf(),
            delta != 0,
            delta != i32::MIN,
            description_fits(description@),
        ensures
            final(self).wf(),
            !old(self)@.contains_key(id) ==> r == Err::<BalanceDTO, AdjustError>(
                AdjustError::NotFound,
            ),
            old(self)@.contains_key(id) && !admits(old(self)@[id], delta as int) ==> r == Err::<
                BalanceDTO,
                AdjustError,
            >(AdjustError::ConstraintViolation),
            old(self)@.contains_key(id) && admits(old(self)@[id], delta as int) && old(self)@[id].balance
                + delta > i32::MAX ==> r == Err::<BalanceDTO, AdjustError>(AdjustError::OutOfRange),
            r is Ok <==> old(self)@.contains_key(id) && accepts(old(self)@[id], delta as int),
            r is Err ==> final(self)@ == old(self)@,
            r matches Ok(b) ==> {
                &&& b.total == old(self)@[id].balance + delta
                &&& b.limit == old(self)@[id].limit
                &&& final(self)@ == old(self)@.insert(
                    id,
                    after_adjust(old(self)@[id], delta as int, description, at),
                )
            },
    {
        let (limit, balance) = match self.accounts.get(&id) {
            Some(acc) => (acc.limit, acc.balance),
            None => return Err(AdjustError::NotFound),
        };
        proof {
            assert(self@.contains_key(id));
            assert(account_ok(self@[id]));
        }
        let new_balance: i64 = balance as i64 + delta as i64;
        if new_balance + (limit as i64) < 0 {
            return Err(AdjustError::ConstraintViolation);
        }
        if new_balance > i32::MAX as i64 {
            return Err(AdjustError::OutOfRange);
        }
        let ghost old_state = self@[id];
        let mut acc = match self.accounts.remove(&id) {
            Some(acc) => acc,
            None => return Err(AdjustError::NotFound),
        };
        let amount: i32 = if delta < 0 { -delta } else { delta };
        let kind = if delta < 0 { TransactionKind::Debit } else { TransactionKind::Credit };
        acc.balance = new_balance as i32;
        acc.transactions.push(Transaction { value: amount, kind, description, timestamp: at });
        self.accounts.insert(id, acc);
        let ghost new_state = after_adjust(old_state, delta as int, description, at);
        assert(acc@.log =~= new_state.log);
        assert(self@ =~= old(self)@.insert(id, new_state));
        assert(account_ok(new_state)) by {
            assert forall|i: int| 0 <= i < new_state.log.len() implies record_ok(
                #[trigger] new_state.log[i],
            ) by {
                if i < old_state.log.len() {
                    assert(new_state.log[i] == old_state.log[i]);
                }
            }
        }
        Ok(BalanceDTO { total: new_balance as i32, limit })
    }

    /// Reads an account: its balance and limit, and its most recent records,
    /// newest first.
    pub fn recent(&self, id: i32) -> (r: Option<(BalanceDTO, Vec<Transaction>)>)
        requires
            self.wf(),
        ensures
            r is None <==> !self@.contains_key(id),
            r matches Some((b, v)) ==> {
                &&& b.total == self@[id].balance
                &&& b.limit == self@[id].limit
                &&& v@ == newest_first(self@[id].log)
            },
    {
        let acc = match self.accounts.get(&id) {
            Some(acc) => acc,
            None => return None,
        };
        let ghost log = self@[id].log;
        assert(acc.transactions@ == log);
        let len = acc.transactions.len();
        let n: usize = if len < RECENT_LIMIT { len } else { RECENT_LIMIT };
        let mut out: Vec<Transaction> = Vec::new();
        let mut i: usize = 0;
        while i < n
            invariant
                n <= len,
                len == log.len(),
                acc.transactions@ == log,
                n == newest_first(log).len(),
                i <= n,
                out@ == newest_first(log).take(i as int),
            decreases n - i,
        {
            let t = acc.transactions[len - 1 - i].duplicate();
            out.push(t);
            i = i + 1;
            assert(out@ =~= newest_first(log).take(i as int));
        }
        assert(out@ =~= newest_first(log));
        Some((BalanceDTO { total: acc.balance, limit: acc.limit }, out))
    }
}

} // verus!
