use vstd::prelude::*;
use vstd::arithmetic::div_mod::{lemma_fundamental_div_mod, lemma_mod_bound};
use crate::store::{
    accepts, account_ok, after_adjust, newest_first, record_ok, AccountState, AccountStore,
    RECENT_LIMIT,
};
use crate::structs::{signed_amount, Transaction, TransactionKind};

verus! {

/// The signed change that a record stands for.
pub open spec fn record_delta(t: Transaction) -> int {
    signed_amount(t.kind, t.value as int)
}

/// The account after the requests were offered to it one at a time, in
/// order, each taken or refused against the account as the earlier ones
/// left it.
pub open spec fn serial_state(a: AccountState, requests: Seq<Transaction>) -> AccountState
    decreases requests.len(),
{
    if requests.len() == 0 {
        a
    } else {
        let prev = serial_state(a, requests.drop_last());
        let t = requests.last();
        if accepts(prev, record_delta(t)) {
            after_adjust(prev, record_delta(t), t.description, t.timestamp)
        } else {
            prev
        }
    }
}

/// How many of the requests were taken in that serial run.
pub open spec fn serial_admitted(a: AccountState, requests: Seq<Transaction>) -> nat
    decreases requests.len(),
{
    if requests.len() == 0 {
        0
    } else {
        let prev = serial_state(a, requests.drop_last());
        let n = serial_admitted(a, requests.drop_last());
        if accepts(prev, record_delta(requests.last())) {
            n + 1
        } else {
            n
        }
    }
}

/// Every account of a well-formed store has `balance + limit >= 0`; every
/// operation of the store keeps it well formed.
pub proof fn balance_within_limit(store: &AccountStore, id: i32)
    requires
        store.wf(),
        store@.contains_key(id),
    ensures
        store@[id].balance + store@[id].limit >= 0,
{
    assert(account_ok(store@[id]));
}

/// However the requests on one account are ordered, when they are taken one
/// at a time the account invariant holds after each of them, and the limit
/// stays as it was.
pub proof fn serial_run_keeps_limit(a: AccountState, requests: Seq<Transaction>)
    requires
        account_ok(a),
        forall|i: int| 0 <= i < requests.len() ==> record_ok(#[trigger] requests[i]),
    ensures
        forall|k: int|
            0 <= k <= requests.len() ==> account_ok(#[trigger] serial_state(a, requests.take(k))),
        serial_state(a, requests).limit == a.limit,
    decreases requests.len(),
{
    if requests.len() > 0 {
        let rest = requests.drop_last();
        serial_run_keeps_limit(a, rest);
        assert forall|k: int| 0 <= k <= requests.len() implies account_ok(
            #[trigger] serial_state(a, requests.take(k)),
        ) by {
            if k < requests.len() {
                assert(requests.take(k) =~= rest.take(k));
            } else {
                assert(requests.take(k) =~= requests);
                assert(rest.take(rest.len() as int) =~= rest);
                let prev = serial_state(a, rest);
                let t = requests.last();
                assert(record_ok(requests[requests.len() - 1]));
                if accepts(prev, record_delta(t)) {
                    let next = after_adjust(prev, record_delta(t), t.description, t.timestamp);
                    assert forall|i: int| 0 <= i < next.log.len() implies record_ok(
                        #[trigger] next.log[i],
                    ) by {
                        if i < prev.log.len() {
                            assert(next.log[i] == prev.log[i]);
                        }
                    }
                }
            }
        }
        assert(rest.take(rest.len() as int) =~= rest);
    }
}

/// `q = m / d` is the largest count of `d`s that fits in `m`.
proof fn quotient_bounds(m: int, d: int)
    requires
        m >= 0,
        d > 0,
    ensures
        (m / d) * d <= m,
        m < (m / d + 1) * d,
        m / d >= 0,
{
    lemma_fundamental_div_mod(m, d);
    lemma_mod_bound(m, d);
    assert((m / d) * d <= m && m < (m / d + 1) * d) by (nonlinear_arith)
        requires
            m == d * (m / d) + m % d,
            0 <= m % d < d,
    ;
    assert(m / d >= 0) by (nonlinear_arith)
        requires
            (m / d + 1) * d > m,
            m >= 0,
            d > 0,
    ;
}

/// Debits of one amount, offered one at a time to an account that keeps its
/// invariant, are taken exactly while the room left under the limit covers
/// them: as many as `(balance + limit) / amount`, or all of them when there
/// are fewer. The balance drops by the amount for each one taken, so no
/// change is lost and none is taken beyond the limit.
pub proof fn equal_debits_take_what_the_limit_covers(
    a: AccountState,
    requests: Seq<Transaction>,
    amount: int,
)
    requires
        account_ok(a),
        amount > 0,
        forall|i: int|
            0 <= i < requests.len() ==> (#[trigger] requests[i]).kind == TransactionKind::Debit
                && requests[i].value == amount,
    ensures
        serial_admitted(a, requests) == (if requests.len() <= (a.balance + a.limit) / amount {
            requests.len() as int
        } else {
            (a.balance + a.limit) / amount
        }),
        serial_state(a, requests).balance == a.balance - serial_admitted(a, requests) * amount,
        serial_state(a, requests).limit == a.limit,
    decreases requests.len(),
{
    let m = a.balance + a.limit;
    let q = m / amount;
    quotient_bounds(m, amount);
    if requests.len() > 0 {
        let rest = requests.drop_last();
        equal_debits_take_what_the_limit_covers(a, rest, amount);
        let prev = serial_state(a, rest);
        let k = serial_admitted(a, rest);
        let t = requests.last();
        assert(t == requests[requests.len() - 1]);
        assert(record_delta(t) == -amount);
        assert(prev.balance == a.balance - k * amount);
        if rest.len() <= q {
            assert(k == rest.len());
            if requests.len() <= q {
                assert(requests.len() * amount <= q * amount) by (nonlinear_arith)
                    requires
                        requests.len() <= q,
                        amount > 0,
                ;
                assert(prev.balance - amount + a.limit == m - (k + 1) * amount) by (nonlinear_arith)
                    requires
                        prev.balance == a.balance - k * amount,
                        m == a.balance + a.limit,
                ;
                assert(accepts(prev, record_delta(t)));
            } else {
                assert(k == q);
                assert(prev.balance - amount + a.limit == m - (q + 1) * amount) by (nonlinear_arith)
                    requires
                        prev.balance == a.balance - k * amount,
                        k == q,
                        m == a.balance + a.limit,
                ;
                assert(!accepts(prev, record_delta(t)));
            }
        } else {
            assert(k == q);
            assert(prev.balance - amount + a.limit == m - (q + 1) * amount) by (nonlinear_arith)
                requires
                    prev.balance == a.balance - k * amount,
                    k == q,
                    m == a.balance + a.limit,
            ;
            assert(!accepts(prev, record_delta(t)));
        }
    }
}

/// An account at balance zero, offered `n` debits of `limit / n` each (with
/// `1 <= n <= limit`, so that each amount is positive): every one of them is
/// taken, and the balance ends at exactly `-n * (limit / n)`.
pub proof fn split_limit_debits_all_taken(a: AccountState, requests: Seq<Transaction>)
    requires
        account_ok(a),
        a.balance == 0,
        1 <= requests.len() <= a.limit,
        forall|i: int|
            0 <= i < requests.len() ==> (#[trigger] requests[i]).kind == TransactionKind::Debit
                && requests[i].value == a.limit / (requests.len() as int),
    ensures
        serial_admitted(a, requests) == requests.len(),
        serial_state(a, requests).balance == -(requests.len() * (a.limit / (requests.len() as int))),
{
    let n = requests.len() as int;
    let d = a.limit / n;
    quotient_bounds(a.limit, n);
    assert(d >= 1) by (nonlinear_arith)
        requires
            a.limit < (d + 1) * n,
            n <= a.limit,
            n >= 1,
            d >= 0,
    ;
    quotient_bounds(a.limit, d);
    assert(n <= a.limit / d) by (nonlinear_arith)
        requires
            d * n <= a.limit,
            a.limit < (a.limit / d + 1) * d,
            d >= 1,
    ;
    equal_debits_take_what_the_limit_covers(a, requests, d);
}

/// A statement lists the latest record first, followed by the records it
/// listed before, less the oldest of them when it was already full.
pub proof fn latest_record_listed_first(log: Seq<Transaction>, t: Transaction)
    ensures
        newest_first(log.push(t)) == seq![t] + newest_first(log).take(
            if log.len() < RECENT_LIMIT {
                log.len() as int
            } else {
                RECENT_LIMIT - 1
            },
        ),
{
    assert(newest_first(log.push(t)) =~= seq![t] + newest_first(log).take(
        if log.len() < RECENT_LIMIT {
            log.len() as int
        } else {
            RECENT_LIMIT - 1
        },
    ));
}

} // verus!
