use vstd::prelude::*;
use crate::store::{accepts, admits, after_adjust, newest_first, AccountStore, AdjustError};
use crate::structs::{
    kind_of_code, signed_amount, Balance, BalanceDTO, LedgerError, StatementDTO, Timestamp,
    TransactionDTO,
};
use crate::validation::request_is_valid;

verus! {

/// The signed change that a valid request asks for.
pub open spec fn request_delta(request: TransactionDTO) -> int {
    signed_amount(kind_of_code(request.transaction_type@)->Some_0, request.value as int)
}

/// The error that the store's refusal becomes.
pub open spec fn ledger_error_of(e: AdjustError) -> LedgerError {
    match e {
        AdjustError::NotFound => LedgerError::AccountNotFound,
        AdjustError::ConstraintViolation => LedgerError::InsufficientFunds,
        AdjustError::OutOfRange => LedgerError::BalanceOutOfRange,
    }
}

/// Maps a refusal of the store to the ledger's error.
pub fn map_adjust_error(e: AdjustError) -> (r: LedgerError)
    ensures
        r == ledger_error_of(e),
{
    match e {
        AdjustError::NotFound => LedgerError::AccountNotFound,
        AdjustError::ConstraintViolation => LedgerError::InsufficientFunds,
        AdjustError::OutOfRange => LedgerError::BalanceOutOfRange,
    }
}

/// Applies a credit or a debit to account `id`, recording it at time `at`.
/// The request is validated before the store is touched; then the store
/// adjusts the balance and appends the record in one step, or changes
/// nothing.
pub fn apply(store: &mut AccountStore, id: i32, request: TransactionDTO, at: Timestamp) -> (r:
    Result<BalanceDTO, LedgerError>)
    requires
        old(store).wf(),
    ensures
        final(store).wf(),
        !request_is_valid(request.value as int, request.transaction_type@, request.description@)
            ==> r == Err::<BalanceDTO, LedgerError>(LedgerError::InvalidRequest),
        request_is_valid(request.value as int, request.transaction_type@, request.description@)
            && !old(store)@.contains_key(id) ==> r == Err::<BalanceDTO, LedgerError>(
            LedgerError::AccountNotFound,
        ),
        request_is_valid(request.value as int, request.transaction_type@, request.description@)
            && old(store)@.contains_key(id) && !admits(old(store)@[id], request_delta(request))
            ==> r == Err::<BalanceDTO, LedgerError>(LedgerError::InsufficientFunds),
        request_is_valid(request.value as int, request.transaction_type@, request.description@)
            && old(store)@.contains_key(id) && admits(old(store)@[id], request_delta(request))
            && old(store)@[id].balance + request_delta(request) > i32::MAX ==> r == Err::<
            BalanceDTO,
            LedgerError,
        >(LedgerError::BalanceOutOfRange),
        r is Ok <==> request_is_valid(
            request.value as int,
            request.transaction_type@,
            request.description@,
        ) && old(store)@.contains_key(id) && accepts(old(store)@[id], request_delta(request)),
        r is Err ==> final(store)@ == old(store)@,
        r matches Ok(b) ==> {
            &&& b.total == old(store)@[id].balance + request_delta(request)
            &&& b.limit == old(store)@[id].limit
            &&& final(store)@ == old(store)@.insert(
                id,
                after_adjust(old(store)@[id], request_delta(request), request.description, at),
            )
        },
{
    let ghost req = request;
    let valid = match request.validate() {
        Ok(v) => v,
        Err(e) => return Err(e),
    };
    let delta = valid.delta();
    assert(delta == request_delta(req));
    match store.atomic_adjust(id, delta, valid.description, at) {
        Ok(b) => Ok(b),
        Err(e) => Err(map_adjust_error(e)),
    }
}

/// The statement of account `id` taken at time `as_of`: its balance and
/// limit, and its most recent transactions, newest first.
pub fn statement(store: &AccountStore, id: i32, as_of: Timestamp) -> (r: Result<StatementDTO, LedgerError>)
    requires
        store.wf(),
    ensures
        r is Err <==> !store@.contains_key(id),
        r is Err ==> r == Err::<StatementDTO, LedgerError>(LedgerError::AccountNotFound),
        r matches Ok(s) ==> {
            &&& s.balance.total == store@[id].balance
            &&& s.balance.limit == store@[id].limit
            &&& s.balance.date == as_of
            &&& s.last_transactions@ == newest_first(store@[id].log)
        },
{
    match store.recent(id) {
        Some((b, transactions)) => Ok(
            StatementDTO {
                balance: Balance { total: b.total, date: as_of, limit: b.limit },
                last_transactions: transactions,
            },
        ),
        None => Err(LedgerError::AccountNotFound),
    }
}

} // verus!
