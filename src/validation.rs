use vstd::prelude::*;
use crate::structs::{kind_of_code, signed_amount, LedgerError, TransactionDTO, TransactionKind};

verus! {

/// The longest description a transaction may carry, in characters.
pub const MAX_DESCRIPTION_CHARS: usize = 10;

/// A description holds between one and `MAX_DESCRIPTION_CHARS` characters.
pub open spec fn description_fits(d: Seq<char>) -> bool {
    1 <= d.len() <= MAX_DESCRIPTION_CHARS
}

/// A request is accepted when its amount is positive, its kind code is known
/// and its description fits.
pub open spec fn request_is_valid(value: int, code: Seq<char>, description: Seq<char>) -> bool {
    &&& value > 0
    &&& kind_of_code(code) is Some
    &&& description_fits(description)
}

/// A request that passed validation.
#[derive(Debug)]
pub struct ValidTransaction {
    pub amount: i32,
    pub kind: TransactionKind,
    pub description: String,
}

impl ValidTransaction {
    pub open spec fn wf(&self) -> bool {
        self.amount > 0 && description_fits(self.description@)
    }

    /// The signed change this transaction makes to a balance.
    pub fn delta(&self) -> (r: i32)
        requires
            self.wf(),
        ensures
            r == signed_amount(self.kind, self.amount as int),
    {
        match self.kind {
            TransactionKind::Credit => self.amount,
            TransactionKind::Debit => -self.amount,
        }
    }
}

impl TransactionDTO {
    /// Checks a request before anything is stored: the amount must be
    /// positive, the kind `"c"` or `"d"`, and the description one to ten
    /// characters long.
    pub fn validate(self) -> (r: Result<ValidTransaction, LedgerError>)
        ensures
            r is Ok <==> request_is_valid(
                self.value as int,
                self.transaction_type@,
                self.description@,
            ),
            r is Err ==> r == Err::<ValidTransaction, LedgerError>(LedgerError::InvalidRequest),
            r matches Ok(t) ==> {
                &&& t.wf()
                &&& t.amount == self.value
                &&& Some(t.kind) == kind_of_code(self.transaction_type@)
                &&& t.description == self.description
            },
    {
        let kind = TransactionKind::parse(self.transaction_type.as_str());
        let len = self.description.as_str().unicode_len();
        match kind {
            Some(kind) => {
                if self.value > 0 && 1 <= len && len <= MAX_DESCRIPTION_CHARS {
                    Ok(ValidTransaction { amount: self.value, kind, description: self.description })
                } else {
                    Err(LedgerError::InvalidRequest)
                }
            },
            None => Err(LedgerError::InvalidRequest),
        }
    }
}

} // verus!
