//! Why a command on the ledger is refused.

use vstd::prelude::*;

verus! {

/// A form field that can fail to hold a value of its kind.
#[derive(Clone, Copy, Debug, PartialEq, Eq, Structural)]
pub enum Field {
    /// Account number: at most 30 characters.
    Number,
    /// Bank code: one to nine digits.
    BankCode,
    /// Hour below 24 and minute below 60.
    Time,
    /// An operation's amount (digits) or a receipt's total (a decimal).
    Summary,
    Cash,
    Cashless,
    Prepayment,
    Postpayment,
    InKind,
    Vat,
}

/// Why a command was refused. A refused command leaves the ledger as it was.
#[derive(Clone, Copy, Debug, PartialEq, Eq, Structural)]
pub enum LedgerError {
    /// A text field does not hold a value of its kind.
    Validation(Field),
    /// An operation names an account that the ledger does not hold.
    ReferentialIntegrity,
    /// A new record has the id of one already held.
    DuplicateId,
}

} // verus!
