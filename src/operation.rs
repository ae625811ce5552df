//! Operations: entries that move value through an account.

use vstd::prelude::*;

use crate::calendar::DateTime;
use crate::keyed::Record;

verus! {

/// What an operation does.
#[derive(Clone, Copy, Debug, PartialEq, Eq, Structural)]
pub enum OperationType {
    Initial,
    Buy,
    Sell,
    ReturnBuy,
    ReturnSell,
    /// Credit to the account.
    DebetingAccounts,
    /// Withdrawal from the account.
    WithdrawalFromAccounts,
    /// Closing of the account.
    ClosingAccounts,
}

/// Whether an operation adds value (`Debet`, "+") or takes it away (`Credit`, "-").
#[derive(Clone, Copy, Debug, PartialEq, Eq, Structural)]
pub enum FinanseDirection {
    Debet,
    Credit,
}

/// A ledger entry on one account, possibly tied to a receipt.
#[derive(Clone, Debug, PartialEq, Eq)]
pub struct Operation {
    pub id: u128,
    pub date_time: DateTime,
    /// The account the operation is on; it must exist when the operation is committed.
    pub account_id: u128,
    pub operation_type: OperationType,
    /// Amount, in the account's smallest unit (hundredths of the currency).
    pub summary: usize,
    pub direction: FinanseDirection,
    /// The receipt behind the operation; not checked against the stored receipts.
    pub receipt_id: Option<u128>,
}

impl Record for Operation {
    open spec fn spec_id(&self) -> u128 {
        self.id
    }

    fn record_id(&self) -> (r: u128) {
        self.id
    }
}

} // verus!
