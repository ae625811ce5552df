//! Accounts: named stores of money.

use vstd::prelude::*;

use crate::keyed::Record;

verus! {

/// What kind of store of money an account is.
#[derive(Clone, Copy, Debug, PartialEq, Eq, Structural)]
pub enum AccountType {
    Account,
    Cash,
    DebetCard,
    CreditCard,
    CreditAccount,
    AccumulativeAccount,
    Deposit,
}

/// A named store of money.
#[derive(Clone, Debug, PartialEq, Eq)]
pub struct Account {
    pub id: u128,
    pub name: String,
    pub account_type: AccountType,
    /// Account or card number, free text of up to 30 characters.
    pub number: String,
    /// Bank code, up to 9 digits.
    pub bik: u32,
    /// Balance, in the account's smallest unit (hundredths of the currency).
    pub sum: usize,
}

impl Record for Account {
    open spec fn spec_id(&self) -> u128 {
        self.id
    }

    fn record_id(&self) -> (r: u128) {
        self.id
    }
}

} // verus!
