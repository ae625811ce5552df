//! The ledger: all accounts, operations and receipts, and the rules for
//! committing records into it.

use vstd::prelude::*;

use crate::account::{Account, AccountType};
use crate::error::LedgerError;
use crate::keyed::{
    holds_id, ids_unique, index_of_id, lemma_index_of_held, lemma_upserted, upsert, upserted,
    Record,
};
use crate::operation::Operation;
use crate::receipt::Receipt;

verus! {

/// The schema version written with every ledger.
pub const VERSION: &'static str = "0.0.1";

/// Relies on uuid's `Uuid::new_v4` and `as_u128`: a random id, about which
/// nothing is promised.
#[verifier::external_body]
fn new_id() -> (r: u128) {
    uuid::Uuid::new_v4().as_u128()
}

/// All accounts, operations and receipts, with the schema version they were
/// written under.
#[derive(Clone, Debug)]
pub struct Database {
    pub db_version: String,
    pub accounts: Vec<Account>,
    pub operations: Vec<Operation>,
    pub receipts: Vec<Receipt>,
}

/// Whether every operation of `ops` names an account of `accounts`.
pub open spec fn references_resolve(accounts: Seq<Account>, ops: Seq<Operation>) -> bool {
    forall|i: int| 0 <= i < ops.len() ==> holds_id(accounts, #[trigger] ops[i].account_id)
}

/// Committing an operation whose account is held keeps every operation's
/// account held, where that was so before.
proof fn lemma_references_upserted(accounts: Seq<Account>, ops: Seq<Operation>, op: Operation)
    requires
        references_resolve(accounts, ops),
        holds_id(accounts, op.account_id),
    ensures
        references_resolve(accounts, upserted(ops, op)),
{
    let t = upserted(ops, op);
    if holds_id(ops, op.id) {
        lemma_index_of_held(ops, op.id);
        let k = index_of_id(ops, op.id);
        assert forall|i: int| 0 <= i < t.len() implies holds_id(accounts, #[trigger] t[i].account_id) by {
            if i != k {
                assert(t[i] == ops[i]);
            }
        }
    } else {
        assert forall|i: int| 0 <= i < t.len() implies holds_id(accounts, #[trigger] t[i].account_id) by {
            if i < ops.len() {
                assert(t[i] == ops[i]);
            }
        }
    }
}

impl Database {
    /// Ids are unique within accounts, within operations and within receipts.
    pub open spec fn ids_unique(&self) -> bool {
        &&& ids_unique(self.accounts@)
        &&& ids_unique(self.operations@)
        &&& ids_unique(self.receipts@)
    }

    /// Unique ids, and every operation on an account that the ledger holds.
    pub open spec fn is_consistent(&self) -> bool {
        &&& self.ids_unique()
        &&& references_resolve(self.accounts@, self.operations@)
    }

    /// An empty ledger under the current schema version.
    pub fn new() -> (r: Database)
        ensures
            r.db_version@ == VERSION@,
            r.accounts@.len() == 0,
            r.operations@.len() == 0,
            r.receipts@.len() == 0,
            r.is_consistent(),
    {
        Database {
            db_version: VERSION.to_owned(),
            accounts: Vec::new(),
            operations: Vec::new(),
            receipts: Vec::new(),
        }
    }

    /// Commits an account: replaces the account with its id, or appends it.
    pub fn upsert_account(&mut self, account: Account)
        ensures
            final(self).accounts@ == upserted(old(self).accounts@, account),
            holds_id(old(self).accounts@, account.id) ==> final(self).accounts@.len()
                == old(self).accounts@.len(),
            !holds_id(old(self).accounts@, account.id) ==> final(self).accounts@.len()
                == old(self).accounts@.len() + 1,
            final(self).operations == old(self).operations,
            final(self).receipts == old(self).receipts,
            final(self).db_version == old(self).db_version,
            old(self).ids_unique() ==> final(self).ids_unique(),
            old(self).is_consistent() ==> final(self).is_consistent(),
    {
        proof {
            lemma_upserted(self.accounts@, account);
        }
        upsert(&mut self.accounts, account);
    }

    /// Appends an account, unless the ledger holds one with its id.
    pub fn insert_account(&mut self, account: Account) -> (r: Result<(), LedgerError>)
        ensures
            r == (if holds_id(old(self).accounts@, account.id) {
                Err(LedgerError::DuplicateId)
            } else {
                Ok(())
            }),
            r is Ok ==> final(self).accounts@ == old(self).accounts@.push(account),
            r is Err ==> *final(self) == *old(self),
            final(self).operations == old(self).operations,
            final(self).receipts == old(self).receipts,
            final(self).db_version == old(self).db_version,
            old(self).ids_unique() ==> final(self).ids_unique(),
            old(self).is_consistent() ==> final(self).is_consistent(),
    {
        match crate::keyed::position_of(&self.accounts, account.id) {
            Some(k) => {
                proof {
                    assert(self.accounts@[k as int].spec_id() == account.id);
                }
                Err(LedgerError::DuplicateId)
            },
            None => {
                proof {
                    lemma_upserted(self.accounts@, account);
                }
                self.accounts.push(account);
                Ok(())
            },
        }
    }

    /// Adds an account under a fresh random id with balance zero, and returns
    /// the id. Refused, in the unlikely case that the id is taken, with
    /// `DuplicateId`.
    pub fn add_account(
        &mut self,
        name: String,
        account_type: AccountType,
        number: String,
        bik: u32,
    ) -> (r: Result<u128, LedgerError>)
        ensures
            match r {
                Ok(id) => {
                    &&& !holds_id(old(self).accounts@, id)
                    &&& final(self).accounts@ == old(self).accounts@.push(
                        Account { id, name, account_type, number, bik, sum: 0 },
                    )
                },
                Err(e) => e == LedgerError::DuplicateId && *final(self) == *old(self),
            },
            final(self).operations == old(self).operations,
            final(self).receipts == old(self).receipts,
            final(self).db_version == old(self).db_version,
            old(self).ids_unique() ==> final(self).ids_unique(),
            old(self).is_consistent() ==> final(self).is_consistent(),
    {
        let id = new_id();
        let account = Account { id, name, account_type, number, bik, sum: 0 };
        match self.insert_account(account) {
            Ok(()) => Ok(id),
            Err(e) => Err(e),
        }
    }

    /// Adds an operation. Refused with `ReferentialIntegrity` when its account
    /// is not held, else with `DuplicateId` when its id is.
    pub fn add_operation(&mut self, operation: Operation) -> (r: Result<(), LedgerError>)
        ensures
            r == (if !holds_id(old(self).accounts@, operation.account_id) {
                Err(LedgerError::ReferentialIntegrity)
            } else if holds_id(old(self).operations@, operation.id) {
                Err(LedgerError::DuplicateId)
            } else {
                Ok(())
            }),
            r is Ok ==> final(self).operations@ == old(self).operations@.push(operation),
            r is Err ==> *final(self) == *old(self),
            final(self).accounts == old(self).accounts,
            final(self).receipts == old(self).receipts,
            final(self).db_version == old(self).db_version,
            old(self).ids_unique() ==> final(self).ids_unique(),
            old(self).is_consistent() ==> final(self).is_consistent(),
    {
        if crate::keyed::position_of(&self.accounts, operation.account_id).is_none() {
            return Err(LedgerError::ReferentialIntegrity);
        }
        match crate::keyed::position_of(&self.operations, operation.id) {
            Some(k) => {
                proof {
                    assert(self.operations@[k as int].spec_id() == operation.id);
                }
                Err(LedgerError::DuplicateId)
            },
            None => {
                proof {
                    lemma_upserted(self.operations@, operation);
                    if references_resolve(self.accounts@, self.operations@) {
                        lemma_references_upserted(self.accounts@, self.operations@, operation);
                    }
                }
                self.operations.push(operation);
                Ok(())
            },
        }
    }

    /// Commits an operation: replaces the operation with its id, or appends
    /// it. Refused with `ReferentialIntegrity` when its account is not held.
    pub fn upsert_operation(&mut self, operation: Operation) -> (r: Result<(), LedgerError>)
        ensures
            r == (if !holds_id(old(self).accounts@, operation.account_id) {
                Err(LedgerError::ReferentialIntegrity)
            } else {
                Ok(())
            }),
            r is Ok ==> final(self).operations@ == upserted(old(self).operations@, operation),
            r is Ok && holds_id(old(self).operations@, operation.id)
                ==> final(self).operations@.len() == old(self).operations@.len(),
            r is Ok && !holds_id(old(self).operations@, operation.id)
                ==> final(self).operations@.len() == old(self).operations@.len() + 1,
            r is Err ==> *final(self) == *old(self),
            final(self).accounts == old(self).accounts,
            final(self).receipts == old(self).receipts,
            final(self).db_version == old(self).db_version,
            old(self).ids_unique() ==> final(self).ids_unique(),
            old(self).is_consistent() ==> final(self).is_consistent(),
    {
        if crate::keyed::position_of(&self.accounts, operation.account_id).is_none() {
            return Err(LedgerError::ReferentialIntegrity);
        }
        proof {
            lemma_upserted(self.operations@, operation);
            if references_resolve(self.accounts@, self.operations@) {
                lemma_references_upserted(self.accounts@, self.operations@, operation);
            }
        }
        upsert(&mut self.operations, operation);
        Ok(())
    }

    /// Commits a receipt: replaces the receipt with its id, or appends it.
    pub fn upsert_receipt(&mut self, receipt: Receipt)
        ensures
            final(self).receipts@ == upserted(old(self).receipts@, receipt),
            holds_id(old(self).receipts@, receipt.id) ==> final(self).receipts@.len()
                == old(self).receipts@.len(),
            !holds_id(old(self).receipts@, receipt.id) ==> final(self).receipts@.len()
                == old(self).receipts@.len() + 1,
            final(self).accounts == old(self).accounts,
            final(self).operations == old(self).operations,
            final(self).db_version == old(self).db_version,
            old(self).ids_unique() ==> final(self).ids_unique(),
            old(self).is_consistent() ==> final(self).is_consistent(),
    {
        proof {
            lemma_upserted(self.receipts@, receipt);
        }
        upsert(&mut self.receipts, receipt);
    }
}

} // verus!
