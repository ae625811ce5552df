//! Bookkeeping ledger: accounts, operations on them and fiscal receipts,
//! with the rules for committing edits made in text forms.

pub mod text;
pub mod amount;
pub mod calendar;
pub mod keyed;
pub mod account;
pub mod operation;
pub mod receipt;
pub mod table;
pub mod error;
pub mod database;
pub mod forms;
