//! The collections that a listing can show.

use vstd::prelude::*;

verus! {

/// Which collection of the ledger a table lists.
#[derive(Clone, Copy, Debug, PartialEq, Eq, Structural)]
pub enum TableType {
    Account,
    Operation,
}

} // verus!
