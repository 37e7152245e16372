//! Accounts as the broker reports them.

use vstd::prelude::*;

verus! {

/// The list of accounts a token can reach.
#[derive(Clone, Debug, PartialEq, Eq)]
pub struct Accounts {
    pub accounts: Vec<Account>,
}

/// One account: its identifier and the tags attached to it.
#[derive(Clone, Debug, PartialEq, Eq)]
pub struct Account {
    pub id: String,
    pub tags: Vec<String>,
}

} // verus!
