//! The shapes of the account-endpoint answers.

use vstd::prelude::*;

verus! {

/// The accounts a token can reach.
#[derive(Clone, Debug, PartialEq, Eq)]
pub struct Accounts {
    pub accounts: Vec<Account>,
}

/// One account: its identifier and the tags attached to it.
#[derive(Clone, Debug, PartialEq, Eq)]
pub struct Account {
    pub id: String,
    pub tags: Vec<String>,
}

/// The type of an instrument, as the account endpoint reports it.
#[derive(Clone, Copy, Debug, PartialEq, Eq, Structural)]
pub enum InstrumentType {
    /// A currency pair.
    Currency,
    /// A contract for difference.
    ContractForDifference,
    /// A metal.
    Metal,
}

/// The account's stance on guaranteed stop loss orders for one
/// instrument, as the account endpoint reports it.
#[derive(Clone, Copy, Debug, PartialEq, Eq, Structural)]
pub enum GuaranteedStopLossOrderModeForInstrument {
    /// The account may not create guaranteed stop loss orders here.
    Disabled,
    /// The account may, but need not, attach guaranteed stop loss orders.
    Allowed,
    /// Every open trade on this instrument needs a guaranteed stop loss.
    Required,
}

} // verus!
