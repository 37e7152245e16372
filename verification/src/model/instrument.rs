//! The instrument vocabulary: what kind of thing is traded and under what
//! account rules.

use vstd::prelude::*;

verus! {

/// The type of an instrument.
#[derive(Clone, Copy, Debug, PartialEq, Eq, Structural)]
pub enum InstrumentType {
    /// A currency pair.
    Currency,
    /// A contract for difference.
    ContractForDifference,
    /// A metal.
    Metal,
}

/// The account's stance on guaranteed stop loss orders for one
/// instrument.
#[derive(Clone, Copy, Debug, PartialEq, Eq, Structural)]
pub enum GuaranteedStopLossOrderModeForInstrument {
    /// The account may not create guaranteed stop loss orders here.
    Disabled,
    /// The account may, but need not, attach guaranteed stop loss orders.
    Allowed,
    /// Every open trade on this instrument needs a guaranteed stop loss.
    Required,
}

/// A day on which financing is charged and for how many days' worth.
#[derive(Clone, Copy, Debug, PartialEq, Eq, Structural)]
pub struct FinancingDayOfWeek {
    /// The day of the week to charge the financing.
    pub day_of_week: DayOfWeek,
    /// The number of days' worth of financing charged on that day.
    pub days_charged: i32,
}

#[derive(Clone, Copy, Debug, PartialEq, Eq, Structural)]
pub enum DayOfWeek {
    Sunday,
    Monday,
    Tuesday,
    Wednesday,
    Thursday,
    Friday,
    Saturday,
}

/// A tag attached to an instrument.
#[derive(Clone, Debug, PartialEq, Eq)]
pub struct Tag {
    /// The kind of tag.
    pub tag_type: String,
    /// The tag's name.
    pub name: String,
}

} // verus!
