//! Reduces a swing-status sequence to its final support and resistance
//! lines.

use vstd::prelude::*;

use crate::higher_high_lower_low::SwingStatus;

verus! {

/// The terminal snapshot of a swing-status sequence.
#[derive(Clone, Copy, Debug, PartialEq, Eq)]
pub struct SupportAndResistance {
    pub support: Option<i64>,
    pub resistance: Option<i64>,
}

impl Default for SupportAndResistance {
    /// No line established.
    fn default() -> (s: SupportAndResistance)
        ensures
            s.support is None,
            s.resistance is None,
    {
        SupportAndResistance { support: None, resistance: None }
    }
}

/// The last element's support and resistance, or neither when the
/// sequence is empty.
pub open spec fn support_resistance_spec(statuses: Seq<SwingStatus>) -> SupportAndResistance {
    if statuses.len() == 0 {
        SupportAndResistance { support: None, resistance: None }
    } else {
        SupportAndResistance {
            support: statuses.last().support,
            resistance: statuses.last().resistance,
        }
    }
}

/// Reduces a swing-status sequence to the last element's support and
/// resistance pair; an empty sequence has no lines at all.
pub fn support_and_resistance(statuses: &Vec<SwingStatus>) -> (r: SupportAndResistance)
    ensures
        r == support_resistance_spec(statuses@),
{
    if statuses.len() == 0 {
        SupportAndResistance { support: None, resistance: None }
    } else {
        let last = statuses[statuses.len() - 1];
        SupportAndResistance { support: last.support, resistance: last.resistance }
    }
}

} // verus!
