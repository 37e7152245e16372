//! How timestamps are written on the wire.

use vstd::prelude::*;

verus! {

/// The two timestamp formats the candle feed can speak.
#[derive(Clone, Copy, Debug, PartialEq, Eq, Structural)]
pub enum DateTimeFormat {
    /// Timestamps as fractional seconds since the epoch.
    Unix,
    /// Timestamps in the RFC 3339 date-time format.
    Rfc3339,
}

impl Default for DateTimeFormat {
    /// RFC 3339 unless a caller asks otherwise.
    fn default() -> (r: DateTimeFormat)
        ensures
            r == DateTimeFormat::Rfc3339,
    {
        DateTimeFormat::Rfc3339
    }
}

} // verus!
