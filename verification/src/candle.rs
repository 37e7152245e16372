//! The price-bar type that every stage of the pipeline reads.
//!
//! A [`Candle`] carries the four readouts of one bar — high, low, open and
//! close — as plain integer prices. The pipeline never assumes the usual
//! bar shape (`low <= open <= high` and so on); a malformed bar flows
//! through and produces whatever the formulas say.

use vstd::prelude::*;

verus! {

/// Every price handled by the pipeline must stay within this bound, so that
/// all of the pipeline's `i64` arithmetic (differences, brick levels, brick
/// prices) is free of overflow.
pub const PRICE_LIMIT: i64 = 0x1000_0000_0000_0000;

/// A price the pipeline can do arithmetic on without leaving `i64`.
pub open spec fn in_range(p: int) -> bool {
    -(PRICE_LIMIT as int) <= p <= PRICE_LIMIT as int
}

/// One OHLC price bar, in integer price units.
#[derive(Clone, Copy, Debug, PartialEq, Eq, Structural)]
pub struct Candle {
    pub high: i64,
    pub low: i64,
    pub open: i64,
    pub close: i64,
}

impl Candle {
    /// All four readouts are small enough for the pipeline's arithmetic.
    pub open spec fn in_bounds(self) -> bool {
        &&& in_range(self.high as int)
        &&& in_range(self.low as int)
        &&& in_range(self.open as int)
        &&& in_range(self.close as int)
    }

    pub fn new(high: i64, low: i64, open: i64, close: i64) -> (c: Candle)
        ensures
            c == (Candle { high, low, open, close }),
    {
        Candle { high, low, open, close }
    }
}

/// Every bar of the sequence is within the pipeline's price bound.
pub open spec fn all_in_bounds(cs: Seq<Candle>) -> bool {
    forall|i: int| 0 <= i < cs.len() ==> #[trigger] cs[i].in_bounds()
}

} // verus!
