//! True range: the single-bar volatility of a candle measured against the
//! previous bar's close.
//!
//! Over a sequence of candles the first bar only seeds the previous close
//! and yields no value, so `n` candles give exactly `n - 1` true ranges.

use vstd::prelude::*;

use crate::candle::{all_in_bounds, in_range, Candle};

verus! {

/// The greatest of three values.
pub open spec fn max3(a: int, b: int, c: int) -> int {
    if a >= b && a >= c {
        a
    } else if b >= c {
        b
    } else {
        c
    }
}

pub open spec fn abs_diff(a: int, b: int) -> int {
    if a >= b {
        a - b
    } else {
        b - a
    }
}

/// The true range of a bar against the previous close: the greatest of the
/// bar's own spread and the two gaps from the previous close to the bar's
/// high and low.
pub open spec fn true_range_spec(c: Candle, previous_close: int) -> int {
    max3(
        c.high - c.low,
        abs_diff(c.high as int, previous_close),
        abs_diff(c.low as int, previous_close),
    )
}

impl Candle {
    /// The true range of this bar relative to `previous_close`.
    pub fn true_range(&self, previous_close: i64) -> (r: i64)
        requires
            self.in_bounds(),
            in_range(previous_close as int),
        ensures
            r as int == true_range_spec(*self, previous_close as int),
    {
        let hl = self.high - self.low;
        let hpc = if self.high >= previous_close {
            self.high - previous_close
        } else {
            previous_close - self.high
        };
        let lpc = if self.low >= previous_close {
            self.low - previous_close
        } else {
            previous_close - self.low
        };
        if hl >= hpc && hl >= lpc {
            hl
        } else if hpc >= lpc {
            hpc
        } else {
            lpc
        }
    }
}

/// The true ranges of a candle sequence: one value for each bar after the
/// first, each measured against the close of the bar before it.
pub open spec fn true_ranges_spec(cs: Seq<Candle>) -> Seq<int> {
    if cs.len() == 0 {
        Seq::empty()
    } else {
        Seq::new((cs.len() - 1) as nat, |i: int| true_range_spec(cs[i + 1], cs[i].close as int))
    }
}

/// Turns a candle sequence into the sequence of its true-range values.
/// An empty or one-candle input yields an empty output; `n >= 1` candles
/// yield exactly `n - 1` values.
pub fn true_ranges(candles: &Vec<Candle>) -> (r: Vec<i64>)
    requires
        all_in_bounds(candles@),
    ensures
        r@.len() == true_ranges_spec(candles@).len(),
        forall|i: int| 0 <= i < r@.len() ==> r@[i] as int == true_ranges_spec(candles@)[i],
        candles@.len() == 0 ==> r@.len() == 0,
        candles@.len() >= 1 ==> r@.len() == candles@.len() - 1,
{
    let mut r: Vec<i64> = Vec::new();
    if candles.len() == 0 {
        return r;
    }
    let mut i: usize = 1;
    while i < candles.len()
        invariant
            1 <= i <= candles@.len(),
            all_in_bounds(candles@),
            r@.len() == i - 1,
            forall|k: int| 0 <= k < r@.len() ==> r@[k] as int == true_ranges_spec(candles@)[k],
        decreases candles@.len() - i,
    {
        assert(candles@[i as int].in_bounds());
        assert(candles@[i - 1].in_bounds());
        let tr = candles[i].true_range(candles[i - 1].close);
        r.push(tr);
        i += 1;
    }
    r
}

/// A bar whose high, low and close all sit exactly at the previous close has
/// a true range of zero.
pub proof fn lemma_true_range_flat(c: Candle, previous_close: int)
    requires
        c.high == c.low,
        c.low == c.close,
        c.close as int == previous_close,
    ensures
        true_range_spec(c, previous_close) == 0,
{
}

} // verus!
