//! The trading decisions taken over the pipeline's output: composing the
//! stages into support/resistance lines for a price history, and the
//! trigger that compares the latest price against them. The surrounding
//! loop — fetching candles, extending the history while no lines exist,
//! placing orders — lives with the caller; everything it decides on is
//! computed here.

use vstd::prelude::*;

use crate::candle::{in_range, Candle, PRICE_LIMIT};
use crate::higher_high_lower_low::{high_low_swing, swing_run, SwingStatusIter};
use crate::pivot_high_low::{pivot_at, pivots};
use crate::renko::{renko, renko_spec, RenkoCandle};
use crate::support_resistance::{
    support_and_resistance, support_resistance_spec, SupportAndResistance,
};

verus! {

/// The support and resistance implied by a price history: the prices are
/// aggregated into Renko bricks, pivots are detected over the bricks with
/// the given window, the swing classifier runs over the pivots, and the
/// last status' lines are the answer. While fewer bricks than one window
/// exist, no lines are established yet.
pub open spec fn pipeline_spec(prices: Seq<i64>, size: int, window: int) -> SupportAndResistance {
    let candles = renko_spec(prices, size).map_values(|b: RenkoCandle| b.candle_spec());
    if candles.len() < window {
        SupportAndResistance { support: None, resistance: None }
    } else {
        let pivs = Seq::new(candles.len(), |i: int| pivot_at(candles, window, i));
        support_resistance_spec(swing_run(SwingStatusIter::init_spec(), pivs))
    }
}

/// Runs the whole pipeline over a price history: Renko bricks of
/// `brick_size`, pivots over a `window_size` window, the swing
/// classifier, and the final support/resistance snapshot. Reports no
/// lines while the history yields fewer bricks than one window.
pub fn renko_support_resistance(prices: &Vec<i64>, brick_size: i64, window_size: usize) -> (r:
    SupportAndResistance)
    requires
        1 <= brick_size <= PRICE_LIMIT,
        1 <= window_size,
        forall|i: int| 0 <= i < prices@.len() ==> in_range(#[trigger] prices@[i] as int),
    ensures
        r == pipeline_spec(prices@, brick_size as int, window_size as int),
{
    let bricks = renko(prices, brick_size);
    let mut candles: Vec<Candle> = Vec::new();
    let mut i: usize = 0;
    while i < bricks.len()
        invariant
            0 <= i <= bricks@.len(),
            forall|k: int| 0 <= k < bricks@.len() ==> (#[trigger] bricks@[k]).wf(),
            candles@.len() == i,
            forall|k: int| 0 <= k < i ==> candles@[k] == (#[trigger] bricks@[k]).candle_spec(),
        decreases bricks@.len() - i,
    {
        candles.push(bricks[i].candle());
        i += 1;
    }
    proof {
        assert(candles@ =~= renko_spec(prices@, brick_size as int).map_values(
            |b: RenkoCandle| b.candle_spec(),
        ));
    }
    if candles.len() < window_size {
        return SupportAndResistance { support: None, resistance: None };
    }
    let pivs = pivots(&candles, window_size).unwrap();
    let statuses = high_low_swing(&pivs);
    proof {
        assert(pivs@ =~= Seq::new(
            candles@.len(),
            |k: int| pivot_at(candles@, window_size as int, k),
        ));
    }
    support_and_resistance(&statuses)
}

/// The trade trigger: buy exactly when the latest buy price has broken
/// above the resistance line, but by less than one average true range.
pub fn should_buy(last_buy_price: i64, resistance: i64, atr: i64) -> (r: bool)
    requires
        in_range(last_buy_price as int),
        in_range(resistance as int),
        0 <= atr <= PRICE_LIMIT,
    ensures
        r == (last_buy_price > resistance && last_buy_price < resistance + atr),
{
    last_buy_price > resistance && last_buy_price < resistance + atr
}

} // verus!
