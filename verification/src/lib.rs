//! A streaming technical-analysis pipeline: candles are turned into
//! true-range/ATR figures, Renko bricks, local pivots, and a running
//! support/resistance classification.
//!
//! Prices everywhere in this crate are integers: a price is a count of the
//! instrument's smallest representable increment, chosen by the caller.

pub mod atr;
pub mod candle;
pub mod client;
pub mod model;
pub mod higher_high_lower_low;
pub mod pivot_high_low;
pub mod renko;
pub mod strategy;
pub mod support_resistance;
pub mod true_range;

pub use atr::{atr, average, Mean};
pub use candle::{Candle, PRICE_LIMIT};
pub use higher_high_lower_low::{high_low_swing, SwingStatus, SwingStatusIter, SwingType};
pub use pivot_high_low::{pivots, Pivot, PivotError};
pub use renko::{renko, RenkoCandle, RenkoDirection};
pub use strategy::{renko_support_resistance, should_buy};
pub use support_resistance::{support_and_resistance, SupportAndResistance};
pub use true_range::true_ranges;
