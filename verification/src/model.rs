//! The typed vocabulary of the candle feed and the order book that the
//! pipeline's callers speak: accounts, candle granularities, instruments,
//! orders, trades and transactions. These types carry data only; the
//! network client that fills them lives with the caller.

pub mod account;
pub mod candle;
pub mod date_time;
pub mod instrument;
pub mod order;
pub mod trade;
pub mod transaction;
