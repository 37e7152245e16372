//! The trade vocabulary: the states a trade and its attached orders move
//! through.

use vstd::prelude::*;

verus! {

/// The state of a trade.
#[derive(Clone, Copy, Debug, PartialEq, Eq, Structural)]
pub enum TradeState {
    /// The trade is currently open.
    Open,
    /// The trade has been fully closed.
    Closed,
    /// The trade closes as soon as its instrument becomes tradeable.
    CloseWhenTradeable,
}

/// Client-side bookkeeping attached to an order or trade.
#[derive(Clone, Debug, PartialEq, Eq)]
pub struct ClientExtensions {
    /// The client's identifier for the order or trade.
    pub id: String,
    /// A tag associated with the order or trade.
    pub tag: String,
    /// A comment associated with the order or trade.
    pub comment: String,
}

impl ClientExtensions {
    pub fn new(id: String, tag: String, comment: String) -> (r: ClientExtensions)
        ensures
            r == (ClientExtensions { id, tag, comment }),
    {
        ClientExtensions { id, tag, comment }
    }
}

#[derive(Clone, Copy, Debug, PartialEq, Eq, Structural)]
pub enum OrderType {
    Market,
    Limit,
    Stop,
    MarketIfTouched,
    TakeProfit,
    StopLoss,
    GuaranteedStopLoss,
    TrailingStopLoss,
    FixedPrice,
}

/// Which price component decides whether an order triggers.
#[derive(Clone, Copy, Debug, PartialEq, Eq, Structural)]
pub enum OrderTriggerCondition {
    /// The natural side: ask for long orders, bid for short ones.
    Default,
    /// The opposite of the natural side.
    Inverse,
    /// Always the bid.
    Bid,
    /// Always the ask.
    Ask,
    /// Always the midpoint.
    Mid,
}

/// The state of an order attached to a trade.
#[derive(Clone, Copy, Debug, PartialEq, Eq, Structural)]
pub enum OrderState {
    /// The order is pending execution.
    Pending,
    /// The order has been filled.
    Filled,
    /// The order has been triggered.
    Triggered,
    /// The order has been cancelled.
    Cancelled,
}

} // verus!
