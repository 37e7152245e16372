//! The order vocabulary: what kinds of order exist, how they fill, and
//! why they fill or are cancelled.

use vstd::prelude::*;

verus! {

#[derive(Clone, Copy, Debug, PartialEq, Eq, Structural)]
pub enum OrderType {
    Market,
    Limit,
    Stop,
    MarketIfTouched,
    TakeProfit,
    StopLoss,
    GuaranteedStopLoss,
    TrailingStopLoss,
    FixedPrice,
}

/// How filling an order may open or reduce positions.
#[derive(Clone, Copy, Debug, PartialEq, Eq, Structural)]
pub enum OrderPositionFill {
    /// Only open or extend positions.
    OpenOnly,
    /// Fully reduce an existing position before opening a new one.
    ReduceFirst,
    /// Only reduce an existing position.
    ReduceOnly,
    /// Reduce-first for non-hedging accounts, open-only for hedging ones.
    Default,
}

impl Default for OrderPositionFill {
    fn default() -> (r: OrderPositionFill)
        ensures
            r == OrderPositionFill::Default,
    {
        OrderPositionFill::Default
    }
}

/// Which kind of order produced a fill.
#[derive(Clone, Copy, Debug, PartialEq, Eq, Structural)]
pub enum OrderFillReason {
    LimitOrder,
    StopOrder,
    MarketIfTouchedOrder,
    TakeProfitOrder,
    StopLossOrder,
    GuaranteedStopLossOrder,
    TrailingStopLossOrder,
    MarketOrder,
    MarketOrderTradeClose,
    MarketOrderPositionCloseout,
    MarketOrderMarginCloseout,
    MarketOrderDelayedTradeClose,
    FixedPriceOrder,
    FixedPriceOrderPlatformAccountMigration,
    FixedPriceOrderDivisionAccountMigration,
    FixedPriceOrderAdministrativeAction,
}

/// Why an order was cancelled instead of filled.
#[derive(Clone, Copy, Debug, PartialEq, Eq, Structural)]
pub enum OrderCancelReason {
    InternalServerError,
    AccountLocked,
    AccountNewPositionsLocked,
    AccountOrderCreationLocked,
    AccountOrderFillLocked,
    ClientRequest,
    Migration,
    MarketHalted,
    LinkedTradeClosed,
    TimeInForceExpired,
    InsufficientMargin,
    FifoViolation,
    BoundsViolation,
    ClientRequestReplaced,
    DividendAdjustmentReplaced,
    InsufficientLiquidity,
    TakeProfitOnFillGtdTimestampInPast,
    TakeProfitOnFillLoss,
    LosingTakeProfit,
    StopLossOnFillGtdTimestampInPast,
    StopLossOnFillLoss,
    StopLossOnFillPriceDistanceMaximumExceeded,
    StopLossOnFillRequired,
    StopLossOnFillGuaranteedRequired,
}

} // verus!
