//! The transaction vocabulary: everything the broker can record against
//! an account.

use vstd::prelude::*;

verus! {

#[derive(Clone, Copy, Debug, PartialEq, Eq, Structural)]
pub enum TransactionType {
    Create,
    Close,
    Reopen,
    ClientConfigure,
    ClientConfigureReject,
    TransferFunds,
    TransferFundsReject,
    MarketOrder,
    MarketOrderReject,
    FixedPriceOrder,
    LimitOrder,
    LimitOrderReject,
    StopOrder,
    StopOrderReject,
    MarketIfTouchedOrder,
    MarketIfTouchedOrderReject,
    TakeProfitOrder,
    TakeProfitOrderReject,
    StopLossOrder,
    StopLossOrderReject,
    GuaranteedStopLossOrder,
    GuaranteedStopLossOrderReject,
    TrailingStopLossOrder,
    TrailingStopLossOrderReject,
    OrderFill,
    OrderCancel,
    OrderCancelReject,
    OrderClientExtensionsModify,
    OrderClientExtensionsModifyReject,
    TradeClientExtensionsModify,
    TradeClientExtensionsModifyReject,
    MarginCallEnter,
    MarginCallExtend,
    MarginCallExit,
    DelayedTradeClosure,
    DailyFinancing,
    DividendAdjustment,
    ResetResettablePl,
}

} // verus!
