//! The filter vocabulary for listing trades.

use vstd::prelude::*;

verus! {

/// Which trades a trade listing should return.
#[derive(Clone, Copy, Debug, PartialEq, Eq, Structural)]
pub enum TradeStateFilter {
    Open,
    Closed,
    CloseWhenTradeable,
    All,
}

} // verus!
