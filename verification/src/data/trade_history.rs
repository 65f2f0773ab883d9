//! Kinds of trades and of orders.
use vstd::prelude::*;

verus! {

/// Side of a trade.
#[derive(Debug, Clone, Copy, PartialEq, Eq, Structural)]
pub enum TradeType {
    Buy,
    Sell,
}

/// Kind of order.
#[derive(Debug, Clone, Copy, PartialEq, Eq, Structural)]
pub enum OrderType {
    /// Executed at once at the market price.
    Market,
    /// Executed at the given price or better.
    Limit,
}

} // verus!
