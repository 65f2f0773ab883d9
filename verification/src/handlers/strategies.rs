//! What a strategy's signal turns into, in live trading and in a backtest.
use vstd::prelude::*;
use crate::app_state::TradingMode;

verus! {

/// The kind of signal a strategy gives.
#[derive(Debug, Clone, Copy, PartialEq, Eq, Structural)]
pub enum SignalKind {
    Buy,
    Sell,
    Hold,
}

/// What is done on a signal.
#[derive(Debug, Clone, Copy, PartialEq, Eq, Structural)]
pub enum SignalOrder {
    /// Nothing is traded.
    Skip,
    /// A long position is opened.
    OpenLong,
    /// The open position of the symbol is closed.
    ClosePosition,
    /// A short position is opened.
    OpenShort,
}

/// The order a signal gives: buys are dropped in sell-only mode and sells in buy-only
/// mode; only a demo account trades; a sell closes the symbol's open position when it
/// has one and opens a short one otherwise.
pub open spec fn order_for(signal: SignalKind, mode: TradingMode, is_demo: bool, has_open_position: bool) -> SignalOrder {
    match signal {
        SignalKind::Hold => SignalOrder::Skip,
        SignalKind::Buy => if mode == TradingMode::SellOnly || !is_demo {
            SignalOrder::Skip
        } else {
            SignalOrder::OpenLong
        },
        SignalKind::Sell => if mode == TradingMode::BuyOnly || !is_demo {
            SignalOrder::Skip
        } else if has_open_position {
            SignalOrder::ClosePosition
        } else {
            SignalOrder::OpenShort
        },
    }
}

/// On a demo account, a sell that the mode lets through closes the symbol's open
/// position when there is one, and opens a short only when there is none; which of the
/// modes letting sells through is chosen makes no difference.
pub proof fn law_sell_closes_before_shorting(mode: TradingMode, has_open_position: bool)
    requires
        mode != TradingMode::BuyOnly,
    ensures
        has_open_position ==> order_for(SignalKind::Sell, mode, true, has_open_position) == SignalOrder::ClosePosition,
        !has_open_position ==> order_for(SignalKind::Sell, mode, true, has_open_position) == SignalOrder::OpenShort,
        order_for(SignalKind::Sell, mode, true, has_open_position) == order_for(
            SignalKind::Sell,
            TradingMode::Both,
            true,
            has_open_position,
        ),
{
}

/// On a demo account, a buy that the mode lets through always opens a long position,
/// whether or not a position is open; nothing is ever traded on a live account, on a
/// hold, or on a signal the mode filters out.
pub proof fn law_buys_open_long_and_filters_skip(signal: SignalKind, mode: TradingMode, is_demo: bool, has_open_position: bool)
    ensures
        mode != TradingMode::SellOnly ==> order_for(SignalKind::Buy, mode, true, has_open_position) == SignalOrder::OpenLong,
        !is_demo ==> order_for(signal, mode, is_demo, has_open_position) == SignalOrder::Skip,
        order_for(SignalKind::Hold, mode, is_demo, has_open_position) == SignalOrder::Skip,
        mode == TradingMode::SellOnly ==> order_for(SignalKind::Buy, mode, is_demo, has_open_position) == SignalOrder::Skip,
        mode == TradingMode::BuyOnly ==> order_for(SignalKind::Sell, mode, is_demo, has_open_position) == SignalOrder::Skip,
{
}

/// Decides what a strategy's signal does, given the strategy's trading mode, whether
/// the account is a demo one and whether the symbol has an open position.
pub fn signal_order(signal: SignalKind, mode: TradingMode, is_demo: bool, has_open_position: bool) -> (o: SignalOrder)
    ensures
        o == order_for(signal, mode, is_demo, has_open_position),
{
    let is_buy = match signal {
        SignalKind::Hold => {
            return SignalOrder::Skip;
        },
        SignalKind::Buy => true,
        SignalKind::Sell => false,
    };
    if !mode.allows_signal(is_buy) || !is_demo {
        return SignalOrder::Skip;
    }
    if is_buy {
        SignalOrder::OpenLong
    } else if has_open_position {
        SignalOrder::ClosePosition
    } else {
        SignalOrder::OpenShort
    }
}

} // verus!
