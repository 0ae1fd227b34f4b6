use vstd::prelude::*;

verus! {

/// Which signal source drives the bot, and its switch:
/// for `Rsi` whether the in-position bookkeeping is used,
/// for `Engulfing` whether the first (core) purchase is made.
#[derive(Debug, Clone, Copy)]
pub enum StrategyType {
    Rsi(bool),
    Engulfing(bool),
}

/// What a strategy recommends, or which order is placed.
#[derive(Debug, Clone, Copy, PartialEq, Eq, Structural)]
pub enum TransactionType {
    Sell,
    Buy,
    Hold,
}

/// How the invested amounts are split.
#[derive(Debug, Clone, Copy)]
pub enum TradingStyle {
    CoreSatellite,
}

} // verus!
