//! Decision logic of a Binance spot trading bot: the RSI in-position
//! strategy, the core-satellite schedule driven by engulfing candle
//! patterns, the candle history it trades on, and the small pieces of
//! exchange bookkeeping (stream names, order status, symbol filters).
//!
//! Everything that talks to the exchange or computes on floating-point
//! prices lives outside this crate; the functions here take the plain
//! values such work produces and decide what happens next.

pub mod utility;
pub mod strategy;
pub mod exchange;
