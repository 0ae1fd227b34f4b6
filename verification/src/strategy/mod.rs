pub mod rsi;
pub mod engulfing;
pub mod core_satellite;
