pub mod candles;
pub mod orders;
pub mod symbol;
