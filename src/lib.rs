//! Streaming liquidity-density tracking over a single-instrument
//! market-by-price event stream.

pub mod event;
pub mod window;
pub mod tracker;
