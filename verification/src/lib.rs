//! Detection, profitability estimation and latency accounting for a lending
//! protocol liquidation pipeline.

pub mod address;
pub mod aggregate;
pub mod amount;
pub mod backtesting;
pub mod config;
pub mod executor;
pub mod liquidation_detector;
pub mod mempool_streamer;
pub mod metrics;
pub mod simulator;
