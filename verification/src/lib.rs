//! Verified core of the Acala node service: chain-variant identification,
//! the service start-up decisions, the benchmarked weights of the DEX
//! module, and the sovereign accounts of parachains.

pub mod dex_weights;
pub mod executor;
pub mod service;
pub mod sovereign;
pub mod variant;
pub mod weight;
