//! Synchronisation bridge between a frame-stepped simulation and a remote
//! ledger: the sync timer and dispatcher, the bounded command channels, the
//! per-category worker protocol, and the value transcoders.

pub mod car;
pub mod chance;
pub mod channel;
pub mod coordinate;
pub mod dispatch;
pub mod enemy;
pub mod env;
pub mod felt;
pub mod fixed;
pub mod timer;
pub mod worker;
