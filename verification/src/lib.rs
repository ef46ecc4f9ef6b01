//! Scenario construction for exercising a regtest `bitcoind` node.

pub mod driver;
pub mod failure;
pub mod launch;
pub mod laws;
pub mod runs;
pub mod scenario;
pub mod tmp;
pub mod txid;
