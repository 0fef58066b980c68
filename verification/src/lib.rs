//! Per-instruction gas accounting for EVM execution traces, and the join of
//! those accounts with historical prices.

pub mod csvfiles;
pub mod error;
pub mod evmextract;
pub mod evminst;
pub mod evmtrace;
pub mod gethrpc;
pub mod histpx;
pub mod instcount;
pub mod jsonval;
pub mod prices;
pub mod util;
