//! Chunk-based ledger execution: the commit queue, the pipeline that stages
//! chunks through ledger update and commit, and the replay of history.
//! Beside it, the profiler that logs what a transaction is charged.

pub mod chunk;
pub mod commit_queue;
pub mod epochs;
pub mod error;
pub mod executor;
pub mod facade;
pub mod gas_log;
pub mod gas_profiler;
mod outside;
pub mod replay;
pub mod types;
pub mod verify_mode;
