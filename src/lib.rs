//! Shard lifecycle and table membership for a storage node.
//!
//! The library holds the per-shard state machine (`ShardData`), the registry
//! of shard handles (`ShardSet`), and the batch types that carry encoded log
//! entries (`LogWriteBatch`).

pub mod types;
pub mod shard_data;
pub mod protocol;
pub mod registry;
pub mod log_batch;
