use vstd::prelude::*;

verus! {

/// Identifier of a shard on a node.
pub type ShardId = u32;

/// Table-membership generation of a shard.
pub type ShardVersion = u64;

/// Identifier of a table.
pub type TableId = u64;

/// Identifier of a schema.
pub type SchemaId = u32;

/// Lifecycle status of a shard.
#[derive(Clone, Copy, Debug, PartialEq, Eq, Structural)]
pub enum ShardStatus {
    NotOpened,
    Opening,
    Ready,
    Frozen,
}

/// Identity, version and status of a shard.
#[derive(Clone, Copy, Debug, PartialEq, Eq, Structural)]
pub struct ShardInfo {
    pub id: ShardId,
    pub version: ShardVersion,
    pub status: ShardStatus,
}

impl ShardInfo {
    pub fn new(id: ShardId, version: ShardVersion, status: ShardStatus) -> (r: ShardInfo)
        ensures
            r == (ShardInfo { id, version, status }),
    {
        ShardInfo { id, version, status }
    }

    /// A shard is opened exactly when it is ready.
    pub fn is_opened(&self) -> (r: bool)
        ensures
            r == (self.status == ShardStatus::Ready),
    {
        self.status == ShardStatus::Ready
    }
}

/// Descriptor of a table known to a shard.
#[derive(Debug, PartialEq, Eq)]
pub struct TableInfo {
    pub id: TableId,
    pub name: String,
    pub schema_id: SchemaId,
    pub schema_name: String,
}

impl Clone for TableInfo {
    fn clone(&self) -> (r: Self)
        ensures
            r == *self,
    {
        TableInfo {
            id: self.id,
            name: self.name.clone(),
            schema_id: self.schema_id,
            schema_name: self.schema_name.clone(),
        }
    }
}

impl TableInfo {
    pub fn new(id: TableId, name: String, schema_id: SchemaId, schema_name: String) -> (r: TableInfo)
        ensures
            r == (TableInfo { id, name, schema_id, schema_name }),
    {
        TableInfo { id, name, schema_id, schema_name }
    }
}

/// A table mutation request: the shard state the caller believes current, and
/// the table to add or remove.
#[derive(Debug, Clone)]
pub struct UpdatedTableInfo {
    pub shard_info: ShardInfo,
    pub table_info: TableInfo,
}

/// The state a shard is assigned with: its info and its tables.
#[derive(Debug, Clone)]
pub struct TablesOfShard {
    pub shard_info: ShardInfo,
    pub tables: Vec<TableInfo>,
}

/// Why a shard or table operation was refused.
#[derive(Debug, Clone, Copy, PartialEq, Eq, Structural)]
pub enum ShardError {
    /// Another mutating operation holds the shard's operator lock.
    Busy { shard_id: ShardId },
    /// The shard is already opened, or frozen, so it cannot be opened.
    InvalidState { shard_id: ShardId, status: ShardStatus },
    /// The shard is frozen: no table membership change is accepted.
    FrozenShard { shard_id: ShardId },
    /// The caller's version token differs from the stored one.
    VersionMismatch { shard_info: ShardInfo, expect_version: ShardVersion },
    /// A table with this id is already in the shard.
    AlreadyExists { table_id: TableId },
    /// No table with this id is in the shard.
    NotFound { table_id: TableId },
}

} // verus!
