use vstd::prelude::*;

use crate::types::{
    ShardError, ShardId, ShardInfo, ShardStatus, ShardVersion, TableId, TableInfo,
    UpdatedTableInfo,
};

verus! {

/// Whether some table in `tables` has the id `id`.
pub open spec fn has_table(tables: Seq<TableInfo>, id: TableId) -> bool {
    exists|i: int| 0 <= i < tables.len() && #[trigger] tables[i].id == id
}

/// No two tables in `tables` share an id.
pub open spec fn table_ids_unique(tables: Seq<TableInfo>) -> bool {
    forall|i: int, j: int|
        0 <= i < tables.len() && 0 <= j < tables.len() && i != j ==> #[trigger] tables[i].id
            != #[trigger] tables[j].id
}

/// The outcome of the checks that precede a table membership change, in the
/// order in which they are made: frozen shard, version token, then presence
/// of the table (`adding` asks for it to be absent, removal for it to be
/// present).
pub open spec fn membership_check(
    current: ShardInfo,
    tables: Seq<TableInfo>,
    request: ShardInfo,
    table_id: TableId,
    adding: bool,
) -> Result<(), ShardError> {
    if current.status == ShardStatus::Frozen {
        Err(ShardError::FrozenShard { shard_id: request.id })
    } else if current.version != request.version {
        Err(ShardError::VersionMismatch { shard_info: current, expect_version: request.version })
    } else if adding && has_table(tables, table_id) {
        Err(ShardError::AlreadyExists { table_id })
    } else if !adding && !has_table(tables, table_id) {
        Err(ShardError::NotFound { table_id })
    } else {
        Ok(())
    }
}

/// The shard info after a successful membership change.
pub open spec fn bumped(info: ShardInfo, inc_version: bool) -> ShardInfo {
    if inc_version {
        ShardInfo { version: (info.version + 1) as u64, ..info }
    } else {
        info
    }
}

/// `after` holds the tables of `before` but the one with id `id`, of which
/// `before` held exactly one.
pub open spec fn removed_table(before: Seq<TableInfo>, after: Seq<TableInfo>, id: TableId) -> bool {
    &&& after.len() + 1 == before.len()
    &&& forall|t: TableInfo| #[trigger] after.contains(t) <==> (before.contains(t) && t.id != id)
}

/// `r` with the version of a success dropped.
pub open spec fn as_unit(r: Result<ShardVersion, ShardError>) -> Result<(), ShardError> {
    match r {
        Ok(_) => Ok(()),
        Err(e) => Err(e),
    }
}

/// What an insertion of `req`'s table does to the shard `before`, giving
/// `after` and the outcome `r`: a refused change leaves the shard as it is; an
/// accepted one appends the table and, when `inc_version` holds, bumps the
/// version.
pub open spec fn insert_post(
    before: ShardData,
    after: ShardData,
    req: UpdatedTableInfo,
    inc_version: bool,
    r: Result<(), ShardError>,
) -> bool {
    match membership_check(before.shard_info, before.tables@, req.shard_info, req.table_info.id, true) {
        Err(e) => r == Err::<(), ShardError>(e) && after == before,
        Ok(_) => {
            &&& after.tables@ == before.tables@.push(req.table_info)
            &&& after.shard_info == bumped(before.shard_info, inc_version)
            &&& r is Ok
        },
    }
}

/// What a removal of `req`'s table does to the shard `before`, giving `after`
/// and the outcome `r`: a refused change leaves the shard as it is; an
/// accepted one takes the table out and, when `inc_version` holds, bumps the
/// version.
pub open spec fn remove_post(
    before: ShardData,
    after: ShardData,
    req: UpdatedTableInfo,
    inc_version: bool,
    r: Result<(), ShardError>,
) -> bool {
    match membership_check(before.shard_info, before.tables@, req.shard_info, req.table_info.id, false) {
        Err(e) => r == Err::<(), ShardError>(e) && after == before,
        Ok(_) => {
            &&& removed_table(before.tables@, after.tables@, req.table_info.id)
            &&& after.shard_info == bumped(before.shard_info, inc_version)
            &&& r is Ok
        },
    }
}

/// Whether a shard in status `status` may start opening. A ready shard is
/// already opened; a frozen one stays frozen.
pub open spec fn can_begin_open(status: ShardStatus) -> bool {
    status == ShardStatus::NotOpened || status == ShardStatus::Opening
}

/// The outcome of an open attempt on a shard with info `info`, where
/// `lock_acquired` says whether the non-blocking attempt on the operator lock
/// succeeded.
pub open spec fn open_outcome(info: ShardInfo, lock_acquired: bool) -> Result<(), ShardError> {
    if !lock_acquired {
        Err(ShardError::Busy { shard_id: info.id })
    } else if !can_begin_open(info.status) {
        Err(ShardError::InvalidState { shard_id: info.id, status: info.status })
    } else {
        Ok(())
    }
}

/// The shard info after an open attempt.
pub open spec fn after_open_attempt(info: ShardInfo, lock_acquired: bool) -> ShardInfo {
    if open_outcome(info, lock_acquired) is Ok {
        ShardInfo { status: ShardStatus::Opening, ..info }
    } else {
        info
    }
}

/// The shard info once an open has completed.
pub open spec fn opened(info: ShardInfo) -> ShardInfo {
    ShardInfo { status: ShardStatus::Ready, ..info }
}

/// The state of one shard: its info and the tables it holds.
#[derive(Debug)]
pub struct ShardData {
    pub shard_info: ShardInfo,
    pub tables: Vec<TableInfo>,
}

impl ShardData {
    /// Table ids are unique within the shard.
    pub open spec fn wf(&self) -> bool {
        table_ids_unique(self.tables@)
    }

    /// Builds the state of a shard from its info and tables; refuses a table
    /// list with a repeated id.
    pub fn new(shard_info: ShardInfo, tables: Vec<TableInfo>) -> (r: Option<ShardData>)
        ensures
            r is Some <==> table_ids_unique(tables@),
            r matches Some(d) ==> d.wf() && d.shard_info == shard_info && d.tables@ == tables@,
    {
        let n = tables.len();
        let mut i: usize = 0;
        while i < n
            invariant
                n == tables.len(),
                i <= n,
                forall|a: int, b: int|
                    0 <= a < i && 0 <= b < n && a != b ==> #[trigger] tables@[a].id
                        != #[trigger] tables@[b].id,
            decreases n - i,
        {
            let mut j: usize = 0;
            while j < n
                invariant
                    n == tables.len(),
                    i < n,
                    j <= n,
                    forall|a: int, b: int|
                        0 <= a < i && 0 <= b < n && a != b ==> #[trigger] tables@[a].id
                            != #[trigger] tables@[b].id,
                    forall|b: int| 0 <= b < j && b != i ==> tables@[i as int].id != #[trigger] tables@[b].id,
                decreases n - j,
            {
                if j != i && tables[i].id == tables[j].id {
                    assert(!table_ids_unique(tables@)) by {
                        assert(tables@[i as int].id == tables@[j as int].id);
                    }
                    return None;
                }
                j += 1;
            }
            i += 1;
        }
        Some(ShardData { shard_info, tables })
    }

    /// The first table whose schema name and name match exactly.
    pub fn find_table(&self, schema_name: &str, table_name: &str) -> (r: Option<TableInfo>)
        ensures
            match r {
                Some(t) => exists|i: int|
                    0 <= i < self.tables@.len() && self.tables@[i] == t
                        && t.schema_name@ == schema_name@ && t.name@ == table_name@
                        && forall|k: int|
                        0 <= k < i ==> !(#[trigger] self.tables@[k].schema_name@ == schema_name@
                            && self.tables@[k].name@ == table_name@),
                None => forall|k: int|
                    0 <= k < self.tables@.len() ==> !(#[trigger] self.tables@[k].schema_name@
                        == schema_name@ && self.tables@[k].name@ == table_name@),
            },
    {
        let schema = schema_name.to_string();
        let name = table_name.to_string();
        let mut i: usize = 0;
        while i < self.tables.len()
            invariant
                i <= self.tables@.len(),
                schema@ == schema_name@,
                name@ == table_name@,
                forall|k: int|
                    0 <= k < i ==> !(#[trigger] self.tables@[k].schema_name@ == schema_name@
                        && self.tables@[k].name@ == table_name@),
            decreases self.tables@.len() - i,
        {
            let t = &self.tables[i];
            if t.schema_name == schema && t.name == name {
                return Some(t.clone());
            }
            i += 1;
        }
        None
    }

    /// Marks the shard frozen; nothing else changes.
    pub fn freeze(&mut self)
        ensures
            final(self).shard_info == (ShardInfo { status: ShardStatus::Frozen, ..old(self).shard_info }),
            final(self).tables@ == old(self).tables@,
    {
        self.shard_info.status = ShardStatus::Frozen;
    }

    /// Marks the shard opening.
    pub fn begin_open(&mut self)
        requires
            can_begin_open(old(self).shard_info.status),
        ensures
            final(self).shard_info == (ShardInfo { status: ShardStatus::Opening, ..old(self).shard_info }),
            final(self).tables@ == old(self).tables@,
    {
        self.shard_info.status = ShardStatus::Opening;
    }

    /// Marks an opening shard ready.
    pub fn finish_open(&mut self)
        requires
            old(self).shard_info.status == ShardStatus::Opening,
        ensures
            final(self).shard_info == opened(old(self).shard_info),
            final(self).tables@ == old(self).tables@,
    {
        self.shard_info.status = ShardStatus::Ready;
    }

    /// The decision at the start of an open: `lock_acquired` says whether the
    /// non-blocking attempt on the operator lock succeeded. On success the
    /// shard is opening; on refusal nothing changes.
    pub fn try_begin_open(&mut self, lock_acquired: bool) -> (r: Result<(), ShardError>)
        ensures
            r == open_outcome(old(self).shard_info, lock_acquired),
            final(self).shard_info == after_open_attempt(old(self).shard_info, lock_acquired),
            final(self).tables@ == old(self).tables@,
    {
        if !lock_acquired {
            return Err(ShardError::Busy { shard_id: self.shard_info.id });
        }
        if !self.need_open() || self.is_frozen() {
            return Err(
                ShardError::InvalidState { shard_id: self.shard_info.id, status: self.shard_info.status },
            );
        }
        self.begin_open();
        Ok(())
    }

    /// A shard needs opening unless it is ready.
    pub fn need_open(&self) -> (r: bool)
        ensures
            r == (self.shard_info.status != ShardStatus::Ready),
    {
        !self.is_opened()
    }

    /// A shard is opened exactly when it is ready.
    pub fn is_opened(&self) -> (r: bool)
        ensures
            r == (self.shard_info.status == ShardStatus::Ready),
    {
        self.shard_info.is_opened()
    }

    fn is_frozen(&self) -> (r: bool)
        ensures
            r == (self.shard_info.status == ShardStatus::Frozen),
    {
        matches!(self.shard_info.status, ShardStatus::Frozen)
    }

    fn inc_shard_version(&mut self)
        requires
            old(self).shard_info.version < u64::MAX,
        ensures
            final(self).shard_info == bumped(old(self).shard_info, true),
            final(self).tables@ == old(self).tables@,
    {
        self.shard_info.version = self.shard_info.version + 1;
    }

    /// Creates a table on the shard: the version goes up by one and the new
    /// version is returned.
    pub fn try_create_table(&mut self, updated_info: UpdatedTableInfo) -> (r: Result<
        ShardVersion,
        ShardError,
    >)
        requires
            old(self).wf(),
            old(self).shard_info.version < u64::MAX,
        ensures
            final(self).wf(),
            insert_post(*old(self), *final(self), updated_info, true, as_unit(r)),
            r matches Ok(v) ==> v == final(self).shard_info.version,
    {
        self.try_insert_table(updated_info, true)
    }

    /// Opens a known table on the shard: the table joins the shard's list and
    /// the version stays as it is.
    pub fn try_open_table(&mut self, updated_info: UpdatedTableInfo) -> (r: Result<(), ShardError>)
        requires
            old(self).wf(),
        ensures
            final(self).wf(),
            insert_post(*old(self), *final(self), updated_info, false, r),
    {
        match self.try_insert_table(updated_info, false) {
            Ok(_) => Ok(()),
            Err(e) => Err(e),
        }
    }

    /// Drops a table from the shard: the version goes up by one and the new
    /// version is returned.
    pub fn try_drop_table(&mut self, updated_info: UpdatedTableInfo) -> (r: Result<
        ShardVersion,
        ShardError,
    >)
        requires
            old(self).wf(),
            old(self).shard_info.version < u64::MAX,
        ensures
            final(self).wf(),
            remove_post(*old(self), *final(self), updated_info, true, as_unit(r)),
            r matches Ok(v) ==> v == final(self).shard_info.version,
    {
        self.try_remove_table(updated_info, true)
    }

    /// Closes a table on the shard: the table leaves the shard's list and the
    /// version stays as it is.
    pub fn try_close_table(&mut self, updated_info: UpdatedTableInfo) -> (r: Result<(), ShardError>)
        requires
            old(self).wf(),
        ensures
            final(self).wf(),
            remove_post(*old(self), *final(self), updated_info, false, r),
    {
        match self.try_remove_table(updated_info, false) {
            Ok(_) => Ok(()),
            Err(e) => Err(e),
        }
    }

    /// Adds the table of `updated_info` after the membership checks; bumps the
    /// version when `inc_version` holds, and returns the resulting version.
    fn try_insert_table(&mut self, updated_info: UpdatedTableInfo, inc_version: bool) -> (r: Result<
        ShardVersion,
        ShardError,
    >)
        requires
            old(self).wf(),
            inc_version ==> old(self).shard_info.version < u64::MAX,
        ensures
            final(self).wf(),
            insert_post(*old(self), *final(self), updated_info, inc_version, as_unit(r)),
            r matches Ok(v) ==> v == final(self).shard_info.version,
    {
        let UpdatedTableInfo { shard_info: curr_shard_info, table_info: new_table } = updated_info;
        if self.is_frozen() {
            return Err(ShardError::FrozenShard { shard_id: curr_shard_info.id });
        }
        if self.shard_info.version != curr_shard_info.version {
            return Err(
                ShardError::VersionMismatch {
                    shard_info: self.shard_info,
                    expect_version: curr_shard_info.version,
                },
            );
        }
        if let Some(i) = self.position_of(new_table.id) {
            return Err(ShardError::AlreadyExists { table_id: new_table.id });
        }
        let ghost before = self.tables@;
        self.tables.push(new_table);
        proof {
            assert forall|a: int, b: int|
                0 <= a < self.tables@.len() && 0 <= b < self.tables@.len() && a != b implies
                #[trigger] self.tables@[a].id != #[trigger] self.tables@[b].id by {
                if a == before.len() as int {
                    assert(before[b].id == self.tables@[b].id);
                } else if b == before.len() as int {
                    assert(before[a].id == self.tables@[a].id);
                }
            }
        }
        if inc_version {
            self.inc_shard_version();
        }
        Ok(self.shard_info.version)
    }

    /// Removes the table with the id of `updated_info`'s table after the
    /// membership checks; bumps the version when `inc_version` holds, and
    /// returns the resulting version. The order of the remaining tables is not
    /// kept.
    fn try_remove_table(&mut self, updated_info: UpdatedTableInfo, inc_version: bool) -> (r: Result<
        ShardVersion,
        ShardError,
    >)
        requires
            old(self).wf(),
            inc_version ==> old(self).shard_info.version < u64::MAX,
        ensures
            final(self).wf(),
            remove_post(*old(self), *final(self), updated_info, inc_version, as_unit(r)),
            r matches Ok(v) ==> v == final(self).shard_info.version,
    {
        let UpdatedTableInfo { shard_info: curr_shard_info, table_info: new_table } = updated_info;
        if self.is_frozen() {
            return Err(ShardError::FrozenShard { shard_id: curr_shard_info.id });
        }
        if self.shard_info.version != curr_shard_info.version {
            return Err(
                ShardError::VersionMismatch {
                    shard_info: self.shard_info,
                    expect_version: curr_shard_info.version,
                },
            );
        }
        let idx = match self.position_of(new_table.id) {
            Some(i) => i,
            None => {
                return Err(ShardError::NotFound { table_id: new_table.id });
            },
        };
        let ghost before = self.tables@;
        let ghost id = new_table.id;
        self.tables.swap_remove(idx);
        proof {
            let after = self.tables@;
            let last = before.len() - 1;
            assert(after =~= before.update(idx as int, before[last]).drop_last());
            assert forall|t: TableInfo| #[trigger] after.contains(t) <==> (before.contains(t) && t.id != id) by {
                if after.contains(t) {
                    let k = choose|k: int| 0 <= k < after.len() && after[k] == t;
                    if k == idx as int {
                        assert(before[last] == t);
                        assert(last != idx as int);
                    } else {
                        assert(before[k] == t);
                        assert(k != idx as int);
                    }
                }
                if before.contains(t) && t.id != id {
                    let k = choose|k: int| 0 <= k < before.len() && before[k] == t;
                    assert(k != idx as int);
                    if k == last {
                        assert(after[idx as int] == t);
                    } else {
                        assert(after[k] == t);
                    }
                }
            }
            assert forall|a: int, b: int|
                0 <= a < after.len() && 0 <= b < after.len() && a != b implies
                #[trigger] after[a].id != #[trigger] after[b].id by {
                let ia = if a == idx as int { last } else { a };
                let ib = if b == idx as int { last } else { b };
                assert(after[a] == before[ia]);
                assert(after[b] == before[ib]);
            }
        }
        if inc_version {
            self.inc_shard_version();
        }
        Ok(self.shard_info.version)
    }

    /// The position of the table with id `id`, if the shard holds one.
    fn position_of(&self, id: TableId) -> (r: Option<usize>)
        ensures
            match r {
                Some(i) => i < self.tables@.len() && self.tables@[i as int].id == id,
                None => !has_table(self.tables@, id),
            },
    {
        let mut i: usize = 0;
        while i < self.tables.len()
            invariant
                i <= self.tables@.len(),
                forall|k: int| 0 <= k < i ==> #[trigger] self.tables@[k].id != id,
            decreases self.tables@.len() - i,
        {
            if self.tables[i].id == id {
                return Some(i);
            }
            i += 1;
        }
        None
    }
}

} // verus!
