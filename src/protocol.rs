//! Properties of the table-membership protocol and of shard opening, stated
//! over the contracts of `ShardData`.
use vstd::prelude::*;

use crate::shard_data::{
    after_open_attempt, has_table, insert_post, open_outcome, opened, remove_post,
    ShardData,
};
use crate::types::{ShardError, ShardInfo, ShardStatus, UpdatedTableInfo};

verus! {

/// One structural change (`is_create`: a table creation, else a table drop)
/// taking `before` to `after` with outcome `r`, as `try_create_table` and
/// `try_drop_table` make it.
pub open spec fn structural_step(
    before: ShardData,
    after: ShardData,
    req: UpdatedTableInfo,
    is_create: bool,
    r: Result<(), ShardError>,
) -> bool {
    if is_create {
        insert_post(before, after, req, true, r)
    } else {
        remove_post(before, after, req, true, r)
    }
}

/// How many of the outcomes in `rs` are successes.
pub open spec fn successes(rs: Seq<Result<(), ShardError>>) -> nat
    decreases rs.len(),
{
    if rs.len() == 0 {
        0
    } else {
        successes(rs.drop_last()) + if rs.last() is Ok {
            1nat
        } else {
            0nat
        }
    }
}

/// Over any run of table creations and drops, each success raises the
/// version by exactly one and each refusal leaves it as it is; so the version
/// never decreases or skips, and at the end it has grown by the number of
/// successes.
pub proof fn lemma_version_counts_structural_changes(
    states: Seq<ShardData>,
    reqs: Seq<UpdatedTableInfo>,
    creates: Seq<bool>,
    results: Seq<Result<(), ShardError>>,
)
    requires
        states.len() == reqs.len() + 1,
        creates.len() == reqs.len(),
        results.len() == reqs.len(),
        forall|i: int| 0 <= i < reqs.len() ==> #[trigger] states[i].shard_info.version < u64::MAX,
        forall|i: int|
            0 <= i < reqs.len() ==> structural_step(
                #[trigger] states[i],
                states[i + 1],
                reqs[i],
                creates[i],
                results[i],
            ),
    ensures
        forall|i: int|
            0 <= i < reqs.len() ==> #[trigger] states[i + 1].shard_info.version == states[i].shard_info.version
                + if results[i] is Ok {
                1int
            } else {
                0int
            },
        states.last().shard_info.version == states[0].shard_info.version + successes(results),
    decreases reqs.len(),
{
    assert forall|i: int|
        0 <= i < reqs.len() implies #[trigger] states[i + 1].shard_info.version
        == states[i].shard_info.version + if results[i] is Ok {
        1int
    } else {
        0int
    } by {
        assert(structural_step(states[i], states[i + 1], reqs[i], creates[i], results[i]));
    }
    if reqs.len() > 0 {
        let n = reqs.len() - 1;
        let s2 = states.drop_last();
        let q2 = reqs.drop_last();
        let c2 = creates.drop_last();
        let r2 = results.drop_last();
        assert forall|i: int| 0 <= i < q2.len() implies #[trigger] s2[i].shard_info.version < u64::MAX by {
            assert(s2[i] == states[i]);
        }
        assert forall|i: int|
            0 <= i < q2.len() implies structural_step(#[trigger] s2[i], s2[i + 1], q2[i], c2[i], r2[i]) by {
            assert(s2[i] == states[i]);
            assert(s2[i + 1] == states[i + 1]);
            assert(structural_step(states[i], states[i + 1], reqs[i], creates[i], results[i]));
        }
        lemma_version_counts_structural_changes(s2, q2, c2, r2);
        assert(states[n + 1].shard_info.version == states[n].shard_info.version + if results[n] is Ok {
            1int
        } else {
            0int
        });
        assert(s2.last() == states[n]);
    }
}

/// Opening or closing a table never changes the shard version.
pub proof fn lemma_materialization_keeps_version(
    before: ShardData,
    after: ShardData,
    req: UpdatedTableInfo,
    r: Result<(), ShardError>,
)
    requires
        insert_post(before, after, req, false, r) || remove_post(before, after, req, false, r),
    ensures
        after.shard_info.version == before.shard_info.version,
{
}

/// A table mutation on a shard that is not frozen, whose version token
/// differs from the stored version, fails with a version mismatch naming the
/// current shard info and the token, and changes nothing.
pub proof fn lemma_stale_version_refused(
    before: ShardData,
    after: ShardData,
    req: UpdatedTableInfo,
    inc_version: bool,
    r: Result<(), ShardError>,
)
    requires
        before.shard_info.status != ShardStatus::Frozen,
        req.shard_info.version != before.shard_info.version,
        insert_post(before, after, req, inc_version, r) || remove_post(
            before,
            after,
            req,
            inc_version,
            r,
        ),
    ensures
        r == Err::<(), ShardError>(
            ShardError::VersionMismatch {
                shard_info: before.shard_info,
                expect_version: req.shard_info.version,
            },
        ),
        after == before,
{
}

/// Adding a table whose id the shard already holds fails with
/// `AlreadyExists` and changes nothing, once the shard is not frozen and the
/// version token is current.
pub proof fn lemma_duplicate_table_refused(
    before: ShardData,
    after: ShardData,
    req: UpdatedTableInfo,
    inc_version: bool,
    r: Result<(), ShardError>,
)
    requires
        before.shard_info.status != ShardStatus::Frozen,
        req.shard_info.version == before.shard_info.version,
        has_table(before.tables@, req.table_info.id),
        insert_post(before, after, req, inc_version, r),
    ensures
        r == Err::<(), ShardError>(ShardError::AlreadyExists { table_id: req.table_info.id }),
        after == before,
{
}

/// Removing a table whose id the shard does not hold fails with `NotFound`
/// and changes nothing, once the shard is not frozen and the version token is
/// current.
pub proof fn lemma_missing_table_refused(
    before: ShardData,
    after: ShardData,
    req: UpdatedTableInfo,
    inc_version: bool,
    r: Result<(), ShardError>,
)
    requires
        before.shard_info.status != ShardStatus::Frozen,
        req.shard_info.version == before.shard_info.version,
        !has_table(before.tables@, req.table_info.id),
        remove_post(before, after, req, inc_version, r),
    ensures
        r == Err::<(), ShardError>(ShardError::NotFound { table_id: req.table_info.id }),
        after == before,
{
}

/// On a frozen shard every table mutation fails with `FrozenShard` and
/// changes nothing, whatever its version token.
pub proof fn lemma_frozen_shard_refuses(
    before: ShardData,
    after: ShardData,
    req: UpdatedTableInfo,
    inc_version: bool,
    r: Result<(), ShardError>,
)
    requires
        before.shard_info.status == ShardStatus::Frozen,
        insert_post(before, after, req, inc_version, r) || remove_post(
            before,
            after,
            req,
            inc_version,
            r,
        ),
    ensures
        r == Err::<(), ShardError>(ShardError::FrozenShard { shard_id: req.shard_info.id }),
        after == before,
{
}

/// Two open attempts on a shard that was never opened, while one of them
/// holds the operator lock: the holder proceeds and moves the shard to
/// opening, the other fails at once as busy and changes nothing; once the
/// holder completes the shard is ready, and no later attempt opens it again.
pub proof fn lemma_one_open_proceeds(info: ShardInfo)
    requires
        info.status == ShardStatus::NotOpened,
    ensures
        open_outcome(info, true) is Ok,
        after_open_attempt(info, true).status == ShardStatus::Opening,
        open_outcome(after_open_attempt(info, true), false) == Err::<(), ShardError>(
            ShardError::Busy { shard_id: info.id },
        ),
        after_open_attempt(after_open_attempt(info, true), false) == after_open_attempt(info, true),
        opened(after_open_attempt(info, true)).status == ShardStatus::Ready,
        forall|lock_acquired: bool|
            #![auto]
            open_outcome(opened(after_open_attempt(info, true)), lock_acquired) is Err
                && after_open_attempt(opened(after_open_attempt(info, true)), lock_acquired)
                == opened(after_open_attempt(info, true)),
{
}

} // verus!
