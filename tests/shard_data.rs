use cluster::shard_data::ShardData;
use cluster::types::{ShardError, ShardInfo, ShardStatus, TableInfo, UpdatedTableInfo};

fn table(id: u64, name: &str) -> TableInfo {
    TableInfo::new(id, name.to_string(), 1, "public".to_string())
}

fn request(data: &ShardData, version: u64, t: TableInfo) -> UpdatedTableInfo {
    UpdatedTableInfo {
        shard_info: ShardInfo::new(data.shard_info.id, version, data.shard_info.status),
        table_info: t,
    }
}

fn ready_shard() -> ShardData {
    ShardData::new(ShardInfo::new(7, 0, ShardStatus::Ready), vec![]).unwrap()
}

fn ids(data: &ShardData) -> Vec<u64> {
    let mut v: Vec<u64> = data.tables.iter().map(|t| t.id).collect();
    v.sort();
    v
}

#[test]
fn end_to_end_membership_scenario() {
    let mut d = ready_shard();
    let a = table(1, "a");
    let b = table(2, "b");
    let c = table(3, "c");

    assert_eq!(d.try_create_table(request(&d, 0, a.clone())), Ok(1));
    assert_eq!(d.shard_info.version, 1);
    assert_eq!(ids(&d), vec![1]);

    let r = d.try_create_table(request(&d, 0, b.clone()));
    assert_eq!(
        r,
        Err(ShardError::VersionMismatch {
            shard_info: ShardInfo::new(7, 1, ShardStatus::Ready),
            expect_version: 0
        })
    );
    assert_eq!(d.shard_info.version, 1);
    assert_eq!(ids(&d), vec![1]);

    assert_eq!(d.try_create_table(request(&d, 1, b.clone())), Ok(2));
    assert_eq!(ids(&d), vec![1, 2]);

    assert_eq!(d.try_drop_table(request(&d, 2, a.clone())), Ok(3));
    assert_eq!(ids(&d), vec![2]);

    d.freeze();
    let r = d.try_create_table(request(&d, 3, c));
    assert_eq!(r, Err(ShardError::FrozenShard { shard_id: 7 }));
    assert_eq!(d.shard_info.version, 3);
    assert_eq!(ids(&d), vec![2]);
}

#[test]
fn version_grows_by_one_per_structural_change() {
    let mut d = ready_shard();
    for i in 0..5u64 {
        assert_eq!(d.try_create_table(request(&d, i, table(i + 10, "t"))), Ok(i + 1));
    }
    assert_eq!(d.try_create_table(request(&d, 5, table(10, "t"))), Err(ShardError::AlreadyExists { table_id: 10 }));
    assert_eq!(d.shard_info.version, 5);
    assert_eq!(d.try_drop_table(request(&d, 5, table(12, "t"))), Ok(6));
    assert_eq!(d.shard_info.version, 6);
    assert_eq!(ids(&d), vec![10, 11, 13, 14]);
}

#[test]
fn open_and_close_table_keep_version() {
    let mut d = ready_shard();
    assert_eq!(d.try_open_table(request(&d, 0, table(4, "x"))), Ok(()));
    assert_eq!(d.shard_info.version, 0);
    assert_eq!(ids(&d), vec![4]);
    assert_eq!(d.try_close_table(request(&d, 0, table(4, "x"))), Ok(()));
    assert_eq!(d.shard_info.version, 0);
    assert!(d.tables.is_empty());
}

#[test]
fn stale_token_refused_for_every_mutation() {
    let mut d = ready_shard();
    d.try_create_table(request(&d, 0, table(1, "a"))).unwrap();
    let mismatch = Err(ShardError::VersionMismatch {
        shard_info: ShardInfo::new(7, 1, ShardStatus::Ready),
        expect_version: 9,
    });
    assert_eq!(d.try_create_table(request(&d, 9, table(2, "b"))), mismatch);
    assert_eq!(d.try_drop_table(request(&d, 9, table(1, "a"))), mismatch);
    assert_eq!(d.try_open_table(request(&d, 9, table(2, "b"))), Err(mismatch.unwrap_err()));
    assert_eq!(d.try_close_table(request(&d, 9, table(1, "a"))), Err(mismatch.unwrap_err()));
    assert_eq!(d.shard_info.version, 1);
    assert_eq!(ids(&d), vec![1]);
}

#[test]
fn duplicate_and_missing_tables_refused() {
    let mut d = ready_shard();
    d.try_create_table(request(&d, 0, table(1, "a"))).unwrap();
    assert_eq!(
        d.try_create_table(request(&d, 1, table(1, "other"))),
        Err(ShardError::AlreadyExists { table_id: 1 })
    );
    assert_eq!(
        d.try_open_table(request(&d, 1, table(1, "a"))),
        Err(ShardError::AlreadyExists { table_id: 1 })
    );
    assert_eq!(d.try_drop_table(request(&d, 1, table(5, "e"))), Err(ShardError::NotFound { table_id: 5 }));
    assert_eq!(d.try_close_table(request(&d, 1, table(5, "e"))), Err(ShardError::NotFound { table_id: 5 }));
    assert_eq!(d.shard_info.version, 1);
    assert_eq!(ids(&d), vec![1]);
}

#[test]
fn frozen_shard_refuses_even_correct_tokens() {
    let mut d = ready_shard();
    d.try_create_table(request(&d, 0, table(1, "a"))).unwrap();
    d.freeze();
    assert_eq!(d.shard_info.status, ShardStatus::Frozen);
    let frozen = ShardError::FrozenShard { shard_id: 7 };
    assert_eq!(d.try_create_table(request(&d, 1, table(2, "b"))), Err(frozen));
    assert_eq!(d.try_drop_table(request(&d, 1, table(1, "a"))), Err(frozen));
    assert_eq!(d.try_open_table(request(&d, 0, table(2, "b"))), Err(frozen));
    assert_eq!(d.try_close_table(request(&d, 1, table(1, "a"))), Err(frozen));
    assert_eq!(d.shard_info.version, 1);
    assert_eq!(ids(&d), vec![1]);
}

#[test]
fn only_the_lock_holder_opens() {
    let mut d = ShardData::new(ShardInfo::new(3, 0, ShardStatus::NotOpened), vec![]).unwrap();
    assert!(d.need_open());
    assert_eq!(d.try_begin_open(true), Ok(()));
    assert_eq!(d.shard_info.status, ShardStatus::Opening);
    assert_eq!(d.try_begin_open(false), Err(ShardError::Busy { shard_id: 3 }));
    assert_eq!(d.shard_info.status, ShardStatus::Opening);
    d.finish_open();
    assert!(d.is_opened());
    assert!(!d.need_open());
    assert_eq!(
        d.try_begin_open(true),
        Err(ShardError::InvalidState { shard_id: 3, status: ShardStatus::Ready })
    );
    assert_eq!(d.shard_info.status, ShardStatus::Ready);
}

#[test]
fn failed_open_can_be_retried() {
    let mut d = ShardData::new(ShardInfo::new(3, 0, ShardStatus::NotOpened), vec![]).unwrap();
    assert_eq!(d.try_begin_open(true), Ok(()));
    assert_eq!(d.try_begin_open(true), Ok(()));
    assert_eq!(d.shard_info.status, ShardStatus::Opening);
    d.begin_open();
    d.finish_open();
    assert_eq!(d.shard_info.status, ShardStatus::Ready);
}

#[test]
fn frozen_shard_is_not_opened_again() {
    let mut d = ShardData::new(ShardInfo::new(3, 0, ShardStatus::NotOpened), vec![]).unwrap();
    d.freeze();
    assert_eq!(
        d.try_begin_open(true),
        Err(ShardError::InvalidState { shard_id: 3, status: ShardStatus::Frozen })
    );
    assert_eq!(d.shard_info.status, ShardStatus::Frozen);
}

#[test]
fn new_refuses_repeated_table_ids() {
    let info = ShardInfo::new(1, 0, ShardStatus::NotOpened);
    assert!(ShardData::new(info, vec![table(1, "a"), table(1, "b")]).is_none());
    let d = ShardData::new(info, vec![table(1, "a"), table(2, "b")]).unwrap();
    assert_eq!(d.tables.len(), 2);
}

#[test]
fn find_table_matches_schema_and_name() {
    let info = ShardInfo::new(1, 0, ShardStatus::Ready);
    let other_schema = TableInfo::new(3, "a".to_string(), 2, "other".to_string());
    let d = ShardData::new(info, vec![other_schema, table(1, "a"), table(2, "b")]).unwrap();
    assert_eq!(d.find_table("public", "a").map(|t| t.id), Some(1));
    assert_eq!(d.find_table("other", "a").map(|t| t.id), Some(3));
    assert_eq!(d.find_table("public", "c"), None);
    assert_eq!(d.find_table("other", "b"), None);
}
