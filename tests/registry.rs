use std::sync::Arc;

use cluster::registry::ShardSet;

#[test]
fn registry_scenario() {
    let h1 = Arc::new("h1");
    let h2 = Arc::new("h2");
    let h3 = Arc::new("h3");
    let mut set: ShardSet<Arc<&str>> = ShardSet::new();

    assert!(set.insert(1, h1.clone()).is_none());
    assert!(Arc::ptr_eq(&set.get(1).unwrap(), &h1));
    assert!(Arc::ptr_eq(&set.remove(1).unwrap(), &h1));
    assert!(set.get(1).is_none());
    assert!(set.remove(1).is_none());
    assert!(set.insert(1, h2.clone()).is_none());
    assert!(Arc::ptr_eq(&set.insert(1, h3.clone()).unwrap(), &h2));
    assert!(Arc::ptr_eq(&set.get(1).unwrap(), &h3));
}

#[test]
fn all_shards_lists_every_handle() {
    let mut set: ShardSet<u32> = ShardSet::new();
    assert!(set.all_shards().is_empty());
    set.insert(1, 10);
    set.insert(2, 20);
    set.insert(3, 30);
    set.insert(2, 21);
    let mut all = set.all_shards();
    all.sort();
    assert_eq!(all, vec![10, 21, 30]);
}
