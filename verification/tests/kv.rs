use tint::kv::memory::MemoryDatabase;
use tint::kv::{indexer_key, load_indexer, set_indexer, KvStore};

#[test]
fn new_database_is_empty() {
    let db = MemoryDatabase::new();
    assert_eq!(db.get(b"anything"), None);
    let db = MemoryDatabase::default();
    assert_eq!(db.get(b""), None);
}

#[test]
fn get_after_put_returns_value() {
    let mut db = MemoryDatabase::new();
    db.put(b"key", b"value");
    assert_eq!(db.get(b"key"), Some(b"value".to_vec()));
    assert_eq!(db.get(b"other"), None);
}

#[test]
fn put_overwrites_and_leaves_other_keys() {
    let mut db = MemoryDatabase::new();
    db.put(b"a", b"1");
    db.put(b"b", b"2");
    db.put(b"a", b"3");
    assert_eq!(db.get(b"a"), Some(b"3".to_vec()));
    assert_eq!(db.get(b"b"), Some(b"2".to_vec()));
}

#[test]
fn batch_put_writes_all_and_later_pairs_win() {
    let mut db = MemoryDatabase::new();
    db.put(b"c", b"old");
    let items: [(&[u8], &[u8]); 4] = [(b"a", b"1"), (b"b", b"2"), (b"a", b"4"), (b"", b"empty")];
    db.batch_put(&items);
    assert_eq!(db.get(b"a"), Some(b"4".to_vec()));
    assert_eq!(db.get(b"b"), Some(b"2".to_vec()));
    assert_eq!(db.get(b""), Some(b"empty".to_vec()));
    assert_eq!(db.get(b"c"), Some(b"old".to_vec()));
}

#[test]
fn empty_batch_changes_nothing() {
    let mut db = MemoryDatabase::new();
    db.put(b"k", b"v");
    db.batch_put(&[]);
    assert_eq!(db.get(b"k"), Some(b"v".to_vec()));
}

#[test]
fn delete_removes_only_its_key() {
    let mut db = MemoryDatabase::new();
    db.put(b"a", b"1");
    db.put(b"b", b"2");
    db.delete(b"a");
    assert_eq!(db.get(b"a"), None);
    assert_eq!(db.get(b"b"), Some(b"2".to_vec()));
    db.delete(b"missing");
    assert_eq!(db.get(b"b"), Some(b"2".to_vec()));
    db.put(b"a", b"5");
    assert_eq!(db.get(b"a"), Some(b"5".to_vec()));
}

#[test]
fn keys_are_compared_by_content() {
    let mut db = MemoryDatabase::new();
    db.put(b"ab", b"1");
    assert_eq!(db.get(b"a"), None);
    assert_eq!(db.get(b"abc"), None);
    let key = vec![b'a', b'b'];
    assert_eq!(db.get(&key), Some(b"1".to_vec()));
}

#[test]
fn indexer_state_is_stored_under_indexer_key() {
    assert_eq!(indexer_key(), b"indexer".to_vec());
    let mut db = MemoryDatabase::new();
    assert_eq!(load_indexer(&db), None);
    set_indexer(&mut db, &[1, 2, 3]);
    assert_eq!(load_indexer(&db), Some(vec![1, 2, 3]));
    assert_eq!(db.get(b"indexer"), Some(vec![1, 2, 3]));
    set_indexer(&mut db, &[4]);
    assert_eq!(load_indexer(&db), Some(vec![4]));
}
