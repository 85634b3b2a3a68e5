use dbpool::handle::Handle;
use dbpool::store::DbError;
use dbpool::store::DbMap;

#[test]
fn get_returns_stored_bytes() {
    let mut m = DbMap::new();
    m.insert(b"k".to_vec(), vec![0x01, 0x02]);
    let h = m.get_blocking(&b"k".to_vec()).unwrap();
    assert_eq!(h.bytes(), &vec![0x01, 0x02]);
    assert_eq!(h.len(), 2);
}

#[test]
fn get_missing_key_is_not_found() {
    let mut m = DbMap::new();
    m.insert(b"k".to_vec(), vec![0x01]);
    let r = m.get_blocking(&b"missing".to_vec());
    assert_eq!(r.unwrap_err(), DbError::NotFound);
}

#[test]
fn empty_column_has_nothing() {
    let m = DbMap::new();
    assert_eq!(m.get_blocking(&b"a".to_vec()).unwrap_err(), DbError::NotFound);
    assert_eq!(m.get_blocking(&Vec::new()).unwrap_err(), DbError::NotFound);
}

#[test]
fn later_record_overrides_earlier() {
    let mut m = DbMap::new();
    m.insert(b"k".to_vec(), vec![1]);
    m.insert(b"k".to_vec(), vec![2, 2]);
    let h = m.get_blocking(&b"k".to_vec()).unwrap();
    assert_eq!(h.bytes(), &vec![2, 2]);
}

#[test]
fn distinct_keys_keep_distinct_values() {
    let mut m = DbMap::new();
    m.insert(b"a".to_vec(), vec![10]);
    m.insert(b"b".to_vec(), vec![20]);
    assert_eq!(m.get_blocking(&b"a".to_vec()).unwrap().bytes(), &vec![10]);
    assert_eq!(m.get_blocking(&b"b".to_vec()).unwrap().bytes(), &vec![20]);
}

#[test]
fn handle_owns_its_bytes() {
    let h = Handle::new(vec![7, 8, 9]);
    assert_eq!(h.bytes(), &vec![7, 8, 9]);
    assert_eq!(h.len(), 3);
    let empty = Handle::new(Vec::new());
    assert_eq!(empty.len(), 0);
}
