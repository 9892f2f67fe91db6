use mongo_cache_proxy::document::Document;
use mongo_cache_proxy::storage::{GetMore, InnerData, Storage};

fn batch(id: i64, marker: i32) -> Document {
    let mut cursor = bson::Document::new();
    cursor.insert("id", bson::Bson::Int64(id));
    let mut d = bson::Document::new();
    d.insert("cursor", bson::Bson::Document(cursor));
    d.insert("n", bson::Bson::Int32(marker));
    Document::from_bytes(bson::to_vec(&d).unwrap()).unwrap()
}

#[test]
fn new_entry_serves_nothing() {
    let mut entry = GetMore::new();
    assert!(!entry.is_closed());
    assert!(entry.get_document().is_none());
}

#[test]
fn open_entry_serves_nothing() {
    let mut entry = GetMore::new();
    entry.record(batch(4, 1), 4);
    assert!(!entry.is_closed());
    assert!(entry.get_document().is_none());
}

#[test]
fn closed_entry_serves_round_robin() {
    let mut entry = GetMore::new();
    let b1 = batch(4, 1);
    let b2 = batch(0, 2);
    entry.record(b1.duplicate(), 4);
    entry.record(b2.duplicate(), 0);
    assert!(entry.is_closed());
    for expected in [&b1, &b2, &b1] {
        assert_eq!(entry.get_document().unwrap().as_bytes(), expected.as_bytes());
    }
}

#[test]
fn closed_entry_takes_no_more_batches() {
    let mut entry = GetMore::new();
    let only = batch(0, 1);
    entry.record(only.duplicate(), 0);
    entry.record(batch(0, 2), 0);
    entry.record(batch(3, 3), 3);
    assert!(entry.is_closed());
    for _ in 0..3 {
        assert_eq!(entry.get_document().unwrap().as_bytes(), only.as_bytes());
    }
}

#[test]
fn add_document_reads_the_cursor_id() {
    let mut entry = GetMore::new();
    assert!(entry.add_document(batch(8, 1)));
    assert!(!entry.is_closed());
    assert!(entry.add_document(batch(0, 2)));
    assert!(entry.is_closed());
    let plain = Document::new().unwrap();
    let mut other = GetMore::new();
    assert!(!other.add_document(plain));
    assert!(!other.is_closed());
    other.record(batch(0, 5), 0);
    assert_eq!(other.get_document().unwrap().as_bytes(), batch(0, 5).as_bytes());
}

#[test]
fn storage_holds_what_was_put() {
    let mut storage = Storage::new();
    assert!(storage.get(1).is_none());
    assert!(storage.find(1).is_none());
    storage.insert(1, InnerData::Document(batch(0, 1)));
    storage.insert(2, InnerData::Documents(GetMore::new()));
    assert_eq!(storage.find(1).unwrap().as_bytes(), batch(0, 1).as_bytes());
    assert!(storage.find(2).is_none());
    assert!(matches!(storage.get(2), Some(InnerData::Documents(_))));
    storage.insert(1, InnerData::Document(batch(0, 9)));
    assert_eq!(storage.find(1).unwrap().as_bytes(), batch(0, 9).as_bytes());
    assert!(matches!(storage.remove(1), Some(InnerData::Document(_))));
    assert!(storage.remove(1).is_none());
    assert!(storage.get(1).is_none());
    assert!(storage.get(2).is_some());
}
