use mongo_cache_proxy::document::{ok_document, put, Document, Value};

fn encode(d: &bson::Document) -> Vec<u8> {
    bson::to_vec(d).unwrap()
}

fn document(d: &bson::Document) -> Document {
    Document::from_bytes(encode(d)).unwrap()
}

fn decode(d: &Document) -> bson::Document {
    bson::Document::from_reader(d.as_bytes()).unwrap()
}

fn command() -> bson::Document {
    let mut filter = bson::Document::new();
    filter.insert("age", bson::Bson::Int32(30));
    let mut d = bson::Document::new();
    d.insert("find", bson::Bson::String("users".to_string()));
    d.insert("filter", bson::Bson::Document(filter));
    d.insert("limit", bson::Bson::Int32(5));
    d.insert("cursorId", bson::Bson::Int64(1 << 40));
    d.insert("flag", bson::Bson::Boolean(true));
    d.insert("ratio", bson::Bson::Double(0.5));
    d.insert("list", bson::Bson::Array(vec![bson::Bson::Int32(1)]));
    d
}

#[test]
fn empty_document_is_five_bytes() {
    let d = Document::new().unwrap();
    assert_eq!(d.as_bytes(), &[5, 0, 0, 0, 0]);
    assert_eq!(d.len(), 5);
    assert_eq!(decode(&d), bson::Document::new());
}

#[test]
fn from_bytes_accepts_encoded_documents() {
    let d = command();
    let doc = Document::from_bytes(encode(&d)).unwrap();
    assert_eq!(doc.as_bytes(), &encode(&d)[..]);
    assert_eq!(doc.len(), encode(&d).len());
    assert_eq!(doc.duplicate().as_bytes(), doc.as_bytes());
}

#[test]
fn from_bytes_refuses_what_is_no_document() {
    assert!(Document::from_bytes(vec![]).is_none());
    assert!(Document::from_bytes(vec![5, 0, 0, 0]).is_none());
    assert!(Document::from_bytes(vec![6, 0, 0, 0, 0]).is_none());
    assert!(Document::from_bytes(vec![5, 0, 0, 0, 0, 0]).is_none());
    assert!(Document::from_bytes(vec![5, 0, 0, 0, 1]).is_none());
    assert!(Document::from_bytes(vec![0xfb, 0xff, 0xff, 0xff, 0]).is_none());
    let mut broken = encode(&command());
    let at = broken.len() - 3;
    broken[4] = 0x7f;
    broken[at] = 0x55;
    assert!(Document::from_bytes(broken).is_none());
}

#[test]
fn first_key_names_the_command() {
    assert_eq!(document(&command()).first_key(), Some("find".to_string()));
    assert_eq!(Document::new().unwrap().first_key(), None);
}

#[test]
fn get_hands_out_values_by_type() {
    let doc = document(&command());
    assert!(matches!(doc.get("find"), Some(Value::Text(s)) if s == "users"));
    assert!(matches!(doc.get("limit"), Some(Value::Int32(5))));
    assert!(matches!(doc.get("cursorId"), Some(Value::Int64(n)) if n == 1 << 40));
    assert!(matches!(doc.get("flag"), Some(Value::Flag(true))));
    assert!(matches!(doc.get("ratio"), Some(Value::Other)));
    assert!(matches!(doc.get("list"), Some(Value::Other)));
    assert!(doc.get("missing").is_none());
    let mut filter = bson::Document::new();
    filter.insert("age", bson::Bson::Int32(30));
    assert!(matches!(doc.get("filter"), Some(Value::Doc(b)) if b == encode(&filter)));
}

#[test]
fn typed_getters() {
    let doc = document(&command());
    assert_eq!(doc.get_str("find"), Some("users".to_string()));
    assert_eq!(doc.get_str("limit"), None);
    assert_eq!(doc.get_str("missing"), None);
    assert_eq!(doc.get_i64("cursorId"), Some(1 << 40));
    assert_eq!(doc.get_i64("limit"), None);
    assert_eq!(doc.get_i64("missing"), None);
    assert_eq!(doc.get_bool("flag"), Some(true));
    assert_eq!(doc.get_bool("find"), None);
    let mut filter = bson::Document::new();
    filter.insert("age", bson::Bson::Int32(30));
    assert_eq!(doc.get_document("filter").unwrap().as_bytes(), &encode(&filter)[..]);
    assert!(doc.get_document("find").is_none());
    assert!(doc.get_document("missing").is_none());
    assert!(doc.contains_key("filter"));
    assert!(doc.contains_key("ratio"));
    assert!(!doc.contains_key("missing"));
}

#[test]
fn cursor_id_is_read_from_the_cursor_document() {
    let mut cursor = bson::Document::new();
    cursor.insert("id", bson::Bson::Int64(77));
    let mut reply = bson::Document::new();
    reply.insert("cursor", bson::Bson::Document(cursor));
    assert_eq!(document(&reply).cursor_id(), Some(77));
    let mut small = bson::Document::new();
    small.insert("id", bson::Bson::Int32(77));
    let mut other = bson::Document::new();
    other.insert("cursor", bson::Bson::Document(small));
    assert_eq!(document(&other).cursor_id(), None);
    assert_eq!(document(&command()).cursor_id(), None);
}

#[test]
fn with_puts_each_kind_of_value() {
    let base = Document::new().unwrap();
    let mut inner = bson::Document::new();
    inner.insert("a", bson::Bson::Int32(1));
    let doc = base.with("text", &Value::Text("hi".to_string())).unwrap();
    let doc = doc.with("small", &Value::Int32(-3)).unwrap();
    let doc = doc.with("big", &Value::Int64(1 << 50)).unwrap();
    let doc = doc.with("flag", &Value::Flag(false)).unwrap();
    let doc = doc.with("whole", &Value::Whole(2)).unwrap();
    let doc = doc.with("doc", &Value::Doc(encode(&inner))).unwrap();
    let doc = doc.with("docs", &Value::List(vec![encode(&inner), encode(&bson::Document::new())])).unwrap();
    let doc = doc.with("names", &Value::Texts(vec!["x".to_string(), "y".to_string()])).unwrap();
    let mut expected = bson::Document::new();
    expected.insert("text", bson::Bson::String("hi".to_string()));
    expected.insert("small", bson::Bson::Int32(-3));
    expected.insert("big", bson::Bson::Int64(1 << 50));
    expected.insert("flag", bson::Bson::Boolean(false));
    expected.insert("whole", bson::Bson::Double(2.0));
    expected.insert("doc", bson::Bson::Document(inner.clone()));
    expected.insert(
        "docs",
        bson::Bson::Array(vec![bson::Bson::Document(inner), bson::Bson::Document(bson::Document::new())]),
    );
    expected.insert(
        "names",
        bson::Bson::Array(vec![bson::Bson::String("x".to_string()), bson::Bson::String("y".to_string())]),
    );
    assert_eq!(decode(&doc), expected);
    assert_eq!(doc.as_bytes(), &encode(&expected)[..]);
}

#[test]
fn with_replaces_in_place() {
    let doc = document(&command());
    let changed = doc.with("find", &Value::Text("orders".to_string())).unwrap();
    let mut expected = command();
    expected.insert("find", bson::Bson::String("orders".to_string()));
    assert_eq!(decode(&changed), expected);
    assert_eq!(changed.first_key(), Some("find".to_string()));
}

#[test]
fn with_refuses_what_cannot_be_written() {
    let base = Document::new().unwrap();
    assert!(base.with("a", &Value::Other).is_none());
    assert!(base.with("a", &Value::Doc(vec![1, 2, 3])).is_none());
    assert!(base.with("a", &Value::List(vec![vec![5, 0, 0, 0, 0], vec![9]])).is_none());
    assert!(base.with("a\0b", &Value::Int32(1)).is_none());
}

#[test]
fn put_chains_and_keeps_failure() {
    let doc = put(Document::new(), "a", &Value::Int32(1));
    let doc = put(doc, "b", &Value::Int32(2)).unwrap();
    let mut expected = bson::Document::new();
    expected.insert("a", bson::Bson::Int32(1));
    expected.insert("b", bson::Bson::Int32(2));
    assert_eq!(decode(&doc), expected);
    assert!(put(None, "a", &Value::Int32(1)).is_none());
    assert!(put(Document::new(), "a", &Value::Other).is_none());
}

#[test]
fn ok_document_reports_success() {
    let mut expected = bson::Document::new();
    expected.insert("ok", bson::Bson::Double(1.0));
    assert_eq!(decode(&ok_document().unwrap()), expected);
}
