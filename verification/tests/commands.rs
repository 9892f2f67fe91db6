use mongo_cache_proxy::commands::aggregate::Aggregate;
use mongo_cache_proxy::commands::create::Create;
use mongo_cache_proxy::commands::find::Find;
use mongo_cache_proxy::commands::insert::Insert;
use mongo_cache_proxy::commands::list_collections::ListCollections;
use mongo_cache_proxy::commands::list_databases::ListDatabases;
use mongo_cache_proxy::commands::list_indexes::ListIndexes;
use mongo_cache_proxy::commands::ping::Ping;
use mongo_cache_proxy::commands::{batch_reply, batch_value, lookup, report, Command};
use mongo_cache_proxy::document::{Document, Value};
use mongo_cache_proxy::rd::RedisParams;

fn encode(d: &bson::Document) -> Vec<u8> {
    bson::to_vec(d).unwrap()
}

fn document(d: &bson::Document) -> Document {
    Document::from_bytes(encode(d)).unwrap()
}

fn decode(d: &Document) -> bson::Document {
    bson::Document::from_reader(d.as_bytes()).unwrap()
}

fn text(s: &str) -> bson::Bson {
    bson::Bson::String(s.to_string())
}

fn command(name: &str) -> bson::Document {
    let mut d = bson::Document::new();
    d.insert(name, text("users"));
    d.insert("$db", text("test"));
    d
}

fn rows() -> Vec<bson::Document> {
    let mut a = bson::Document::new();
    a.insert("name", text("a"));
    let mut b = bson::Document::new();
    b.insert("name", text("b"));
    vec![a, b]
}

fn batch() -> Vec<Document> {
    rows().iter().map(document).collect()
}

fn array() -> bson::Bson {
    bson::Bson::Array(rows().into_iter().map(bson::Bson::Document).collect())
}

fn ok() -> bson::Document {
    let mut d = bson::Document::new();
    d.insert("ok", bson::Bson::Double(1.0));
    d
}

fn wrapped(cursor: bson::Document) -> bson::Document {
    let mut d = bson::Document::new();
    d.insert("cursor", bson::Bson::Document(cursor));
    d.insert("ok", bson::Bson::Double(1.0));
    d
}

#[test]
fn lookup_knows_the_command_table() {
    let table = [
        ("isMaster", Command::IsMaster),
        ("ismaster", Command::IsMaster),
        ("hello", Command::IsMaster),
        ("ping", Command::Ping),
        ("find", Command::Find),
        ("getMore", Command::GetMore),
        ("aggregate", Command::Aggregate),
        ("create", Command::Create),
        ("insert", Command::Insert),
        ("listCollections", Command::ListCollections),
        ("listDatabases", Command::ListDatabases),
        ("listIndexes", Command::ListIndexes),
        ("getParameter", Command::GetParameter),
        ("frobnicate", Command::Unknown),
        ("FIND", Command::Unknown),
        ("getmore", Command::Unknown),
        ("", Command::Unknown),
        ("find ", Command::Unknown),
    ];
    for (name, expected) in table {
        assert_eq!(lookup(name), expected);
    }
}

#[test]
fn ping_reports_success() {
    assert_eq!(decode(&Ping::new().handle().unwrap()), ok());
}

#[test]
fn params_name_database_and_collection() {
    let params = RedisParams::new("test", "users");
    assert_eq!(params.db, "test");
    assert_eq!(params.collection, "users");
    assert_eq!(params.namespace(), "test.users");
    let read = RedisParams::from(&document(&command("find")), "find").unwrap();
    assert_eq!(read.db, "test");
    assert_eq!(read.collection, "users");
    assert!(RedisParams::from(&document(&command("find")), "insert").is_none());
    let mut no_db = bson::Document::new();
    no_db.insert("find", text("users"));
    assert!(RedisParams::from(&document(&no_db), "find").is_none());
    let mut number = command("find");
    number.insert("find", bson::Bson::Int32(1));
    assert!(RedisParams::from(&document(&number), "find").is_none());
}

#[test]
fn handlers_read_their_targets() {
    assert_eq!(Create::new().target(&document(&command("create"))).unwrap().namespace(), "test.users");
    assert_eq!(Insert::new().target(&document(&command("insert"))).unwrap().namespace(), "test.users");
    assert_eq!(Find::new().target(&document(&command("find"))).unwrap().namespace(), "test.users");
    assert_eq!(Aggregate::new().target(&document(&command("aggregate"))).unwrap().namespace(), "test.users");
    assert_eq!(ListIndexes::new().target(&document(&command("listIndexes"))).unwrap().namespace(), "test.users");
    assert_eq!(ListCollections::new().database(&document(&command("listCollections"))), Some("test".to_string()));
    assert!(Create::new().target(&document(&command("insert"))).is_none());
    assert!(Insert::new().target(&document(&command("create"))).is_none());
    assert!(Find::new().target(&document(&command("create"))).is_none());
    assert!(Aggregate::new().target(&document(&command("create"))).is_none());
    assert!(ListIndexes::new().target(&document(&command("create"))).is_none());
    assert!(ListCollections::new().database(&Document::new().unwrap()).is_none());
}

#[test]
fn create_outcome() {
    assert_eq!(decode(&Create::new().outcome(true).unwrap()), ok());
    assert_eq!(Create::new().outcome(false).unwrap_err().message, "AlreadyExists");
}

#[test]
fn insert_outcome() {
    assert_eq!(decode(&Insert::new().outcome(None).unwrap()), ok());
    assert_eq!(Insert::new().outcome(Some("duplicate key".to_string())).unwrap_err().message, "duplicate key");
    assert_eq!(decode(&report(None).unwrap()), ok());
    assert_eq!(report(Some("no".to_string())).unwrap_err().message, "no");
}

#[test]
fn list_collections_result() {
    let mut cursor = bson::Document::new();
    cursor.insert("id", bson::Bson::Int64(0));
    cursor.insert("ns", text("test.$cmd.listCollections"));
    cursor.insert("firstBatch", array());
    assert_eq!(decode(&ListCollections::new().result("test", &batch()).unwrap()), wrapped(cursor));
}

#[test]
fn list_indexes_result() {
    let mut cursor = bson::Document::new();
    cursor.insert("id", bson::Bson::Int32(0));
    cursor.insert("ns", text("test.users"));
    cursor.insert("firstBatch", array());
    let params = RedisParams::new("test", "users");
    assert_eq!(decode(&ListIndexes::new().result(&params, &batch()).unwrap()), wrapped(cursor));
}

#[test]
fn aggregate_result() {
    let mut cursor = bson::Document::new();
    cursor.insert("firstBatch", array());
    cursor.insert("id", bson::Bson::Int32(0));
    cursor.insert("ns", text("test.users"));
    cursor.insert("ok", bson::Bson::Double(1.0));
    let params = RedisParams::new("test", "users");
    assert_eq!(decode(&Aggregate::new().result(&params, &batch()).unwrap()), wrapped(cursor));
}

#[test]
fn find_result() {
    let mut cursor = bson::Document::new();
    cursor.insert("firstBatch", array());
    cursor.insert("id", bson::Bson::Int64(0));
    cursor.insert("ns", text("test.users"));
    let params = RedisParams::new("test", "users");
    assert_eq!(decode(&Find::new().result(&params, &batch()).unwrap()), wrapped(cursor));
    let mut none = bson::Document::new();
    none.insert("firstBatch", bson::Bson::Array(vec![]));
    none.insert("id", bson::Bson::Int64(0));
    none.insert("ns", text("test.users"));
    assert_eq!(decode(&Find::new().result(&params, &vec![]).unwrap()), wrapped(none));
}

#[test]
fn list_databases_results() {
    let handler = ListDatabases::new();
    let mut by_name = bson::Document::new();
    by_name.insert("databases", bson::Bson::Array(vec![text("admin"), text("test")]));
    by_name.insert("ok", bson::Bson::Double(1.0));
    assert_eq!(decode(&handler.names(vec!["admin".to_string(), "test".to_string()]).unwrap()), by_name);
    let mut full = bson::Document::new();
    full.insert("databases", array());
    full.insert("totalSize", bson::Bson::Int64(0));
    full.insert("totalSizeMb", bson::Bson::Int64(0));
    full.insert("ok", bson::Bson::Double(1.0));
    assert_eq!(decode(&handler.result(&batch()).unwrap()), full);
}

#[test]
fn list_databases_name_only_flag() {
    let handler = ListDatabases::new();
    let mut d = bson::Document::new();
    d.insert("listDatabases", bson::Bson::Int32(1));
    assert!(!handler.name_only(&document(&d)));
    d.insert("nameOnly", bson::Bson::Boolean(true));
    assert!(handler.name_only(&document(&d)));
    d.insert("nameOnly", bson::Bson::Boolean(false));
    assert!(!handler.name_only(&document(&d)));
    d.insert("nameOnly", bson::Bson::Int32(1));
    assert!(!handler.name_only(&document(&d)));
}

#[test]
fn batch_helpers() {
    assert!(matches!(batch_value(&batch()), Value::List(l) if l == rows().iter().map(encode).collect::<Vec<_>>()));
    assert!(batch_reply(None).is_none());
    let inner = command("x");
    assert_eq!(decode(&batch_reply(Some(document(&inner))).unwrap()), wrapped(inner));
}
