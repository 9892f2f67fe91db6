use mongo_cache_proxy::document::{Document, Value};
use mongo_cache_proxy::nesting::{nesting_ok, step, Move, MAX_NESTING};
use mongo_cache_proxy::wire::util::{find_zero_from, take_document};
use mongo_cache_proxy::wire::WireError;

fn encode(d: &bson::Document) -> Vec<u8> {
    bson::to_vec(d).unwrap()
}

/// The bytes of `depth` documents, each but the innermost holding the next
/// under `tag`.
fn nested(depth: usize, tag: u8) -> Vec<u8> {
    let mut bytes = Vec::new();
    for level in (1..depth).rev() {
        bytes.extend_from_slice(&((5 + 8 * level) as u32).to_le_bytes());
        bytes.extend_from_slice(&[tag, b'a', 0]);
    }
    bytes.extend_from_slice(&[5, 0, 0, 0, 0]);
    bytes.extend(std::iter::repeat(0u8).take(depth - 1));
    bytes
}

fn every_type() -> bson::Document {
    let mut inner = bson::Document::new();
    inner.insert("x", bson::Bson::Int32(1));
    let mut d = bson::Document::new();
    d.insert("double", bson::Bson::Double(1.5));
    d.insert("string", bson::Bson::String("text".to_string()));
    d.insert("empty", bson::Bson::String(String::new()));
    d.insert("document", bson::Bson::Document(inner.clone()));
    d.insert("array", bson::Bson::Array(vec![bson::Bson::Int32(3), bson::Bson::Document(inner.clone())]));
    d.insert(
        "binary",
        bson::Bson::Binary(bson::Binary { subtype: bson::spec::BinarySubtype::Generic, bytes: vec![3, 4, 15] }),
    );
    d.insert(
        "nothing",
        bson::Bson::Binary(bson::Binary { subtype: bson::spec::BinarySubtype::Generic, bytes: vec![] }),
    );
    d.insert("undefined", bson::Bson::Undefined);
    d.insert("oid", bson::Bson::ObjectId(bson::oid::ObjectId::from_bytes([3; 12])));
    d.insert("bool", bson::Bson::Boolean(true));
    d.insert("date", bson::Bson::DateTime(bson::DateTime::from_millis(1234567)));
    d.insert("null", bson::Bson::Null);
    d.insert(
        "regex",
        bson::Bson::RegularExpression(bson::Regex { pattern: "a.*b".to_string(), options: "i".to_string() }),
    );
    d.insert(
        "pointless",
        bson::Bson::RegularExpression(bson::Regex { pattern: String::new(), options: String::new() }),
    );
    d.insert("code", bson::Bson::JavaScriptCode("f()".to_string()));
    d.insert("symbol", bson::Bson::Symbol("sym".to_string()));
    d.insert(
        "scoped",
        bson::Bson::JavaScriptCodeWithScope(bson::JavaScriptCodeWithScope {
            code: "g()".to_string(),
            scope: inner.clone(),
        }),
    );
    d.insert("int", bson::Bson::Int32(-4));
    d.insert("stamp", bson::Bson::Timestamp(bson::Timestamp { time: 3, increment: 4 }));
    d.insert("long", bson::Bson::Int64(1 << 40));
    d.insert("decimal", bson::Bson::Decimal128(bson::Decimal128::from_bytes([4; 16])));
    d.insert("max", bson::Bson::MaxKey);
    d.insert("min", bson::Bson::MinKey);
    d.insert("last", bson::Bson::Document(inner));
    d
}

#[test]
fn every_kind_of_value_is_measured() {
    let bytes = encode(&every_type());
    assert!(nesting_ok(&bytes));
    let doc = Document::from_bytes(bytes.clone()).unwrap();
    assert_eq!(bson::Document::from_reader(doc.as_bytes()).unwrap(), every_type());
}

#[test]
fn db_pointer_is_measured() {
    let mut bytes = vec![0, 0, 0, 0, 0x0c, b'p', 0];
    bytes.extend_from_slice(&[3, 0, 0, 0, b'n', b's', 0]);
    bytes.extend_from_slice(&[9; 12]);
    bytes.extend_from_slice(&[0x10, b'i', 0, 1, 0, 0, 0, 0]);
    let n = bytes.len() as u32;
    bytes[..4].copy_from_slice(&n.to_le_bytes());
    assert!(nesting_ok(&bytes));
    assert!(bson::Document::from_reader(&bytes[..]).is_ok());
    assert!(Document::from_bytes(bytes.clone()).is_some());
    let cut = bytes.len() - 9;
    bytes.truncate(cut);
    bytes.push(0);
    let n = bytes.len() as u32;
    bytes[..4].copy_from_slice(&n.to_le_bytes());
    assert!(!nesting_ok(&bytes));
}

#[test]
fn the_empty_document_is_one_document_deep() {
    assert!(nesting_ok(&[5, 0, 0, 0, 0]));
    assert_eq!(nested(1, 3), vec![5, 0, 0, 0, 0]);
}

#[test]
fn nesting_up_to_the_bound_is_taken() {
    assert_eq!(MAX_NESTING, 100);
    for tag in [3u8, 4] {
        for depth in [2, 3, 50, 99, 100] {
            let bytes = nested(depth, tag);
            assert!(nesting_ok(&bytes));
            assert!(bson::Document::from_reader(&bytes[..]).is_ok());
        }
    }
    let deepest = nested(100, 3);
    let doc = Document::from_bytes(deepest.clone()).unwrap();
    assert_eq!(doc.first_key(), Some("a".to_string()));
    assert!(matches!(doc.get("a"), Some(Value::Doc(inner)) if inner == nested(99, 3)));
}

#[test]
fn nesting_beyond_the_bound_is_refused() {
    for tag in [3u8, 4] {
        for depth in [101, 102, 1000, 200_000] {
            let bytes = nested(depth, tag);
            assert!(!nesting_ok(&bytes));
            assert!(Document::from_bytes(bytes).is_none());
        }
    }
    let mut frame = nested(50_000, 3);
    frame.extend_from_slice(&[1, 2]);
    assert_eq!(take_document(&frame).unwrap_err(), WireError::MalformedDocument);
}

#[test]
fn scope_of_code_counts_as_a_document() {
    let mut scoped = bson::Document::new();
    scoped.insert(
        "s",
        bson::Bson::JavaScriptCodeWithScope(bson::JavaScriptCodeWithScope {
            code: "f".to_string(),
            scope: bson::Document::from_reader(&nested(99, 3)[..]).unwrap(),
        }),
    );
    assert!(nesting_ok(&encode(&scoped)));
    let mut deeper = bson::Document::new();
    deeper.insert("d", bson::Bson::Document(scoped));
    assert!(!nesting_ok(&encode(&deeper)));
}

#[test]
fn written_values_are_measured_before_they_are_decoded() {
    let base = Document::new().unwrap();
    let deep = nested(100_000, 3);
    assert!(base.with("a", &Value::Doc(deep.clone())).is_none());
    assert!(base.with("a", &Value::List(vec![vec![5, 0, 0, 0, 0], deep])).is_none());
    assert!(base.with("a", &Value::Doc(nested(100, 3))).is_none());
    let kept = base.with("a", &Value::Doc(nested(99, 3))).unwrap();
    assert_eq!(kept.as_bytes(), &nested(100, 3)[..]);
    let listed = base.with("a", &Value::List(vec![nested(98, 3), nested(2, 3)])).unwrap();
    assert!(nesting_ok(listed.as_bytes()));
}

#[test]
fn bytes_that_are_laid_out_wrong_are_refused() {
    assert!(!nesting_ok(&[]));
    assert!(!nesting_ok(&[5, 0, 0, 0]));
    assert!(!nesting_ok(&[6, 0, 0, 0, 0]));
    assert!(!nesting_ok(&[5, 0, 0, 0, 1]));
    assert!(!nesting_ok(&[5, 0, 0, 0, 0, 0]));
    assert!(!nesting_ok(&[0xfb, 0xff, 0xff, 0xff, 0]));
    let good = encode(&every_type());
    for at in 0..good.len() {
        let mut cut = good[..at].to_vec();
        cut.push(0);
        if cut.len() >= 4 {
            let n = cut.len() as u32;
            cut[..4].copy_from_slice(&n.to_le_bytes());
        }
        if !nesting_ok(&cut) {
            assert!(Document::from_bytes(cut).is_none());
        }
    }
    assert!(!nesting_ok(&[8, 0, 0, 0, 0x14, b'a', 0, 0]));
    assert!(!nesting_ok(&[8, 0, 0, 0, 0x00, b'a', 0, 0]));
    assert!(!nesting_ok(&[11, 0, 0, 0, 0x10, b'a', 0, 1, 0, 0, 0]));
    assert!(nesting_ok(&[12, 0, 0, 0, 0x10, b'a', 0, 1, 0, 0, 0, 0]));
    assert!(!nesting_ok(&[12, 0, 0, 0, 0x10, b'a', b'b', b'c', b'd', b'e', b'f', 0]));
    assert!(!nesting_ok(&[13, 0, 0, 0, 0x03, b'a', 0, 6, 0, 0, 0, 0, 0]));
    assert!(!nesting_ok(&[13, 0, 0, 0, 0x03, b'a', 0, 4, 0, 0, 0, 0, 0]));
    assert!(nesting_ok(&[13, 0, 0, 0, 0x03, b'a', 0, 5, 0, 0, 0, 0, 0]));
    assert!(!nesting_ok(&[12, 0, 0, 0, 0x02, b'a', 0, 0, 0, 0, 0, 0]));
    assert!(!nesting_ok(&[13, 0, 0, 0, 0x02, b'a', 0, 3, 0, 0, 0, 0, 0]));
    assert!(!nesting_ok(&[12, 0, 0, 0, 0x05, b'a', 0, 0xff, 0xff, 0xff, 0xff, 0]));
}

#[test]
fn what_the_decoder_takes_the_scan_takes() {
    let good = encode(&every_type());
    for at in 4..good.len() {
        for flip in [0x01u8, 0x02, 0x04, 0x10, 0x80] {
            let mut bytes = good.clone();
            bytes[at] ^= flip;
            let taken = bson::Document::from_reader(&bytes[..]).is_ok();
            if taken {
                assert!(nesting_ok(&bytes), "byte {} changed by {}", at, flip);
            }
            assert_eq!(Document::from_bytes(bytes).is_some(), taken);
        }
    }
}

#[test]
fn step_reads_one_element() {
    let bytes = [16u8, 0, 0, 0, 0x03, b'a', 0, 5, 0, 0, 0, 0, 0x0a, b'n', 0, 0];
    assert_eq!(step(&bytes, 4, 16, 1), Some((11, Move::Open(12))));
    assert_eq!(step(&bytes, 11, 12, 2), Some((12, Move::Close)));
    assert_eq!(step(&bytes, 12, 16, 1), Some((15, Move::Stay)));
    assert_eq!(step(&bytes, 15, 16, 1), Some((16, Move::Close)));
    assert_eq!(step(&bytes, 16, 16, 1), None);
    assert_eq!(step(&bytes, 4, 16, 100), None);
    assert_eq!(step(&bytes, 4, 16, 99), Some((11, Move::Open(12))));
    assert!(nesting_ok(&bytes));
    assert_eq!(find_zero_from(&bytes, 5), 6);
    assert_eq!(find_zero_from(&bytes, 16), 16);
}
