//! Documents, held as their encoded bytes.
//!
//! A [`Document`] owns the bytes of one encoded document. The proxy frames
//! documents by their length prefix itself, and measures how deep they
//! nest before anything decodes them; what the fields of a document mean
//! is decided by the `bson` crate, which is called for every read and
//! every change.
use vstd::prelude::*;
use vstd::utf8::decode_utf8;
use bson::Bson;

use crate::nesting::{nesting_ok, spec_nesting_ok};
use crate::wire::endian::{read_i32, spec_i32_from_le_bytes};
use crate::wire::util::spec_find_zero;

verus! {

/// A value of a document's field, as far as the proxy looks at values.
#[derive(Debug)]
pub enum Value {
    /// A string.
    Text(String),
    /// A 32-bit integer.
    Int32(i32),
    /// A 64-bit integer.
    Int64(i64),
    /// A boolean.
    Flag(bool),
    /// A double that holds a whole number. Written, never read: a double
    /// that is read comes back as `Other`.
    Whole(i32),
    /// An embedded document, encoded.
    Doc(Vec<u8>),
    /// An array of documents, each encoded. Written, never read.
    List(Vec<Vec<u8>>),
    /// An array of strings. Written, never read.
    Texts(Vec<String>),
    /// Any other kind of value. Read, never written.
    Other,
}

/// The mathematical value of a [`Value`].
pub enum ValueView {
    Text(Seq<char>),
    Int32(i32),
    Int64(i64),
    Flag(bool),
    Whole(i32),
    Doc(Seq<u8>),
    List(Seq<Seq<u8>>),
    Texts(Seq<Seq<char>>),
    Other,
}

/// The bytes of each encoded item in turn.
pub open spec fn raw_view(items: Seq<Vec<u8>>) -> Seq<Seq<u8>> {
    items.map_values(|b: Vec<u8>| b@)
}

/// The characters of each text in turn.
pub open spec fn texts_view(items: Seq<String>) -> Seq<Seq<char>> {
    items.map_values(|s: String| s@)
}

impl View for Value {
    type V = ValueView;

    open spec fn view(&self) -> ValueView {
        match self {
            Value::Text(s) => ValueView::Text(s@),
            Value::Int32(n) => ValueView::Int32(*n),
            Value::Int64(n) => ValueView::Int64(*n),
            Value::Flag(b) => ValueView::Flag(*b),
            Value::Whole(n) => ValueView::Whole(*n),
            Value::Doc(b) => ValueView::Doc(b@),
            Value::List(l) => ValueView::List(raw_view(l@)),
            Value::Texts(l) => ValueView::Texts(texts_view(l@)),
            Value::Other => ValueView::Other,
        }
    }
}

/// Whether `bson` accepts `bytes` as one encoded document.
pub uninterp spec fn bson_decodes(bytes: Seq<u8>) -> bool;

/// The value under `key` in the document that `doc` encodes.
pub uninterp spec fn bson_get(doc: Seq<u8>, key: Seq<char>) -> Option<ValueView>;

/// The encoding of the document that `doc` encodes after `value` was put
/// under `key`.
pub uninterp spec fn bson_insert(doc: Seq<u8>, key: Seq<char>, value: ValueView) -> Option<Seq<u8>>;

/// Calls `bson::Document::from_reader` on `bytes` and reports whether it
/// returned a document. The contract only gives that answer a name. The
/// decoder calls itself once for each document inside a document and
/// keeps no count, so it is only called on bytes whose nesting was
/// measured and found within the bound.
#[verifier::external_body]
fn decodes(bytes: &[u8]) -> (ok: bool)
    requires
        spec_nesting_ok(bytes@),
    ensures
        ok == bson_decodes(bytes@),
{
    bson::Document::from_reader(bytes).is_ok()
}

/// The first key of the document that `doc` encodes: the name of its
/// first element, which is the text from the sixth byte up to the next
/// zero byte. There is none where `doc` does not decode, or decodes to the
/// document without fields, whose fifth byte is the zero that ends it.
pub open spec fn spec_first_key(doc: Seq<u8>) -> Option<Seq<char>> {
    if bson_decodes(doc) && doc[4] != 0 {
        Some(decode_utf8(doc.subrange(5, spec_find_zero(doc, 5))))
    } else {
        None
    }
}

/// Decodes `doc` and calls `bson::Document::keys` for the first key. The
/// contract claims that this is the name of the first element as the bytes
/// hold it: the decoder reads the elements in order, takes each name as
/// the text up to the next zero byte, and keeps the fields in the order in
/// which it met them. It is `None` where `doc` does not decode or the
/// document is empty.
#[verifier::external_body]
fn first_key(doc: &[u8]) -> (key: Option<String>)
    requires
        spec_nesting_ok(doc@),
    ensures
        match key {
            Some(k) => spec_first_key(doc@) == Some(k@),
            None => spec_first_key(doc@) is None,
        },
{
    bson::Document::from_reader(doc).ok()?.keys().next().cloned()
}

/// Decodes `doc` and calls `bson::Document::get` with `key`. The value comes
/// back in the proxy's own type, an embedded document encoded again. The
/// contract only gives the answer a name; it is `None` where `doc` does not
/// decode, holds no such key, or the embedded document does not encode.
#[verifier::external_body]
fn get(doc: &[u8], key: &str) -> (value: Option<Value>)
    requires
        spec_nesting_ok(doc@),
    ensures
        match value {
            Some(v) => bson_get(doc@, key@) == Some(v@),
            None => bson_get(doc@, key@) is None,
        },
{
    let decoded = bson::Document::from_reader(doc).ok()?;
    Some(match decoded.get(key)? {
        Bson::String(s) => Value::Text(s.clone()),
        Bson::Int32(n) => Value::Int32(*n),
        Bson::Int64(n) => Value::Int64(*n),
        Bson::Boolean(b) => Value::Flag(*b),
        Bson::Document(inner) => Value::Doc(bson::to_vec(inner).ok()?),
        _ => Value::Other,
    })
}

/// Whether `out` holds the bytes that `named` stands for.
pub open spec fn same_bytes(out: Option<Vec<u8>>, named: Option<Seq<u8>>) -> bool {
    match out {
        Some(b) => named == Some(b@),
        None => named is None,
    }
}

/// Decodes `doc`, calls `bson::Document::insert` with `key` and `value`, and
/// encodes the document again with `bson::to_vec`. The contract only gives
/// the answer a name; it is `None` where `doc` or an embedded document does
/// not decode, or where the result does not encode. The arrays have
/// wrappers of their own, and `Other` is never written. What is decoded
/// was measured and nests within the bound.
#[verifier::external_body]
fn insert(doc: &[u8], key: &str, value: &Value) -> (out: Option<Vec<u8>>)
    requires
        spec_nesting_ok(doc@),
        spec_writable(value@),
        !(value is List),
        !(value is Texts),
    ensures
        same_bytes(out, bson_insert(doc@, key@, value@)),
{
    let mut decoded = bson::Document::from_reader(doc).ok()?;
    let converted = match value {
        Value::Text(s) => Bson::String(s.clone()),
        Value::Int32(n) => Bson::Int32(*n),
        Value::Int64(n) => Bson::Int64(*n),
        Value::Flag(b) => Bson::Boolean(*b),
        Value::Whole(n) => Bson::Double((*n).into()),
        Value::Doc(b) => Bson::Document(bson::Document::from_reader(&b[..]).ok()?),
        _ => return None,
    };
    decoded.insert(key, converted);
    bson::to_vec(&decoded).ok()
}

/// Decodes `doc` and each of `items`, calls `bson::Document::insert` with
/// `key` and the array of the decoded items, and encodes the document again
/// with `bson::to_vec`. The contract only gives the answer a name; it is
/// `None` where `doc` or an item does not decode, or where the result does
/// not encode. What is decoded was measured and nests within the bound.
#[verifier::external_body]
fn insert_list(doc: &[u8], key: &str, items: &Vec<Vec<u8>>) -> (out: Option<Vec<u8>>)
    requires
        spec_nesting_ok(doc@),
        spec_all_nesting_ok(raw_view(items@)),
    ensures
        same_bytes(out, bson_insert(doc@, key@, ValueView::List(raw_view(items@)))),
{
    let mut decoded = bson::Document::from_reader(doc).ok()?;
    let read = |b: &Vec<u8>| bson::Document::from_reader(&b[..]).map(Bson::Document);
    decoded.insert(key, Bson::Array(items.iter().map(read).collect::<Result<_, _>>().ok()?));
    bson::to_vec(&decoded).ok()
}

/// Decodes `doc`, calls `bson::Document::insert` with `key` and the array
/// of the strings `items`, and encodes the document again with
/// `bson::to_vec`. The contract only gives the answer a name; it is `None`
/// where `doc` does not decode or the result does not encode.
#[verifier::external_body]
fn insert_texts(doc: &[u8], key: &str, items: &Vec<String>) -> (out: Option<Vec<u8>>)
    requires
        spec_nesting_ok(doc@),
    ensures
        same_bytes(out, bson_insert(doc@, key@, ValueView::Texts(texts_view(items@)))),
{
    let mut decoded = bson::Document::from_reader(doc).ok()?;
    decoded.insert(key, Bson::Array(items.iter().map(|s| Bson::String(s.clone())).collect()));
    bson::to_vec(&decoded).ok()
}

/// Whether `bytes` start with their own length, as every document does: a
/// signed little-endian count of all the bytes, the four of the count
/// included.
pub open spec fn framed(bytes: Seq<u8>) -> bool {
    &&& 5 <= bytes.len()
    &&& spec_i32_from_le_bytes(bytes.subrange(0, 4)) == bytes.len()
}

/// Whether `bytes` nest within the bound and decode.
pub open spec fn spec_accepted(bytes: Seq<u8>) -> bool {
    spec_nesting_ok(bytes) && bson_decodes(bytes)
}

/// Whether `bytes` are one encoded document, no more and no less.
pub open spec fn valid_document(bytes: Seq<u8>) -> bool {
    framed(bytes) && spec_accepted(bytes)
}

/// Whether a value can be written into a document: it is of a kind that
/// is written, and the documents it holds nest within the bound.
pub open spec fn spec_writable(value: ValueView) -> bool {
    match value {
        ValueView::Other => false,
        ValueView::Doc(inner) => spec_nesting_ok(inner),
        ValueView::List(items) => spec_all_nesting_ok(items),
        _ => true,
    }
}

/// Whether each of `items` nests within the bound.
pub open spec fn spec_all_nesting_ok(items: Seq<Seq<u8>>) -> bool {
    forall|i: int| 0 <= i < items.len() ==> spec_nesting_ok(#[trigger] items[i])
}

/// Whether each of `items` nests within the bound.
pub fn all_nesting_ok(items: &Vec<Vec<u8>>) -> (ok: bool)
    ensures
        ok == spec_all_nesting_ok(raw_view(items@)),
{
    let ghost all = raw_view(items@);
    let mut i: usize = 0;
    while i < items.len()
        invariant
            i <= items.len(),
            all == raw_view(items@),
            forall|j: int| 0 <= j < i ==> spec_nesting_ok(#[trigger] all[j]),
        decreases items.len() - i,
    {
        assert(all[i as int] == items[i as int]@);
        if !nesting_ok(items[i].as_slice()) {
            assert(0 <= i < all.len() && !spec_nesting_ok(all[i as int]));
            return false;
        }
        i = i + 1;
    }
    true
}

/// Whether a value can be written into a document.
pub fn writable(value: &Value) -> (ok: bool)
    ensures
        ok == spec_writable(value@),
{
    match value {
        Value::Other => false,
        Value::Doc(inner) => nesting_ok(inner.as_slice()),
        Value::List(items) => all_nesting_ok(items),
        _ => true,
    }
}

/// One document. Its bytes are framed by their length prefix, nest within
/// the bound, and decode.
#[derive(Debug)]
pub struct Document {
    bytes: Vec<u8>,
}

impl View for Document {
    type V = Seq<u8>;

    closed spec fn view(&self) -> Seq<u8> {
        self.bytes@
    }
}

/// The string under `key`, if there is one.
pub open spec fn spec_get_str(doc: Seq<u8>, key: Seq<char>) -> Option<Seq<char>> {
    match bson_get(doc, key) {
        Some(ValueView::Text(s)) => Some(s),
        _ => None,
    }
}

/// The 64-bit integer under `key`, if there is one.
pub open spec fn spec_get_i64(doc: Seq<u8>, key: Seq<char>) -> Option<i64> {
    match bson_get(doc, key) {
        Some(ValueView::Int64(n)) => Some(n),
        _ => None,
    }
}

/// The boolean under `key`, if there is one.
pub open spec fn spec_get_bool(doc: Seq<u8>, key: Seq<char>) -> Option<bool> {
    match bson_get(doc, key) {
        Some(ValueView::Flag(b)) => Some(b),
        _ => None,
    }
}

/// The document under `key`, if there is one and its encoding is valid.
pub open spec fn spec_get_document(doc: Seq<u8>, key: Seq<char>) -> Option<Seq<u8>> {
    match bson_get(doc, key) {
        Some(ValueView::Doc(b)) => if valid_document(b) {
            Some(b)
        } else {
            None
        },
        _ => None,
    }
}

/// The document with `value` under `key`, if the value can be written and
/// the result is a valid document.
pub open spec fn spec_with(doc: Seq<u8>, key: Seq<char>, value: ValueView) -> Option<Seq<u8>> {
    if !spec_writable(value) {
        None
    } else {
        match bson_insert(doc, key, value) {
            Some(b) => if valid_document(b) {
                Some(b)
            } else {
                None
            },
            None => None,
        }
    }
}

/// The cursor id that a reply names: the 64-bit integer `id` of the
/// document `cursor`.
pub open spec fn spec_cursor_id(reply: Seq<u8>) -> Option<i64> {
    match spec_get_document(reply, "cursor"@) {
        Some(cursor) => spec_get_i64(cursor, "id"@),
        None => None,
    }
}

/// The document without fields, where `bson` accepts it.
pub open spec fn spec_new_document() -> Option<Seq<u8>> {
    if valid_document(spec_empty_document()) {
        Some(spec_empty_document())
    } else {
        None
    }
}

/// A document that may have failed to build, with one more field.
pub open spec fn spec_put(doc: Option<Seq<u8>>, key: Seq<char>, value: ValueView) -> Option<Seq<u8>> {
    match doc {
        Some(d) => spec_with(d, key, value),
        None => None,
    }
}

/// Whether `doc` is the executable form of `expected`.
pub open spec fn built_as(doc: Option<Document>, expected: Option<Seq<u8>>) -> bool {
    match expected {
        Some(bytes) => doc matches Some(d) && d@ == bytes && d.wf(),
        None => doc is None,
    }
}

/// Puts one more field into a document that may have failed to build.
pub fn put(doc: Option<Document>, key: &str, value: &Value) -> (out: Option<Document>)
    ensures
        built_as(out, spec_put(option_view(doc), key@, value@)),
{
    match doc {
        Some(d) => d.with(key, value),
        None => None,
    }
}

/// The bytes of a document that may be absent.
pub open spec fn option_view(doc: Option<Document>) -> Option<Seq<u8>> {
    match doc {
        Some(d) => Some(d@),
        None => None,
    }
}

/// The document `{ok: 1.0}`, which reports success.
pub open spec fn spec_ok_document() -> Option<Seq<u8>> {
    spec_put(spec_new_document(), "ok"@, ValueView::Whole(1))
}

/// Builds the document that reports success.
pub fn ok_document() -> (doc: Option<Document>)
    ensures
        built_as(doc, spec_ok_document()),
{
    put(Document::new(), "ok", &Value::Whole(1))
}

/// The bytes of the document without fields.
pub open spec fn spec_empty_document() -> Seq<u8> {
    seq![5u8, 0u8, 0u8, 0u8, 0u8]
}

impl Document {
    #[verifier::type_invariant]
    pub open spec fn wf(&self) -> bool {
        valid_document(self@)
    }

    /// Takes `bytes` as a document if they are one.
    pub fn from_bytes(bytes: Vec<u8>) -> (doc: Option<Document>)
        ensures
            match doc {
                Some(d) => d@ == bytes@ && d.wf(),
                None => !valid_document(bytes@),
            },
    {
        let n: usize = bytes.len();
        if n < 5 || n > 0x7fff_ffff {
            proof {
                if n > 0x7fff_ffff {
                    assert(spec_i32_from_le_bytes(bytes@.subrange(0, 4)) < 0x8000_0000);
                }
            }
            return None;
        }
        let declared: i32 = read_i32(bytes.as_slice(), 0);
        if declared < 0 || declared as usize != n {
            return None;
        }
        if !nesting_ok(bytes.as_slice()) {
            return None;
        }
        if !decodes(bytes.as_slice()) {
            return None;
        }
        Some(Document { bytes })
    }

    /// The document without fields, if `bson` accepts its five bytes.
    pub fn new() -> (doc: Option<Document>)
        ensures
            match doc {
                Some(d) => d@ == spec_empty_document() && d.wf(),
                None => !valid_document(spec_empty_document()),
            },
    {
        let mut bytes: Vec<u8> = Vec::new();
        bytes.push(5u8);
        bytes.push(0u8);
        bytes.push(0u8);
        bytes.push(0u8);
        bytes.push(0u8);
        assert(bytes@ =~= spec_empty_document());
        Document::from_bytes(bytes)
    }

    /// The encoded bytes.
    pub fn as_bytes(&self) -> (bytes: &[u8])
        ensures
            bytes@ == self@,
            self.wf(),
    {
        proof {
            use_type_invariant(self);
        }
        self.bytes.as_slice()
    }

    /// The number of encoded bytes.
    pub fn len(&self) -> (n: usize)
        ensures
            n == self@.len(),
            5 <= n <= 0x7fff_ffff,
            self.wf(),
    {
        proof {
            use_type_invariant(self);
        }
        self.bytes.len()
    }

    /// A copy of the document.
    pub fn duplicate(&self) -> (copy: Document)
        ensures
            copy@ == self@,
            copy.wf(),
    {
        proof {
            use_type_invariant(self);
        }
        Document { bytes: self.bytes.clone() }
    }

    /// The first key, which names the command a document carries.
    pub fn first_key(&self) -> (key: Option<String>)
        ensures
            match key {
                Some(k) => spec_first_key(self@) == Some(k@),
                None => spec_first_key(self@) is None,
            },
    {
        proof {
            use_type_invariant(self);
        }
        first_key(self.bytes.as_slice())
    }

    /// The value under `key`.
    pub fn get(&self, key: &str) -> (value: Option<Value>)
        ensures
            match value {
                Some(v) => bson_get(self@, key@) == Some(v@),
                None => bson_get(self@, key@) is None,
            },
    {
        proof {
            use_type_invariant(self);
        }
        get(self.bytes.as_slice(), key)
    }

    /// Whether the document has a field `key` that `get` can hand out.
    pub fn contains_key(&self, key: &str) -> (found: bool)
        ensures
            found == bson_get(self@, key@).is_some(),
    {
        proof {
            use_type_invariant(self);
        }
        get(self.bytes.as_slice(), key).is_some()
    }

    /// The string under `key`; `None` if the field is absent or no string.
    pub fn get_str(&self, key: &str) -> (value: Option<String>)
        ensures
            match value {
                Some(s) => spec_get_str(self@, key@) == Some(s@),
                None => spec_get_str(self@, key@) is None,
            },
    {
        proof {
            use_type_invariant(self);
        }
        match get(self.bytes.as_slice(), key) {
            Some(Value::Text(s)) => Some(s),
            _ => None,
        }
    }

    /// The 64-bit integer under `key`; `None` if the field is absent or of
    /// another type.
    pub fn get_i64(&self, key: &str) -> (value: Option<i64>)
        ensures
            value == spec_get_i64(self@, key@),
    {
        proof {
            use_type_invariant(self);
        }
        match get(self.bytes.as_slice(), key) {
            Some(Value::Int64(n)) => Some(n),
            _ => None,
        }
    }

    /// The boolean under `key`; `None` if the field is absent or of another
    /// type.
    pub fn get_bool(&self, key: &str) -> (value: Option<bool>)
        ensures
            value == spec_get_bool(self@, key@),
    {
        proof {
            use_type_invariant(self);
        }
        match get(self.bytes.as_slice(), key) {
            Some(Value::Flag(b)) => Some(b),
            _ => None,
        }
    }

    /// The document under `key`; `None` if the field is absent, of another
    /// type, or not a valid document once encoded.
    pub fn get_document(&self, key: &str) -> (value: Option<Document>)
        ensures
            match value {
                Some(d) => spec_get_document(self@, key@) == Some(d@) && d.wf(),
                None => spec_get_document(self@, key@) is None,
            },
    {
        proof {
            use_type_invariant(self);
        }
        match get(self.bytes.as_slice(), key) {
            Some(Value::Doc(b)) => Document::from_bytes(b),
            _ => None,
        }
    }

    /// The cursor id that the document names, if it is a reply that names
    /// one. The id 0 reports the end of the cursor.
    pub fn cursor_id(&self) -> (id: Option<i64>)
        ensures
            id == spec_cursor_id(self@),
    {
        match self.get_document("cursor") {
            Some(cursor) => cursor.get_i64("id"),
            None => None,
        }
    }

    /// The document with `value` put under `key`: in place of the old value
    /// if the key is there, else as the last field.
    pub fn with(&self, key: &str, value: &Value) -> (out: Option<Document>)
        ensures
            match out {
                Some(d) => spec_with(self@, key@, value@) == Some(d@) && d.wf(),
                None => spec_with(self@, key@, value@) is None,
            },
    {
        proof {
            use_type_invariant(self);
        }
        if !writable(value) {
            return None;
        }
        let encoded: Option<Vec<u8>> = match value {
            Value::List(items) => insert_list(self.bytes.as_slice(), key, items),
            Value::Texts(items) => insert_texts(self.bytes.as_slice(), key, items),
            _ => insert(self.bytes.as_slice(), key, value),
        };
        match encoded {
            Some(b) => Document::from_bytes(b),
            None => None,
        }
    }
}

} // verus!
