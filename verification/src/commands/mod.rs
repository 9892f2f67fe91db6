//! Commands by name, and the keys under which their results are cached.
use vstd::prelude::*;
use vstd::bytes::spec_u64_to_le_bytes;
use vstd::std_specs::hash::DefaultHasherAdditionalSpecFns;
use vstd::utf8::encode_utf8;
use std::collections::hash_map::DefaultHasher;
use std::hash::Hasher;

use crate::document::{
    Document, Value, ValueView, built_as, ok_document, option_view, put, spec_new_document,
    spec_ok_document, spec_put,
};
use crate::handler::{CommandExecutionError, Fault, FaultView, raw_documents};
use crate::text::same_text;
use crate::wire::endian::write_u64;
use crate::wire::op_msg::documents_view;

pub mod aggregate;
pub mod create;
pub mod find;
pub mod insert;
pub mod list_collections;
pub mod list_databases;
pub mod list_indexes;
pub mod ping;

verus! {

/// The key of a one-shot query: a digest of the collection name and of
/// the encoded filter, each hashed as a part of its own.
pub open spec fn spec_hash(collection: Seq<char>, filter: Seq<u8>) -> u64 {
    DefaultHasher::spec_finish(seq![encode_utf8(collection), filter])
}

/// The two phases of a cursor that the cache tells apart.
#[derive(Debug, Clone, Copy, PartialEq, Eq, Structural)]
pub enum Phase {
    /// More batches are expected from upstream.
    Open,
    /// Upstream has reported the end; the batches are replayed.
    Closed,
}

/// The byte that stands for a phase in a key.
pub open spec fn spec_phase_tag(phase: Phase) -> u8 {
    match phase {
        Phase::Open => 0,
        Phase::Closed => 1,
    }
}

/// The key of a cursor in one of its phases: a digest of the collection
/// name, of the eight bytes of the cursor id, and of the phase tag. It has
/// one part more than the key of a query.
pub open spec fn spec_cursor_key(collection: Seq<char>, cursor_id: i64, phase: Phase) -> u64 {
    DefaultHasher::spec_finish(
        seq![encode_utf8(collection), spec_u64_to_le_bytes(cursor_id as u64), seq![spec_phase_tag(phase)]],
    )
}

/// The key under which the result of a query on `collection` with the
/// encoded filter `filter` is cached. Equal names and equal filter bytes
/// give equal keys.
pub fn hash(collection: &str, filter: &[u8]) -> (key: u64)
    ensures
        key == spec_hash(collection@, filter@),
{
    let mut hasher = DefaultHasher::new();
    hasher.write(collection.as_bytes());
    hasher.write(filter);
    assert(hasher@ =~= seq![encode_utf8(collection@), filter@]);
    hasher.finish()
}

/// The key under which the batches of a cursor are cached in `phase`.
pub fn cursor_key(collection: &str, cursor_id: i64, phase: Phase) -> (key: u64)
    ensures
        key == spec_cursor_key(collection@, cursor_id, phase),
{
    let mut id_bytes: Vec<u8> = Vec::new();
    write_u64(&mut id_bytes, cursor_id as u64);
    let mut tag: Vec<u8> = Vec::new();
    match phase {
        Phase::Open => {
            tag.push(0u8);
        },
        Phase::Closed => {
            tag.push(1u8);
        },
    }
    let mut hasher = DefaultHasher::new();
    hasher.write(collection.as_bytes());
    hasher.write(id_bytes.as_slice());
    hasher.write(tag.as_slice());
    assert(id_bytes@ =~= spec_u64_to_le_bytes(cursor_id as u64));
    assert(tag@ =~= seq![spec_phase_tag(phase)]);
    assert(hasher@ =~= seq![
        encode_utf8(collection@),
        spec_u64_to_le_bytes(cursor_id as u64),
        seq![spec_phase_tag(phase)],
    ]);
    hasher.finish()
}

/// The commands that the proxy knows by name.
#[derive(Debug, Clone, Copy, PartialEq, Eq, Structural)]
pub enum Command {
    /// Server identity: `isMaster`, `ismaster`, `hello`.
    IsMaster,
    Ping,
    /// A one-shot query, answered from the cache where it can be.
    Find,
    /// The next batch of a cursor.
    GetMore,
    Aggregate,
    Create,
    Insert,
    ListCollections,
    ListDatabases,
    ListIndexes,
    GetParameter,
    /// Any other name.
    Unknown,
}

/// The command that a name stands for. Names match exactly, letter case
/// included.
pub open spec fn spec_lookup(name: Seq<char>) -> Command {
    if name == "isMaster"@ || name == "ismaster"@ || name == "hello"@ {
        Command::IsMaster
    } else if name == "ping"@ {
        Command::Ping
    } else if name == "find"@ {
        Command::Find
    } else if name == "getMore"@ {
        Command::GetMore
    } else if name == "aggregate"@ {
        Command::Aggregate
    } else if name == "create"@ {
        Command::Create
    } else if name == "insert"@ {
        Command::Insert
    } else if name == "listCollections"@ {
        Command::ListCollections
    } else if name == "listDatabases"@ {
        Command::ListDatabases
    } else if name == "listIndexes"@ {
        Command::ListIndexes
    } else if name == "getParameter"@ {
        Command::GetParameter
    } else {
        Command::Unknown
    }
}

/// Looks a command up by its name.
pub fn lookup(name: &str) -> (command: Command)
    ensures
        command == spec_lookup(name@),
{
    if same_text(name, "isMaster") || same_text(name, "ismaster") || same_text(name, "hello") {
        Command::IsMaster
    } else if same_text(name, "ping") {
        Command::Ping
    } else if same_text(name, "find") {
        Command::Find
    } else if same_text(name, "getMore") {
        Command::GetMore
    } else if same_text(name, "aggregate") {
        Command::Aggregate
    } else if same_text(name, "create") {
        Command::Create
    } else if same_text(name, "insert") {
        Command::Insert
    } else if same_text(name, "listCollections") {
        Command::ListCollections
    } else if same_text(name, "listDatabases") {
        Command::ListDatabases
    } else if same_text(name, "listIndexes") {
        Command::ListIndexes
    } else if same_text(name, "getParameter") {
        Command::GetParameter
    } else {
        Command::Unknown
    }
}

/// The documents of a batch as the value of a field.
pub fn batch_value(batch: &Vec<Document>) -> (value: Value)
    ensures
        value@ == ValueView::List(documents_view(batch@)),
{
    Value::List(raw_documents(batch))
}

/// The answer that carries a batch: the cursor document under `cursor`,
/// and `ok` at 1. There is none where the cursor document could not be
/// built.
pub open spec fn spec_batch_reply(cursor: Option<Seq<u8>>) -> Option<Seq<u8>> {
    match cursor {
        Some(c) => spec_put(spec_put(spec_new_document(), "cursor"@, ValueView::Doc(c)), "ok"@, ValueView::Whole(1)),
        None => None,
    }
}

/// Builds the answer that carries a batch from its cursor document.
pub fn batch_reply(cursor: Option<Document>) -> (doc: Option<Document>)
    ensures
        built_as(doc, spec_batch_reply(option_view(cursor))),
{
    match cursor {
        Some(c) => {
            let inner = Value::Doc(vstd::slice::slice_to_vec(c.as_bytes()));
            let doc = put(Document::new(), "cursor", &inner);
            put(doc, "ok", &Value::Whole(1))
        },
        None => None,
    }
}

/// The characters of a text that may be absent.
pub open spec fn text_view(text: Option<String>) -> Option<Seq<char>> {
    match text {
        Some(s) => Some(s@),
        None => None,
    }
}

/// What a command that changes the node comes to: the document that
/// reports success where the node reported no failure, else the error
/// with the words of the failure.
pub open spec fn spec_outcome(failure: Option<Seq<char>>) -> Result<Seq<u8>, Seq<char>> {
    match failure {
        Some(words) => Err(words),
        None => match spec_ok_document() {
            Some(doc) => Ok(doc),
            None => Err(FaultView::Encoding.spec_message()),
        },
    }
}

/// Whether `result` is the executable form of `expected`.
pub open spec fn outcome_as(
    result: Result<Document, CommandExecutionError>,
    expected: Result<Seq<u8>, Seq<char>>,
) -> bool {
    match expected {
        Ok(doc) => result matches Ok(d) && d@ == doc && d.wf(),
        Err(words) => result matches Err(e) && e.message@ == words,
    }
}

/// Builds what a command that changes the node comes to.
pub fn report(failure: Option<String>) -> (result: Result<Document, CommandExecutionError>)
    ensures
        outcome_as(result, spec_outcome(text_view(failure))),
{
    match failure {
        Some(words) => Err(CommandExecutionError::new(words)),
        None => match ok_document() {
            Some(doc) => Ok(doc),
            None => Err(Fault::Encoding.into_error()),
        },
    }
}

} // verus!
