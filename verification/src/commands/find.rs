//! The one-shot query: answered from the cache where the same collection
//! and filter were asked before.
use vstd::prelude::*;

use crate::commands::{batch_reply, batch_value, hash, spec_batch_reply, spec_hash};
use crate::document::{
    Document, Value, ValueView, bson_get, built_as, put, spec_empty_document, spec_get_str, spec_new_document,
    spec_put, valid_document,
};
use crate::rd::RedisParams;
use crate::wire::op_msg::documents_view;
use crate::handler::{Fault, FaultView, Pending, Step, StepView, stepped_as};
use crate::storage::{EntryView, InnerData, Storage};

verus! {

pub struct Find {}

/// The encoded filter of a query: the document under `filter`, or the
/// document without fields where the command names none. There is none
/// where `filter` holds something else than a valid document.
pub open spec fn spec_filter(command: Seq<u8>) -> Option<Seq<u8>> {
    match bson_get(command, "filter"@) {
        None => Some(spec_empty_document()),
        Some(ValueView::Doc(filter)) => if valid_document(filter) {
            Some(filter)
        } else {
            None
        },
        Some(_) => None,
    }
}

/// The key under which the result of the query `command` is cached, if the
/// command names its collection and its filter is in order.
pub open spec fn spec_query_key(command: Seq<u8>) -> Option<u64> {
    match spec_get_str(command, "find"@) {
        None => None,
        Some(collection) => match spec_filter(command) {
            None => None,
            Some(filter) => Some(spec_hash(collection, filter)),
        },
    }
}

/// What a query comes to against a cache: the cached document where the
/// key is there, the order to ask upstream where it is not. The cache is
/// not changed.
pub open spec fn spec_find(cache: Map<u64, EntryView>, command: Seq<u8>) -> Result<StepView, FaultView> {
    match spec_query_key(command) {
        None => Err(FaultView::MissingArgument),
        Some(key) => if cache.contains_key(key) {
            match cache[key] {
                EntryView::Document(doc) => Ok(StepView::Reply(doc)),
                EntryView::Documents(_) => Err(FaultView::CacheInvariant),
            }
        } else {
            Ok(StepView::Forward(Pending::Query { key }))
        },
    }
}

/// The answer for the collection with the namespace `ns` in which the
/// node found `batch`: a cursor that is at its end, with the batch.
pub open spec fn spec_found(ns: Seq<char>, batch: Seq<Seq<u8>>) -> Option<Seq<u8>> {
    spec_batch_reply(
        spec_put(
            spec_put(
                spec_put(spec_new_document(), "firstBatch"@, ValueView::List(batch)),
                "id"@,
                ValueView::Int64(0),
            ),
            "ns"@,
            ValueView::Text(ns),
        ),
    )
}

impl Find {
    pub fn new() -> (handler: Find) {
        return Find {  };
    }

    /// The database and the collection that the command names.
    pub fn target(&self, command: &Document) -> (params: Option<RedisParams>)
        ensures
            match params {
                Some(p) => spec_get_str(command@, "$db"@) == Some(p.db@) && spec_get_str(command@, "find"@)
                    == Some(p.collection@),
                None => spec_get_str(command@, "$db"@) is None || spec_get_str(command@, "find"@) is None,
            },
    {
        RedisParams::from(command, "find")
    }

    /// The answer once the node has found the documents of `batch`.
    pub fn result(&self, params: &RedisParams, batch: &Vec<Document>) -> (doc: Option<Document>)
        ensures
            built_as(doc, spec_found(params.db@ + "."@ + params.collection@, documents_view(batch@))),
    {
        let cursor = put(Document::new(), "firstBatch", &batch_value(batch));
        let cursor = put(cursor, "id", &Value::Int64(0));
        let cursor = put(cursor, "ns", &Value::Text(params.namespace()));
        batch_reply(cursor)
    }

    /// The key under which the result of the query `command` is cached.
    pub fn key(&self, command: &Document) -> (key: Option<u64>)
        ensures
            key == spec_query_key(command@),
    {
        let collection: String = match command.get_str("find") {
            Some(name) => name,
            None => {
                return None;
            },
        };
        match command.get("filter") {
            None => {
                let mut empty: Vec<u8> = Vec::new();
                empty.push(5u8);
                empty.push(0u8);
                empty.push(0u8);
                empty.push(0u8);
                empty.push(0u8);
                assert(empty@ =~= spec_empty_document());
                Some(hash(collection.as_str(), empty.as_slice()))
            },
            Some(Value::Doc(encoded)) => match Document::from_bytes(encoded) {
                Some(filter) => Some(hash(collection.as_str(), filter.as_bytes())),
                None => None,
            },
            Some(_) => None,
        }
    }

    /// Answers the query `command` from the cache, or says under which key
    /// the answer from upstream is to be cached.
    pub fn handle(&self, storage: &Storage, command: &Document) -> (result: Result<Step, Fault>)
        ensures
            stepped_as(result, spec_find(storage@, command@)),
    {
        let key: u64 = match self.key(command) {
            Some(key) => key,
            None => {
                return Err(Fault::MissingArgument);
            },
        };
        match storage.get(key) {
            Some(InnerData::Document(doc)) => Ok(Step::Reply(doc.duplicate())),
            Some(InnerData::Documents(_)) => Err(Fault::CacheInvariant),
            None => Ok(Step::Forward(Pending::Query { key })),
        }
    }
}

} // verus!
