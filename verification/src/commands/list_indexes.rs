//! `listIndexes`: the indexes of a collection, as one batch.
use vstd::prelude::*;

use crate::commands::{batch_value, spec_batch_reply, batch_reply};
use crate::document::{
    Document, Value, ValueView, built_as, put, spec_get_str, spec_new_document, spec_put,
};
use crate::rd::RedisParams;
use crate::wire::op_msg::documents_view;

verus! {

pub struct ListIndexes {}

/// The answer for the collection with the namespace `ns` whose indexes
/// are described by `batch`: a cursor that is at its end, with the batch.
pub open spec fn spec_list_indexes(ns: Seq<char>, batch: Seq<Seq<u8>>) -> Option<Seq<u8>> {
    spec_batch_reply(
        spec_put(
            spec_put(spec_put(spec_new_document(), "id"@, ValueView::Int32(0)), "ns"@, ValueView::Text(ns)),
            "firstBatch"@,
            ValueView::List(batch),
        ),
    )
}

impl ListIndexes {
    pub fn new() -> (handler: ListIndexes) {
        ListIndexes {  }
    }

    /// The database and the collection that the command names.
    pub fn target(&self, command: &Document) -> (params: Option<RedisParams>)
        ensures
            match params {
                Some(p) => spec_get_str(command@, "$db"@) == Some(p.db@) && spec_get_str(
                    command@,
                    "listIndexes"@,
                ) == Some(p.collection@),
                None => spec_get_str(command@, "$db"@) is None || spec_get_str(command@, "listIndexes"@) is None,
            },
    {
        RedisParams::from(command, "listIndexes")
    }

    /// The answer once the node has described the indexes.
    pub fn result(&self, params: &RedisParams, batch: &Vec<Document>) -> (doc: Option<Document>)
        ensures
            built_as(doc, spec_list_indexes(params.db@ + "."@ + params.collection@, documents_view(batch@))),
    {
        let cursor = put(Document::new(), "id", &Value::Int32(0));
        let cursor = put(cursor, "ns", &Value::Text(params.namespace()));
        let cursor = put(cursor, "firstBatch", &batch_value(batch));
        batch_reply(cursor)
    }
}

} // verus!
