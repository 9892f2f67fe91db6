//! `aggregate`: the results of a pipeline, as one batch.
use vstd::prelude::*;

use crate::commands::{batch_value, spec_batch_reply, batch_reply};
use crate::document::{
    Document, Value, ValueView, built_as, put, spec_get_str, spec_new_document, spec_put,
};
use crate::rd::RedisParams;
use crate::wire::op_msg::documents_view;

verus! {

pub struct Aggregate {}

/// The answer for the collection with the namespace `ns` on which a
/// pipeline gave `batch`: a cursor that is at its end, with the batch.
pub open spec fn spec_aggregate(ns: Seq<char>, batch: Seq<Seq<u8>>) -> Option<Seq<u8>> {
    spec_batch_reply(
        spec_put(
            spec_put(
                spec_put(
                    spec_put(spec_new_document(), "firstBatch"@, ValueView::List(batch)),
                    "id"@,
                    ValueView::Int32(0),
                ),
                "ns"@,
                ValueView::Text(ns),
            ),
            "ok"@,
            ValueView::Whole(1),
        ),
    )
}

impl Aggregate {
    pub fn new() -> (handler: Aggregate) {
        Aggregate {  }
    }

    /// The database and the collection that the command names.
    pub fn target(&self, command: &Document) -> (params: Option<RedisParams>)
        ensures
            match params {
                Some(p) => spec_get_str(command@, "$db"@) == Some(p.db@) && spec_get_str(
                    command@,
                    "aggregate"@,
                ) == Some(p.collection@),
                None => spec_get_str(command@, "$db"@) is None || spec_get_str(command@, "aggregate"@) is None,
            },
    {
        RedisParams::from(command, "aggregate")
    }

    /// The answer once the node has run the pipeline.
    pub fn result(&self, params: &RedisParams, batch: &Vec<Document>) -> (doc: Option<Document>)
        ensures
            built_as(doc, spec_aggregate(params.db@ + "."@ + params.collection@, documents_view(batch@))),
    {
        let cursor = put(Document::new(), "firstBatch", &batch_value(batch));
        let cursor = put(cursor, "id", &Value::Int32(0));
        let cursor = put(cursor, "ns", &Value::Text(params.namespace()));
        let cursor = put(cursor, "ok", &Value::Whole(1));
        batch_reply(cursor)
    }
}

} // verus!
