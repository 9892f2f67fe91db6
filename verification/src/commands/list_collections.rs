//! `listCollections`: the collections of a database, as one batch.
use vstd::prelude::*;
use vstd::string::StringExecFns;

use crate::commands::{batch_value, spec_batch_reply, batch_reply};
use crate::document::{
    Document, Value, ValueView, built_as, put, spec_get_str, spec_new_document, spec_put,
};
use crate::wire::op_msg::documents_view;

verus! {

pub struct ListCollections {}

/// The answer for the database `db` whose collections are described by
/// `batch`: a cursor that is at its end, named after the command, with
/// the batch.
pub open spec fn spec_list_collections(db: Seq<char>, batch: Seq<Seq<u8>>) -> Option<Seq<u8>> {
    spec_batch_reply(
        spec_put(
            spec_put(
                spec_put(spec_new_document(), "id"@, ValueView::Int64(0)),
                "ns"@,
                ValueView::Text(db + ".$cmd.listCollections"@),
            ),
            "firstBatch"@,
            ValueView::List(batch),
        ),
    )
}

impl ListCollections {
    pub fn new() -> (handler: ListCollections) {
        ListCollections {  }
    }

    /// The database that the command names.
    pub fn database(&self, command: &Document) -> (db: Option<String>)
        ensures
            match db {
                Some(s) => spec_get_str(command@, "$db"@) == Some(s@),
                None => spec_get_str(command@, "$db"@) is None,
            },
    {
        command.get_str("$db")
    }

    /// The answer once the node has described the collections.
    pub fn result(&self, db: &str, batch: &Vec<Document>) -> (doc: Option<Document>)
        ensures
            built_as(doc, spec_list_collections(db@, documents_view(batch@))),
    {
        let mut ns: String = db.to_owned();
        ns.append(".$cmd.listCollections");
        let cursor = put(Document::new(), "id", &Value::Int64(0));
        let cursor = put(cursor, "ns", &Value::Text(ns));
        let cursor = put(cursor, "firstBatch", &batch_value(batch));
        batch_reply(cursor)
    }
}

} // verus!
