//! `listDatabases`: the databases of the node, by name or in full.
use vstd::prelude::*;

use crate::commands::batch_value;
use crate::document::{
    Document, Value, ValueView, built_as, put, spec_get_bool, spec_new_document, spec_put, texts_view,
};
use crate::wire::op_msg::documents_view;

verus! {

pub struct ListDatabases {}

/// Whether the command asks for names only: the boolean under `nameOnly`,
/// and no where there is none.
pub open spec fn spec_name_only(command: Seq<u8>) -> bool {
    match spec_get_bool(command, "nameOnly"@) {
        Some(flag) => flag,
        None => false,
    }
}

/// The answer that lists the databases by name.
pub open spec fn spec_database_names(names: Seq<Seq<char>>) -> Option<Seq<u8>> {
    spec_put(
        spec_put(spec_new_document(), "databases"@, ValueView::Texts(names)),
        "ok"@,
        ValueView::Whole(1),
    )
}

/// The answer that lists the databases in full; the sizes are not worked
/// out and stand at 0.
pub open spec fn spec_databases(batch: Seq<Seq<u8>>) -> Option<Seq<u8>> {
    spec_put(
        spec_put(
            spec_put(
                spec_put(spec_new_document(), "databases"@, ValueView::List(batch)),
                "totalSize"@,
                ValueView::Int64(0),
            ),
            "totalSizeMb"@,
            ValueView::Int64(0),
        ),
        "ok"@,
        ValueView::Whole(1),
    )
}

impl ListDatabases {
    pub fn new() -> (handler: ListDatabases) {
        ListDatabases {  }
    }

    /// Whether the command asks for names only.
    pub fn name_only(&self, command: &Document) -> (flag: bool)
        ensures
            flag == spec_name_only(command@),
    {
        match command.get_bool("nameOnly") {
            Some(flag) => flag,
            None => false,
        }
    }

    /// The answer by name, once the node has named its databases.
    pub fn names(&self, names: Vec<String>) -> (doc: Option<Document>)
        ensures
            built_as(doc, spec_database_names(texts_view(names@))),
    {
        let doc = put(Document::new(), "databases", &Value::Texts(names));
        put(doc, "ok", &Value::Whole(1))
    }

    /// The answer in full, once the node has described its databases.
    pub fn result(&self, batch: &Vec<Document>) -> (doc: Option<Document>)
        ensures
            built_as(doc, spec_databases(documents_view(batch@))),
    {
        let doc = put(Document::new(), "databases", &batch_value(batch));
        let doc = put(doc, "totalSize", &Value::Int64(0));
        let doc = put(doc, "totalSizeMb", &Value::Int64(0));
        put(doc, "ok", &Value::Whole(1))
    }
}

} // verus!
