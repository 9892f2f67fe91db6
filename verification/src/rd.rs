//! The database and the collection that a command is aimed at.
use vstd::prelude::*;

use crate::document::{Document, spec_get_str};

verus! {

/// The database and the collection that a command names.
#[derive(Debug, Clone)]
pub struct RedisParams {
    pub db: String,
    pub collection: String,
}

impl RedisParams {
    pub fn new(db: &str, collection: &str) -> (params: RedisParams)
        ensures
            params.db@ == db@,
            params.collection@ == collection@,
    {
        RedisParams { db: db.to_owned(), collection: collection.to_owned() }
    }

    /// Reads the database from the string under `$db` and the collection
    /// from the string under `col_attr`; none where either is missing.
    pub fn from(doc: &Document, col_attr: &str) -> (params: Option<RedisParams>)
        ensures
            match params {
                Some(p) => spec_get_str(doc@, "$db"@) == Some(p.db@) && spec_get_str(doc@, col_attr@) == Some(
                    p.collection@,
                ),
                None => spec_get_str(doc@, "$db"@) is None || spec_get_str(doc@, col_attr@) is None,
            },
    {
        let db: String = match doc.get_str("$db") {
            Some(db) => db,
            None => {
                return None;
            },
        };
        let collection: String = match doc.get_str(col_attr) {
            Some(collection) => collection,
            None => {
                return None;
            },
        };
        Some(RedisParams { db, collection })
    }

    /// The namespace of the collection: the database, a dot, the
    /// collection.
    pub fn namespace(&self) -> (ns: String)
        ensures
            ns@ == self.db@ + "."@ + self.collection@,
    {
        let mut ns: String = self.db.clone();
        ns.append(".");
        ns.append(self.collection.as_str());
        ns
    }
}

} // verus!
