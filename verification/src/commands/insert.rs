//! `insert`: adds documents to a collection.
use vstd::prelude::*;

use crate::commands::{outcome_as, spec_outcome, report, text_view};
use crate::document::{Document, spec_get_str};
use crate::handler::CommandExecutionError;
use crate::rd::RedisParams;

verus! {

pub struct Insert {}

impl Insert {
    pub fn new() -> (handler: Insert) {
        Insert {  }
    }

    /// The database and the collection that the command names.
    pub fn target(&self, command: &Document) -> (params: Option<RedisParams>)
        ensures
            match params {
                Some(p) => spec_get_str(command@, "$db"@) == Some(p.db@) && spec_get_str(command@, "insert"@)
                    == Some(p.collection@),
                None => spec_get_str(command@, "$db"@) is None || spec_get_str(command@, "insert"@) is None,
            },
    {
        RedisParams::from(command, "insert")
    }

    /// The answer once the node was asked: success if it reported no
    /// failure, else the error with the node's own words.
    pub fn outcome(&self, failure: Option<String>) -> (result: Result<Document, CommandExecutionError>)
        ensures
            outcome_as(result, spec_outcome(text_view(failure))),
    {
        report(failure)
    }
}

} // verus!
