//! `create`: makes a collection.
use vstd::prelude::*;

use crate::commands::{outcome_as, spec_outcome, report};
use crate::document::{Document, spec_get_str};
use crate::handler::CommandExecutionError;
use crate::rd::RedisParams;

verus! {

pub struct Create {}

impl Create {
    pub fn new() -> (handler: Create) {
        Create {  }
    }

    /// The database and the collection that the command names.
    pub fn target(&self, command: &Document) -> (params: Option<RedisParams>)
        ensures
            match params {
                Some(p) => spec_get_str(command@, "$db"@) == Some(p.db@) && spec_get_str(command@, "create"@)
                    == Some(p.collection@),
                None => spec_get_str(command@, "$db"@) is None || spec_get_str(command@, "create"@) is None,
            },
    {
        RedisParams::from(command, "create")
    }

    /// The answer once the node was asked: success if it made the
    /// collection, the error `AlreadyExists` if it did not.
    pub fn outcome(&self, created: bool) -> (result: Result<Document, CommandExecutionError>)
        ensures
            outcome_as(
                result,
                spec_outcome(
                    if created {
                        None
                    } else {
                        Some("AlreadyExists"@)
                    },
                ),
            ),
    {
        if created {
            report(None)
        } else {
            report(Some("AlreadyExists".to_owned()))
        }
    }
}

} // verus!
