//! `ping`: answered with success, whatever the arguments.
use vstd::prelude::*;

use crate::document::{Document, built_as, ok_document, spec_ok_document};

verus! {

pub struct Ping {}

impl Ping {
    pub fn new() -> (handler: Ping) {
        return Ping {  };
    }

    /// The document that reports success.
    pub fn handle(&self) -> (doc: Option<Document>)
        ensures
            built_as(doc, spec_ok_document()),
    {
        ok_document()
    }
}

} // verus!
