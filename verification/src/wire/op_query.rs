//! The legacy query: header, flag bits, collection name, paging numbers,
//! and the query document, which carries the command.
use vstd::prelude::*;
use vstd::bytes::{spec_u32_from_le_bytes, lemma_auto_spec_u32_to_from_le_bytes};
use vstd::slice::slice_subrange;
use vstd::utf8::{decode_utf8, valid_utf8};

use crate::document::Document;
use crate::handler::Response;
use crate::wire::{
    MsgHeader, Replyable, Serializable, UnknownMessageKindError, WireError, OP_REPLY_CODE,
};
use crate::wire::endian::read_u32;
use crate::wire::op_msg::documents_view;
use crate::wire::op_reply::{OP_REPLY, ReplyView};
use crate::wire::util::{find_zero, spec_find_zero, spec_take_document, take_document, utf8_text};

verus! {

/// A query in the legacy format.
#[derive(Debug)]
pub struct OP_QUERY {
    pub header: MsgHeader,
    pub flags: u32,
    /// The full collection name, with the zero byte that ends it.
    pub collection: String,
    pub number_to_skip: u32,
    pub number_to_return: u32,
    pub query: Document,
}

/// The mathematical value of an [`OP_QUERY`].
pub struct QueryView {
    pub header: MsgHeader,
    pub flags: u32,
    pub collection: Seq<char>,
    pub number_to_skip: u32,
    pub number_to_return: u32,
    pub query: Seq<u8>,
}

impl View for OP_QUERY {
    type V = QueryView;

    open spec fn view(&self) -> QueryView {
        QueryView {
            header: self.header,
            flags: self.flags,
            collection: self.collection@,
            number_to_skip: self.number_to_skip,
            number_to_return: self.number_to_return,
            query: self.query@,
        }
    }
}

/// The query that the frame `bytes` encodes under `header`: four bytes of
/// flag bits after the header, the collection name up to and with its zero
/// byte, four bytes each of the number to skip and the number to return,
/// and the query document. What follows the query document is not read.
pub open spec fn spec_parse_query(header: MsgHeader, bytes: Seq<u8>) -> Result<QueryView, WireError> {
    if bytes.len() < 20 {
        Err(WireError::Truncated)
    } else {
        let names = bytes.subrange(20, bytes.len() as int);
        let zero = spec_find_zero(names, 0);
        if zero >= names.len() {
            Err(WireError::MalformedIdentifier)
        } else if !valid_utf8(names.subrange(0, zero + 1)) {
            Err(WireError::MalformedIdentifier)
        } else if names.len() < zero + 9 {
            Err(WireError::Truncated)
        } else {
            match spec_take_document(names.subrange(zero + 9, names.len() as int)) {
                Err(e) => Err(e),
                Ok((doc, rest)) => Ok(
                    QueryView {
                        header: header,
                        flags: spec_u32_from_le_bytes(bytes.subrange(16, 20)),
                        collection: decode_utf8(names.subrange(0, zero + 1)),
                        number_to_skip: spec_u32_from_le_bytes(names.subrange(zero + 1, zero + 5)),
                        number_to_return: spec_u32_from_le_bytes(names.subrange(zero + 5, zero + 9)),
                        query: doc,
                    },
                ),
            }
        }
    }
}

/// The legacy reply to a legacy query with header `prior`: one document,
/// no cursor, and a length field that counts the bytes of the reply.
pub open spec fn spec_query_response(prior: MsgHeader, request_id: u32, doc: Seq<u8>) -> ReplyView {
    ReplyView {
        header: prior.spec_response(request_id, (36 + doc.len()) as u32, OP_REPLY_CODE),
        flags: 0,
        cursor_id: 0,
        starting_from: 0,
        number_returned: 1,
        documents: seq![doc],
    }
}

/// Builds the legacy reply that answers a legacy query with header
/// `prior` with `doc`.
pub fn query_response(prior: &MsgHeader, request_id: u32, doc: &Document) -> (reply: OP_REPLY)
    ensures
        reply@ == spec_query_response(*prior, request_id, doc@),
        reply@.header.response_to == prior.request_id,
        reply@.header.msg_length == reply@.spec_bytes().len(),
        reply.documents.len() == 1,
{
    let length: usize = 36 + doc.len();
    let header = prior.get_response_with_op_code(request_id, length as u32, OP_REPLY_CODE);
    let mut documents: Vec<Document> = Vec::new();
    documents.push(doc.duplicate());
    assert(documents_view(documents@) =~= seq![doc@]);
    proof {
        lemma_auto_spec_u32_to_from_le_bytes();
        vstd::bytes::lemma_auto_spec_u64_to_from_le_bytes();
    }
    OP_REPLY::new(header, 0, 0, 0, 1, documents)
}

impl OP_QUERY {
    /// Parses the frame `bytes`, whose header was read as `header`, as a
    /// legacy query.
    pub fn parse(header: MsgHeader, bytes: &[u8]) -> (result: Result<OP_QUERY, WireError>)
        ensures
            match spec_parse_query(header, bytes@) {
                Ok(q) => result matches Ok(query) && query@ == q && query.query.wf(),
                Err(e) => result matches Err(x) && x == e,
            },
    {
        if bytes.len() < 20 {
            return Err(WireError::Truncated);
        }
        let flags: u32 = read_u32(bytes, 16);
        let names = slice_subrange(bytes, 20, bytes.len());
        let zero: usize = find_zero(names);
        if zero >= names.len() {
            return Err(WireError::MalformedIdentifier);
        }
        let collection: String = match utf8_text(slice_subrange(names, 0, zero + 1)) {
            Some(text) => text.to_owned(),
            None => {
                return Err(WireError::MalformedIdentifier);
            },
        };
        proof {
            vstd::utf8::encode_utf8_decode_utf8(collection@);
        }
        if names.len() - zero < 9 {
            return Err(WireError::Truncated);
        }
        let number_to_skip: u32 = read_u32(names, zero + 1);
        let number_to_return: u32 = read_u32(names, zero + 5);
        match take_document(slice_subrange(names, zero + 9, names.len())) {
            Err(e) => Err(e),
            Ok((query, n)) => Ok(
                OP_QUERY { header, flags, collection, number_to_skip, number_to_return, query },
            ),
        }
    }

    /// The legacy reply that answers this query with `doc`.
    pub fn build_response(&self, request_id: u32, doc: &Document) -> (reply: OP_REPLY)
        ensures
            reply@ == spec_query_response(self.header, request_id, doc@),
            reply@.header.response_to == self.header.request_id,
            reply@.header.msg_length == reply@.spec_bytes().len(),
            reply.documents.len() == 1,
    {
        query_response(&self.header, request_id, doc)
    }
}

/// The bytes of the reply to the legacy query `this` that carries the
/// first of `docs`: none unless `docs` has a document.
pub open spec fn spec_query_reply(this: QueryView, id: u32, docs: Seq<Seq<u8>>) -> Option<Seq<u8>> {
    if docs.len() >= 1 {
        Some(spec_query_response(this.header, id, docs[0]).spec_bytes())
    } else {
        None
    }
}

impl Replyable for OP_QUERY {
    open spec fn spec_reply(&self, response: Response) -> Option<Seq<u8>> {
        spec_query_reply(self@, response.id, documents_view(response.docs@))
    }

    /// The bytes of the legacy reply that carries the first document of
    /// `response`.
    fn reply(&self, response: Response) -> (result: Result<Vec<u8>, UnknownMessageKindError>)
    {
        if response.docs.len() < 1 {
            return Err(UnknownMessageKindError);
        }
        let reply = self.build_response(response.get_id(), response.get_doc());
        Ok(reply.to_vec())
    }
}

} // verus!
