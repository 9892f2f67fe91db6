//! The legacy reply: header, flag bits, cursor metadata, documents.
use vstd::prelude::*;
use vstd::bytes::{
    spec_u32_from_le_bytes, spec_u32_to_le_bytes, spec_u64_from_le_bytes, spec_u64_to_le_bytes,
    lemma_auto_spec_u32_to_from_le_bytes, lemma_auto_spec_u64_to_from_le_bytes,
};
use vstd::slice::slice_subrange;

use crate::document::{Document, valid_document};
use crate::wire::{MsgHeader, WireError, Serializable, spec_parse_header, lemma_header_round_trip};
use crate::wire::endian::{read_u32, read_u64, write_u32, write_u64};
use crate::wire::op_msg::documents_view;
use crate::wire::util::{take_document, spec_take_document, lemma_take_document_round_trip};

verus! {

/// A reply in the legacy format.
#[derive(Debug)]
pub struct OP_REPLY {
    pub header: MsgHeader,
    pub flags: u32,
    pub cursor_id: u64,
    pub starting_from: u32,
    pub number_returned: u32,
    pub documents: Vec<Document>,
}

/// The mathematical value of an [`OP_REPLY`].
pub struct ReplyView {
    pub header: MsgHeader,
    pub flags: u32,
    pub cursor_id: u64,
    pub starting_from: u32,
    pub number_returned: u32,
    pub documents: Seq<Seq<u8>>,
}

impl View for OP_REPLY {
    type V = ReplyView;

    open spec fn view(&self) -> ReplyView {
        ReplyView {
            header: self.header,
            flags: self.flags,
            cursor_id: self.cursor_id,
            starting_from: self.starting_from,
            number_returned: self.number_returned,
            documents: documents_view(self.documents@),
        }
    }
}

impl ReplyView {
    /// The encoding of the reply. Of its documents only the first is
    /// written.
    pub open spec fn spec_bytes(self) -> Seq<u8>
        recommends
            self.documents.len() >= 1,
    {
        self.header.spec_bytes() + spec_u32_to_le_bytes(self.flags) + spec_u64_to_le_bytes(self.cursor_id)
            + spec_u32_to_le_bytes(self.starting_from) + spec_u32_to_le_bytes(self.number_returned)
            + self.documents[0]
    }
}

/// The documents at the front of `bytes`, back to back; fewer than two
/// bytes at the end belong to no document.
pub open spec fn spec_take_replies(bytes: Seq<u8>) -> Result<Seq<Seq<u8>>, WireError>
    decreases bytes.len(),
{
    if bytes.len() < 2 {
        Ok(Seq::empty())
    } else {
        match spec_take_document(bytes) {
            Err(e) => Err(e),
            Ok((doc, rest)) => match spec_take_replies(rest) {
                Err(e) => Err(e),
                Ok(docs) => Ok(seq![doc] + docs),
            },
        }
    }
}

/// The reply that `bytes` encode: the header, four bytes of flag bits,
/// eight of the cursor id, four each of the starting offset and of the
/// number returned, then documents to the end.
pub open spec fn spec_parse_reply(bytes: Seq<u8>) -> Result<ReplyView, WireError> {
    if bytes.len() < 36 {
        Err(WireError::Truncated)
    } else {
        match spec_take_replies(bytes.subrange(36, bytes.len() as int)) {
            Err(e) => Err(e),
            Ok(docs) => Ok(
                ReplyView {
                    header: spec_parse_header(bytes),
                    flags: spec_u32_from_le_bytes(bytes.subrange(16, 20)),
                    cursor_id: spec_u64_from_le_bytes(bytes.subrange(20, 28)),
                    starting_from: spec_u32_from_le_bytes(bytes.subrange(28, 32)),
                    number_returned: spec_u32_from_le_bytes(bytes.subrange(32, 36)),
                    documents: docs,
                },
            ),
        }
    }
}

/// What is known of the whole once `done` was taken from its front and
/// `rest` is known of what follows.
pub open spec fn replies_after(done: Seq<Seq<u8>>, rest: Result<Seq<Seq<u8>>, WireError>) -> Result<
    Seq<Seq<u8>>,
    WireError,
> {
    match rest {
        Ok(docs) => Ok(done + docs),
        Err(e) => Err(e),
    }
}

impl OP_REPLY {
    /// Whether every document of the reply is valid.
    pub open spec fn documents_wf(&self) -> bool {
        forall|i: int| 0 <= i < self.documents.len() ==> (#[trigger] self.documents[i]).wf()
    }

    pub fn new(
        header: MsgHeader,
        flags: u32,
        cursor_id: u64,
        starting_from: u32,
        number_returned: u32,
        documents: Vec<Document>,
    ) -> (reply: OP_REPLY)
        ensures
            reply.header == header,
            reply.flags == flags,
            reply.cursor_id == cursor_id,
            reply.starting_from == starting_from,
            reply.number_returned == number_returned,
            reply.documents == documents,
    {
        OP_REPLY {
            header: header,
            flags: flags,
            cursor_id: cursor_id,
            starting_from: starting_from,
            number_returned: number_returned,
            documents: documents,
        }
    }

    /// Parses a whole frame as a legacy reply, with as many documents as
    /// the frame holds.
    pub fn from_bytes(bytes: &[u8]) -> (result: Result<OP_REPLY, WireError>)
        ensures
            match spec_parse_reply(bytes@) {
                Ok(r) => result matches Ok(reply) && reply@ == r && reply.documents_wf(),
                Err(e) => result matches Err(x) && x == e,
            },
    {
        if bytes.len() < 36 {
            return Err(WireError::Truncated);
        }
        let header = MsgHeader::parse(bytes);
        let flags: u32 = read_u32(bytes, 16);
        let cursor_id: u64 = read_u64(bytes, 20);
        let starting_from: u32 = read_u32(bytes, 28);
        let number_returned: u32 = read_u32(bytes, 32);
        let area = slice_subrange(bytes, 36, bytes.len());
        let mut documents: Vec<Document> = Vec::new();
        let mut at: usize = 0;
        assert(area@.subrange(0, area.len() as int) =~= area@);
        assert(documents_view(documents@) =~= Seq::<Seq<u8>>::empty());
        assert(Seq::<Seq<u8>>::empty() + spec_take_replies(area@)->Ok_0 =~= spec_take_replies(area@)->Ok_0);
        while area.len() - at >= 2
            invariant
                at <= area.len(),
                bytes.len() >= 36,
                area@ == bytes@.subrange(36, bytes.len() as int),
                forall|i: int| 0 <= i < documents.len() ==> (#[trigger] documents[i]).wf(),
                spec_take_replies(area@) == replies_after(
                    documents_view(documents@),
                    spec_take_replies(area@.subrange(at as int, area.len() as int)),
                ),
            decreases area.len() - at,
        {
            let rest = slice_subrange(area, at, area.len());
            match take_document(rest) {
                Err(e) => {
                    return Err(e);
                },
                Ok((doc, n)) => {
                    proof {
                        let ghost before = documents_view(documents@);
                        let ghost tail = rest@.subrange(n as int, rest.len() as int);
                        assert(tail =~= area@.subrange(at + n, area.len() as int));
                        assert(documents_view(documents@.push(doc)) =~= before.push(doc@));
                        match spec_take_replies(tail) {
                            Ok(docs) => {
                                assert(before + (seq![doc@] + docs) =~= before.push(doc@) + docs);
                            },
                            Err(e) => {},
                        }
                    }
                    documents.push(doc);
                    at = at + n;
                },
            }
        }
        proof {
            assert(documents_view(documents@) + Seq::<Seq<u8>>::empty() =~= documents_view(documents@));
        }
        Ok(OP_REPLY { header, flags, cursor_id, starting_from, number_returned, documents })
    }
}

impl Serializable for OP_REPLY {
    open spec fn spec_encoding(&self) -> Seq<u8> {
        self@.spec_bytes()
    }

    open spec fn can_encode(&self) -> bool {
        self.documents.len() >= 1
    }

    /// Encodes the reply with its first document; further documents are
    /// not written.
    fn to_vec(&self) -> (out: Vec<u8>)
    {
        let mut out: Vec<u8> = self.header.to_vec();
        write_u32(&mut out, self.flags);
        write_u64(&mut out, self.cursor_id);
        write_u32(&mut out, self.starting_from);
        write_u32(&mut out, self.number_returned);
        out.extend_from_slice(self.documents[0].as_bytes());
        out
    }
}

/// Round trip of a reply with one document: parsing its encoding gives the
/// reply back.
pub proof fn lemma_reply_round_trip(reply: ReplyView)
    requires
        reply.documents.len() == 1,
        valid_document(reply.documents[0]),
    ensures
        spec_parse_reply(reply.spec_bytes()) == Ok::<ReplyView, WireError>(reply),
{
    lemma_auto_spec_u32_to_from_le_bytes();
    lemma_auto_spec_u64_to_from_le_bytes();
    let bytes = reply.spec_bytes();
    let doc = reply.documents[0];
    let fixed = spec_u32_to_le_bytes(reply.flags) + spec_u64_to_le_bytes(reply.cursor_id)
        + spec_u32_to_le_bytes(reply.starting_from) + spec_u32_to_le_bytes(reply.number_returned) + doc;
    lemma_header_round_trip(reply.header, fixed);
    assert(bytes =~= reply.header.spec_bytes() + fixed);
    assert(bytes.subrange(16, 20) =~= spec_u32_to_le_bytes(reply.flags));
    assert(bytes.subrange(20, 28) =~= spec_u64_to_le_bytes(reply.cursor_id));
    assert(bytes.subrange(28, 32) =~= spec_u32_to_le_bytes(reply.starting_from));
    assert(bytes.subrange(32, 36) =~= spec_u32_to_le_bytes(reply.number_returned));
    assert(bytes.subrange(36, bytes.len() as int) =~= doc + Seq::<u8>::empty());
    lemma_take_document_round_trip(doc, Seq::empty());
    let area = doc + Seq::<u8>::empty();
    assert(spec_take_replies(Seq::<u8>::empty()) == Ok::<Seq<Seq<u8>>, WireError>(Seq::empty()));
    assert(spec_take_replies(area) == Ok::<Seq<Seq<u8>>, WireError>(seq![doc] + Seq::<Seq<u8>>::empty()));
    assert(reply.documents =~= seq![doc] + Seq::<Seq<u8>>::empty());
    assert(bytes.len() >= 36);
}

} // verus!
