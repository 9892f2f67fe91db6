//! The modern message: header, flag bits, sections, optional checksum.
use vstd::prelude::*;
use vstd::bytes::{spec_u32_from_le_bytes, spec_u32_to_le_bytes, lemma_auto_spec_u32_to_from_le_bytes};
use vstd::slice::slice_subrange;
use vstd::utf8::encode_utf8;

use crate::document::{Document, valid_document};
use crate::handler::Response;
use crate::wire::{
    MsgHeader, OpCode, OpCodeView, Replyable, Serializable, UnknownMessageKindError, WireError,
    lemma_header_round_trip, spec_parse_header, CHECKSUM_PRESENT,
};
use crate::wire::endian::{read_u32, write_u32};
use crate::wire::util::{
    parse_section, section_at, spec_parse_section, lemma_parsed_section_is_wf, lemma_section_length,
    lemma_section_round_trip,
};

verus! {

/// One self-describing part of a message body.
#[derive(Debug)]
pub struct Section {
    pub kind: u8,
    pub identifier: Option<String>,
    pub documents: Vec<Document>,
}

/// The mathematical value of a [`Section`]: the identifier as characters,
/// each document as its bytes.
pub struct SectionView {
    pub kind: u8,
    pub identifier: Option<Seq<char>>,
    pub documents: Seq<Seq<u8>>,
}

/// The bytes of each document in turn.
pub open spec fn documents_view(documents: Seq<Document>) -> Seq<Seq<u8>> {
    documents.map_values(|d: Document| d@)
}

/// The characters of an identifier that may be absent.
pub open spec fn identifier_view(identifier: Option<String>) -> Option<Seq<char>> {
    match identifier {
        Some(s) => Some(s@),
        None => None,
    }
}

impl View for Section {
    type V = SectionView;

    open spec fn view(&self) -> SectionView {
        SectionView {
            kind: self.kind,
            identifier: identifier_view(self.identifier),
            documents: documents_view(self.documents@),
        }
    }
}

/// Whether `bytes` are an identifier as the wire carries it: text that ends
/// in its only zero byte.
pub open spec fn terminated(bytes: Seq<u8>) -> bool {
    &&& bytes.len() >= 1
    &&& bytes.last() == 0
    &&& forall|i: int| 0 <= i < bytes.len() - 1 ==> bytes[i] != 0
}

impl SectionView {
    /// The bytes of the identifier; none where it is absent.
    pub open spec fn identifier_bytes(self) -> Seq<u8> {
        match self.identifier {
            Some(s) => encode_utf8(s),
            None => Seq::empty(),
        }
    }

    /// The value of the length field of a section of kind 1: the field
    /// itself, the identifier and the documents.
    pub open spec fn declared_size(self) -> int {
        4 + self.identifier_bytes().len() as int + self.documents.flatten().len() as int
    }

    /// The encoding of the section. A section of kind 1 carries its length
    /// and its identifier before the documents; any other carries the kind
    /// tag and the documents.
    pub open spec fn spec_bytes(self) -> Seq<u8> {
        if self.kind == 1 {
            seq![1u8] + spec_u32_to_le_bytes(self.declared_size() as u32) + self.identifier_bytes()
                + self.documents.flatten()
        } else {
            seq![self.kind] + self.documents.flatten()
        }
    }

    /// The shape of a section on the wire: kind 0 with one document and no
    /// identifier, or kind 1 with a terminated identifier and its
    /// documents; every document valid, and the length in reach of its
    /// field. A client sends at least one document in a section of kind 1;
    /// the codec reads and writes a section without any just as well.
    pub open spec fn wf(self) -> bool {
        &&& forall|i: int| 0 <= i < self.documents.len() ==> valid_document(#[trigger] self.documents[i])
        &&& self.kind == 0 || self.kind == 1
        &&& self.kind == 0 ==> self.identifier is None && self.documents.len() == 1
        &&& self.kind == 1 ==> {
            &&& self.identifier is Some
            &&& terminated(self.identifier_bytes())
            &&& self.declared_size() <= u32::MAX
        }
    }
}

impl Section {
    /// Whether every document of the section is valid.
    pub open spec fn documents_wf(&self) -> bool {
        forall|i: int| 0 <= i < self.documents.len() ==> (#[trigger] self.documents[i]).wf()
    }

    /// Parses one section from the front of `bytes` and hands back what
    /// follows it.
    pub fn from_bytes(bytes: Vec<u8>) -> (result: Result<(Section, Vec<u8>), WireError>)
        ensures
            crate::wire::util::parsed_as(result, crate::wire::util::spec_parse_section(bytes@)),
            result matches Ok(pair) ==> pair.0@.wf(),
    {
        parse_section(bytes.as_slice())
    }
}

/// Appends the bytes of each document in turn.
pub fn write_documents(documents: &Vec<Document>, out: &mut Vec<u8>)
    ensures
        final(out)@ == old(out)@ + documents_view(documents@).flatten(),
{
    let mut i: usize = 0;
    assert(documents_view(documents@.subrange(0, 0)) =~= Seq::<Seq<u8>>::empty());
    assert(out@ =~= old(out)@ + Seq::<Seq<u8>>::empty().flatten());
    while i < documents.len()
        invariant
            i <= documents.len(),
            out@ == old(out)@ + documents_view(documents@.subrange(0, i as int)).flatten(),
        decreases documents.len() - i,
    {
        proof {
            let done = documents_view(documents@.subrange(0, i as int));
            assert(documents_view(documents@.subrange(0, i + 1)) =~= done.push(documents[i as int]@));
            done.lemma_flatten_push(documents[i as int]@);
        }
        out.extend_from_slice(documents[i].as_bytes());
        i = i + 1;
    }
    assert(documents@.subrange(0, documents.len() as int) =~= documents@);
}

impl Section {
    /// Appends the encoding of the section. The length field of a section
    /// of kind 1 is computed from what is written.
    pub fn write_to(&self, out: &mut Vec<u8>)
        requires
            self.kind == 1 ==> self@.declared_size() <= u32::MAX,
        ensures
            final(out)@ == old(out)@ + self@.spec_bytes(),
    {
        if self.kind == 1 {
            let mut body: Vec<u8> = Vec::new();
            match &self.identifier {
                Some(name) => {
                    body.extend_from_slice(name.as_str().as_bytes());
                },
                None => {},
            }
            assert(body@ =~= self@.identifier_bytes());
            write_documents(&self.documents, &mut body);
            let size: u32 = (4 + body.len()) as u32;
            out.push(1u8);
            write_u32(out, size);
            out.extend_from_slice(body.as_slice());
            assert(out@ =~= old(out)@ + self@.spec_bytes());
        } else {
            out.push(self.kind);
            write_documents(&self.documents, out);
            assert(out@ =~= old(out)@ + self@.spec_bytes());
        }
    }
}

/// A message in the modern format.
#[derive(Debug)]
pub struct OP_MSG {
    pub header: MsgHeader,
    pub flags: u32,
    pub sections: Vec<Section>,
    pub checksum: Option<u32>,
}

/// The mathematical value of an [`OP_MSG`].
pub struct MsgView {
    pub header: MsgHeader,
    pub flags: u32,
    pub sections: Seq<SectionView>,
    pub checksum: Option<u32>,
}

/// The value of each section in turn.
pub open spec fn sections_view(sections: Seq<Section>) -> Seq<SectionView> {
    sections.map_values(|s: Section| s@)
}

/// The encoding of each section in turn.
pub open spec fn sections_bytes(sections: Seq<SectionView>) -> Seq<Seq<u8>> {
    sections.map_values(|s: SectionView| s.spec_bytes())
}

/// Whether the flag bits announce a checksum.
pub open spec fn spec_has_checksum(flags: u32) -> bool {
    flags & CHECKSUM_PRESENT != 0
}

impl View for OP_MSG {
    type V = MsgView;

    open spec fn view(&self) -> MsgView {
        MsgView {
            header: self.header,
            flags: self.flags,
            sections: sections_view(self.sections@),
            checksum: self.checksum,
        }
    }
}

impl MsgView {
    /// The four bytes of the checksum where the flag bits announce one and
    /// the message has one; nothing else.
    pub open spec fn checksum_bytes(self) -> Seq<u8> {
        match self.checksum {
            Some(sum) => if spec_has_checksum(self.flags) {
                spec_u32_to_le_bytes(sum)
            } else {
                Seq::empty()
            },
            None => Seq::empty(),
        }
    }

    /// The bytes between the flag bits and the checksum.
    pub open spec fn body_bytes(self) -> Seq<u8> {
        sections_bytes(self.sections).flatten()
    }

    /// The encoding of the message: header, flag bits, each section in
    /// order, and the checksum if the flag bits announce it.
    pub open spec fn spec_bytes(self) -> Seq<u8> {
        self.header.spec_bytes() + spec_u32_to_le_bytes(self.flags) + self.body_bytes()
            + self.checksum_bytes()
    }

    /// Whether the checksum is there exactly when the flag bits announce
    /// it.
    pub open spec fn checksum_agrees(self) -> bool {
        spec_has_checksum(self.flags) <==> self.checksum is Some
    }

    /// Whether each section of kind 1 has a length in reach of its field.
    pub open spec fn encodable(self) -> bool {
        forall|i: int|
            0 <= i < self.sections.len() && (#[trigger] self.sections[i]).kind == 1
                ==> self.sections[i].declared_size() <= u32::MAX
    }

    /// The shape that the protocol asks of a message: at least one
    /// section, each well formed, and the checksum there exactly when
    /// announced.
    pub open spec fn wf(self) -> bool {
        &&& self.sections.len() >= 1
        &&& forall|i: int| 0 <= i < self.sections.len() ==> (#[trigger] self.sections[i]).wf()
        &&& self.checksum_agrees()
    }
}

/// The sections that fill `bytes` back to back; fewer than four bytes at
/// the end belong to no section.
pub open spec fn spec_parse_sections(bytes: Seq<u8>) -> Result<Seq<SectionView>, WireError>
    decreases bytes.len(),
{
    if bytes.len() < 4 {
        Ok(Seq::empty())
    } else {
        match spec_parse_section(bytes) {
            Err(e) => Err(e),
            Ok((section, rest)) => match spec_parse_sections(rest) {
                Err(e) => Err(e),
                Ok(sections) => Ok(seq![section] + sections),
            },
        }
    }
}

/// The number of bytes at the end of a frame that the flag bits set aside
/// for the checksum.
pub open spec fn spec_trailer(flags: u32) -> int {
    if spec_has_checksum(flags) {
        4
    } else {
        0
    }
}

/// The message that `bytes` encode: sixteen bytes of header, four of flag
/// bits, sections up to the checksum, and the checksum, which is the last
/// four bytes where the flag bits announce it. A message without a section
/// is refused.
pub open spec fn spec_parse_msg(bytes: Seq<u8>) -> Result<MsgView, WireError> {
    if bytes.len() < 20 {
        Err(WireError::Truncated)
    } else {
        let flags = spec_u32_from_le_bytes(bytes.subrange(16, 20));
        let end = bytes.len() - spec_trailer(flags);
        if end < 20 {
            Err(WireError::Truncated)
        } else {
            match spec_parse_sections(bytes.subrange(20, end)) {
                Err(e) => Err(e),
                Ok(sections) => if sections.len() == 0 {
                    Err(WireError::NoSections)
                } else {
                    Ok(
                        MsgView {
                            header: spec_parse_header(bytes),
                            flags: flags,
                            sections: sections,
                            checksum: if spec_has_checksum(flags) {
                                Some(spec_u32_from_le_bytes(bytes.subrange(end, bytes.len() as int)))
                            } else {
                                None
                            },
                        },
                    )
                },
            }
        }
    }
}

/// What is known of the whole once `done` was taken from its front and
/// `rest` is known of what follows.
pub open spec fn sections_after(done: Seq<SectionView>, rest: Result<Seq<SectionView>, WireError>) -> Result<
    Seq<SectionView>,
    WireError,
> {
    match rest {
        Ok(sections) => Ok(done + sections),
        Err(e) => Err(e),
    }
}

/// The reply to a request with header `prior`: one section of kind 0 that
/// holds `doc`, a header that points back at the request, and a length
/// field that counts the bytes of the reply.
pub open spec fn spec_body_response(
    prior: MsgHeader,
    request_id: u32,
    flags: u32,
    checksum: Option<u32>,
    doc: Seq<u8>,
) -> MsgView {
    let shape = MsgView {
        header: prior,
        flags: flags,
        sections: seq![SectionView { kind: 0, identifier: None, documents: seq![doc] }],
        checksum: checksum,
    };
    MsgView {
        header: prior.spec_response(request_id, (21 + doc.len() + shape.checksum_bytes().len()) as u32, prior.op_code),
        ..shape
    }
}

impl OP_MSG {
    /// Whether every document of every section is valid.
    pub open spec fn documents_wf(&self) -> bool {
        forall|i: int| 0 <= i < self.sections.len() ==> (#[trigger] self.sections[i]).documents_wf()
    }

    /// A message with one section of kind 0 that holds a copy of `doc`.
    pub fn new_with_body_kind(header: MsgHeader, flags: u32, checksum: Option<u32>, doc: &Document) -> (msg:
        OP_MSG)
        ensures
            msg@ == (MsgView {
                header: header,
                flags: flags,
                sections: seq![SectionView { kind: 0, identifier: None, documents: seq![doc@] }],
                checksum: checksum,
            }),
            msg.documents_wf(),
    {
        let mut documents: Vec<Document> = Vec::new();
        documents.push(doc.duplicate());
        let mut sections: Vec<Section> = Vec::new();
        let section = Section { kind: 0, identifier: None, documents };
        assert(section@.documents =~= seq![doc@]);
        sections.push(section);
        let msg = OP_MSG { header, flags, sections, checksum };
        assert(msg@.sections =~= seq![SectionView { kind: 0, identifier: None, documents: seq![doc@] }]);
        msg
    }

    /// The reply to the request whose header is `prior`: a single section
    /// of kind 0 with `doc`, whatever sections the request had. Its header
    /// answers `prior`, and its length field is the size of the reply as
    /// `to_vec` writes it.
    pub fn build_body_response(
        prior: &MsgHeader,
        request_id: u32,
        flags: u32,
        checksum: Option<u32>,
        doc: &Document,
    ) -> (msg: OP_MSG)
        ensures
            msg@ == spec_body_response(*prior, request_id, flags, checksum, doc@),
            msg@.header.response_to == prior.request_id,
            msg@.header.request_id == request_id,
            msg@.header.msg_length == msg@.spec_bytes().len(),
            msg.documents_wf(),
    {
        let trailer: usize = if flags & CHECKSUM_PRESENT != 0 && checksum.is_some() {
            4
        } else {
            0
        };
        let length: usize = 21 + doc.len() + trailer;
        let header = prior.get_response(request_id, length as u32);
        let msg = OP_MSG::new_with_body_kind(header, flags, checksum, doc);
        proof {
            lemma_auto_spec_u32_to_from_le_bytes();
            lemma_body_response_length(*prior, request_id, flags, checksum, doc@);
        }
        msg
    }

    /// Parses a whole frame as a message in the modern format.
    pub fn from_bytes(bytes: &[u8]) -> (result: Result<OP_MSG, WireError>)
        ensures
            match spec_parse_msg(bytes@) {
                Ok(m) => result matches Ok(msg) && msg@ == m && msg.documents_wf() && m.wf(),
                Err(e) => result matches Err(x) && x == e,
            },
    {
        proof {
            if spec_parse_msg(bytes@) is Ok {
                lemma_parsed_message_is_wf(bytes@);
            }
        }
        if bytes.len() < 20 {
            return Err(WireError::Truncated);
        }
        let header = MsgHeader::parse(bytes);
        let flags: u32 = read_u32(bytes, 16);
        let trailer: usize = if flags & CHECKSUM_PRESENT != 0 {
            4
        } else {
            0
        };
        if bytes.len() - trailer < 20 {
            return Err(WireError::Truncated);
        }
        let end: usize = bytes.len() - trailer;
        let area = slice_subrange(bytes, 20, end);
        let mut sections: Vec<Section> = Vec::new();
        let mut at: usize = 0;
        assert(area@.subrange(0, area.len() as int) =~= area@);
        assert(sections_view(sections@) =~= Seq::<SectionView>::empty());
        assert(Seq::<SectionView>::empty() + spec_parse_sections(area@)->Ok_0 =~= spec_parse_sections(
            area@,
        )->Ok_0);
        while area.len() - at >= 4
            invariant
                at <= area.len(),
                bytes.len() >= 20,
                flags == spec_u32_from_le_bytes(bytes@.subrange(16, 20)),
                20 <= end == bytes.len() - spec_trailer(flags),
                area@ == bytes@.subrange(20, end as int),
                forall|i: int| 0 <= i < sections.len() ==> (#[trigger] sections[i]).documents_wf(),
                spec_parse_sections(area@) == sections_after(
                    sections_view(sections@),
                    spec_parse_sections(area@.subrange(at as int, area.len() as int)),
                ),
            decreases area.len() - at,
        {
            let rest = slice_subrange(area, at, area.len());
            match section_at(rest) {
                Err(e) => {
                    return Err(e);
                },
                Ok((section, n)) => {
                    proof {
                        let ghost before = sections_view(sections@);
                        let ghost tail = rest@.subrange(n as int, rest.len() as int);
                        assert(tail =~= area@.subrange(at + n, area.len() as int));
                        assert(sections_view(sections@.push(section)) =~= before.push(section@));
                        match spec_parse_sections(tail) {
                            Ok(more) => {
                                assert(before + (seq![section@] + more) =~= before.push(section@) + more);
                            },
                            Err(e) => {},
                        }
                    }
                    sections.push(section);
                    at = at + n;
                },
            }
        }
        proof {
            assert(sections_view(sections@) + Seq::<SectionView>::empty() =~= sections_view(sections@));
        }
        if sections.len() == 0 {
            return Err(WireError::NoSections);
        }
        let checksum: Option<u32> = if trailer == 4 {
            assert(bytes@.subrange(end as int, end + 4) =~= bytes@.subrange(end as int, bytes.len() as int));
            Some(read_u32(bytes, end))
        } else {
            None
        };
        Ok(OP_MSG { header, flags, sections, checksum })
    }
}

impl Serializable for OP_MSG {
    open spec fn spec_encoding(&self) -> Seq<u8> {
        self@.spec_bytes()
    }

    open spec fn can_encode(&self) -> bool {
        self@.encodable()
    }

    /// Encodes the message: header, flag bits, each section in order, and
    /// the checksum if the flag bits announce it and the message has one.
    fn to_vec(&self) -> (out: Vec<u8>)
    {
        let mut out: Vec<u8> = self.header.to_vec();
        write_u32(&mut out, self.flags);
        let ghost start = out@;
        let mut i: usize = 0;
        assert(sections_bytes(sections_view(self.sections@.subrange(0, 0))) =~= Seq::<Seq<u8>>::empty());
        assert(out@ =~= start + Seq::<Seq<u8>>::empty().flatten());
        while i < self.sections.len()
            invariant
                i <= self.sections.len(),
                self@.encodable(),
                out@ == start + sections_bytes(sections_view(self.sections@.subrange(0, i as int))).flatten(),
            decreases self.sections.len() - i,
        {
            proof {
                let done = sections_bytes(sections_view(self.sections@.subrange(0, i as int)));
                assert(sections_bytes(sections_view(self.sections@.subrange(0, i + 1))) =~= done.push(
                    self.sections[i as int]@.spec_bytes(),
                ));
                done.lemma_flatten_push(self.sections[i as int]@.spec_bytes());
                assert(self@.sections[i as int] == self.sections[i as int]@);
            }
            self.sections[i].write_to(&mut out);
            i = i + 1;
        }
        assert(self.sections@.subrange(0, self.sections.len() as int) =~= self.sections@);
        if self.flags & CHECKSUM_PRESENT != 0 {
            match self.checksum {
                Some(sum) => {
                    write_u32(&mut out, sum);
                },
                None => {},
            }
        }
        assert(out@ =~= self@.spec_bytes());
        out
    }
}

/// The bytes of the reply to the modern message `this` that carries the
/// first of `docs`, where `request` is the message that the reply names as
/// answered: none unless `request` is a modern message, `docs` has a
/// document, and the first section of `this` is of kind 0 or 1.
pub open spec fn spec_msg_reply(this: MsgView, request: OpCodeView, id: u32, docs: Seq<Seq<u8>>) -> Option<
    Seq<u8>,
> {
    match request {
        OpCodeView::OpMsg(prior) => if docs.len() >= 1 && this.sections.len() >= 1 && (this.sections[0].kind
            == 0 || this.sections[0].kind == 1) {
            Some(spec_body_response(prior.header, id, this.flags, this.checksum, docs[0]).spec_bytes())
        } else {
            None
        },
        _ => None,
    }
}

impl Replyable for OP_MSG {
    open spec fn spec_reply(&self, response: Response) -> Option<Seq<u8>> {
        spec_msg_reply(self@, response.op_code@, response.id, documents_view(response.docs@))
    }

    /// The bytes of the reply that carries the first document of
    /// `response` in a single section of kind 0, whichever kind the first
    /// section of this message has. The header answers the message that
    /// `response` names.
    fn reply(&self, response: Response) -> (result: Result<Vec<u8>, UnknownMessageKindError>)
    {
        if response.docs.len() < 1 {
            return Err(UnknownMessageKindError);
        }
        match response.get_op_code() {
            OpCode::OpMsg(request) => {
                if self.sections.len() > 0 && (self.sections[0].kind == 0 || self.sections[0].kind == 1) {
                    let msg = OP_MSG::build_body_response(
                        &request.header,
                        response.get_id(),
                        self.flags,
                        self.checksum,
                        response.get_doc(),
                    );
                    Ok(msg.to_vec())
                } else {
                    Err(UnknownMessageKindError)
                }
            },
            _ => Err(UnknownMessageKindError),
        }
    }
}

/// The length field of a reply built by `spec_body_response` is the number
/// of bytes of its encoding.
pub proof fn lemma_body_response_length(
    prior: MsgHeader,
    request_id: u32,
    flags: u32,
    checksum: Option<u32>,
    doc: Seq<u8>,
)
    requires
        doc.len() <= 0x7fff_ffff,
    ensures
        spec_body_response(prior, request_id, flags, checksum, doc).header.msg_length == spec_body_response(
            prior,
            request_id,
            flags,
            checksum,
            doc,
        ).spec_bytes().len(),
        spec_body_response(prior, request_id, flags, checksum, doc).header.response_to == prior.request_id,
{
    lemma_auto_spec_u32_to_from_le_bytes();
    let m = spec_body_response(prior, request_id, flags, checksum, doc);
    let section = SectionView { kind: 0, identifier: None, documents: seq![doc] };
    assert(sections_bytes(m.sections) =~= seq![section.spec_bytes()]);
    seq![section.spec_bytes()].lemma_flatten_one_element();
    seq![doc].lemma_flatten_one_element();
    assert(section.spec_bytes() =~= seq![0u8] + doc);
}

/// Well-formed sections written back to back are read back as they were.
pub proof fn lemma_sections_round_trip(sections: Seq<SectionView>)
    requires
        forall|i: int| 0 <= i < sections.len() ==> (#[trigger] sections[i]).wf(),
    ensures
        spec_parse_sections(sections_bytes(sections).flatten()) == Ok::<Seq<SectionView>, WireError>(
            sections,
        ),
    decreases sections.len(),
{
    let encoded = sections_bytes(sections);
    if sections.len() == 0 {
        assert(sections =~= Seq::<SectionView>::empty());
    } else {
        let rest = sections.drop_first();
        assert(encoded.drop_first() =~= sections_bytes(rest));
        assert(encoded.flatten() == sections[0].spec_bytes() + sections_bytes(rest).flatten());
        lemma_section_length(sections[0]);
        lemma_section_round_trip(sections[0], sections_bytes(rest).flatten());
        assert forall|i: int| 0 <= i < rest.len() implies (#[trigger] rest[i]).wf() by {
            assert(rest[i] == sections[i + 1]);
        }
        lemma_sections_round_trip(rest);
        assert(seq![sections[0]] + rest =~= sections);
    }
}

/// Round trip of a message: parsing the encoding of a well-formed message
/// gives the message back, the header too. This holds of every number and
/// kind of well-formed sections, with or without a checksum.
pub proof fn lemma_message_round_trip(msg: MsgView)
    requires
        msg.wf(),
    ensures
        spec_parse_msg(msg.spec_bytes()) == Ok::<MsgView, WireError>(msg),
{
    lemma_auto_spec_u32_to_from_le_bytes();
    let bytes = msg.spec_bytes();
    let body = msg.body_bytes();
    let sum = msg.checksum_bytes();
    lemma_header_round_trip(msg.header, spec_u32_to_le_bytes(msg.flags) + body + sum);
    assert(bytes =~= msg.header.spec_bytes() + (spec_u32_to_le_bytes(msg.flags) + body + sum));
    assert(bytes.subrange(16, 20) =~= spec_u32_to_le_bytes(msg.flags));
    let end = bytes.len() - spec_trailer(msg.flags);
    assert(end == 20 + body.len());
    assert(bytes.subrange(20, end) =~= body);
    lemma_sections_round_trip(msg.sections);
    if spec_has_checksum(msg.flags) {
        assert(bytes.subrange(end, bytes.len() as int) =~= spec_u32_to_le_bytes(msg.checksum->Some_0));
    }
}

/// Round trip of a message with a single section of kind 0: what `to_vec`
/// writes, `from_bytes` reads back, field for field.
pub proof fn lemma_body_message_round_trip(header: MsgHeader, flags: u32, checksum: Option<u32>, doc: Seq<u8>)
    requires
        valid_document(doc),
        spec_has_checksum(flags) <==> checksum is Some,
    ensures
        ({
            let msg = MsgView {
                header: header,
                flags: flags,
                sections: seq![SectionView { kind: 0, identifier: None, documents: seq![doc] }],
                checksum: checksum,
            };
            spec_parse_msg(msg.spec_bytes()) == Ok::<MsgView, WireError>(msg)
        }),
{
    let msg = MsgView {
        header: header,
        flags: flags,
        sections: seq![SectionView { kind: 0, identifier: None, documents: seq![doc] }],
        checksum: checksum,
    };
    lemma_message_round_trip(msg);
}

/// What parses as sections are well-formed sections.
pub proof fn lemma_parsed_sections_are_wf(bytes: Seq<u8>)
    requires
        spec_parse_sections(bytes) is Ok,
    ensures
        forall|i: int|
            0 <= i < spec_parse_sections(bytes)->Ok_0.len() ==> (#[trigger] spec_parse_sections(
                bytes,
            )->Ok_0[i]).wf(),
    decreases bytes.len(),
{
    if bytes.len() >= 4 {
        let rest = spec_parse_section(bytes)->Ok_0.1;
        lemma_parsed_section_is_wf(bytes);
        lemma_parsed_sections_are_wf(rest);
        let sections = spec_parse_sections(bytes)->Ok_0;
        let more = spec_parse_sections(rest)->Ok_0;
        assert forall|i: int| 0 <= i < sections.len() implies (#[trigger] sections[i]).wf() by {
            if i > 0 {
                assert(sections[i] == more[i - 1]);
            }
        }
    }
}

/// What parses as a message is a well-formed message.
pub proof fn lemma_parsed_message_is_wf(bytes: Seq<u8>)
    requires
        spec_parse_msg(bytes) is Ok,
    ensures
        spec_parse_msg(bytes)->Ok_0.wf(),
{
    let flags = spec_u32_from_le_bytes(bytes.subrange(16, 20));
    let end = bytes.len() - spec_trailer(flags);
    lemma_parsed_sections_are_wf(bytes.subrange(20, end));
}

} // verus!
