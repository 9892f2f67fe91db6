//! The section codec: documents framed by their length prefix, and the two
//! kinds of section built from them.
use vstd::prelude::*;
use vstd::bytes::{spec_u32_from_le_bytes, spec_u32_to_le_bytes, lemma_auto_spec_u32_to_from_le_bytes};
use vstd::slice::{slice_subrange, slice_to_vec};
use vstd::utf8::{encode_utf8, decode_utf8, valid_utf8};

use crate::document::{Document, framed, spec_accepted, valid_document};
use crate::wire::WireError;
use crate::wire::endian::{read_i32, read_u32, spec_i32_from_le_bytes};
use crate::wire::op_msg::{Section, SectionView, documents_view};

verus! {

/// Calls `core::str::from_utf8`. The contract claims what its documentation
/// says: the bytes come back as text exactly when they are valid UTF-8, and
/// the text then has these bytes.
#[verifier::external_body]
pub(crate) fn utf8_text(bytes: &[u8]) -> (text: Option<&str>)
    ensures
        match text {
            Some(s) => valid_utf8(bytes@) && encode_utf8(s@) == bytes@,
            None => !valid_utf8(bytes@),
        },
{
    core::str::from_utf8(bytes).ok()
}

/// One document taken from the front of `bytes`, and the bytes after it.
/// The length prefix decides where the document ends.
pub open spec fn spec_take_document(bytes: Seq<u8>) -> Result<(Seq<u8>, Seq<u8>), WireError> {
    if bytes.len() < 4 {
        Err(WireError::Truncated)
    } else {
        let n = spec_i32_from_le_bytes(bytes.subrange(0, 4));
        if n < 5 {
            Err(WireError::MalformedDocument)
        } else if n > bytes.len() {
            Err(WireError::Truncated)
        } else if !spec_accepted(bytes.subrange(0, n)) {
            Err(WireError::MalformedDocument)
        } else {
            Ok((bytes.subrange(0, n), bytes.subrange(n, bytes.len() as int)))
        }
    }
}

/// The documents that fill `bytes` back to back.
pub open spec fn spec_take_documents(bytes: Seq<u8>) -> Result<Seq<Seq<u8>>, WireError>
    decreases bytes.len(),
{
    if bytes.len() == 0 {
        Ok(Seq::empty())
    } else {
        match spec_take_document(bytes) {
            Err(e) => Err(e),
            Ok((doc, rest)) => match spec_take_documents(rest) {
                Err(e) => Err(e),
                Ok(docs) => Ok(seq![doc] + docs),
            },
        }
    }
}

/// The place of the first zero byte of `bytes` at or after `from`; the
/// length of `bytes` if there is none.
pub open spec fn spec_find_zero(bytes: Seq<u8>, from: int) -> int
    decreases bytes.len() - from,
{
    if from < 0 || from >= bytes.len() {
        bytes.len() as int
    } else if bytes[from] == 0 {
        from
    } else {
        spec_find_zero(bytes, from + 1)
    }
}

/// A section of kind 0: the tag, then one document.
pub open spec fn spec_parse_kind0(bytes: Seq<u8>) -> Result<(SectionView, Seq<u8>), WireError>
    recommends
        bytes.len() >= 1,
{
    match spec_take_document(bytes.subrange(1, bytes.len() as int)) {
        Err(e) => Err(e),
        Ok((doc, rest)) => Ok((SectionView { kind: 0, identifier: None, documents: seq![doc] }, rest)),
    }
}

/// A section of kind 1: the tag, the length of all that follows the tag,
/// the identifier up to and with its zero byte, then documents up to the
/// declared length.
pub open spec fn spec_parse_kind1(bytes: Seq<u8>) -> Result<(SectionView, Seq<u8>), WireError>
    recommends
        bytes.len() >= 1,
{
    if bytes.len() < 5 {
        Err(WireError::Truncated)
    } else {
        let size = spec_u32_from_le_bytes(bytes.subrange(1, 5)) as int;
        if size < 4 {
            Err(WireError::BadSectionLength)
        } else if 1 + size > bytes.len() {
            Err(WireError::Truncated)
        } else {
            let body = bytes.subrange(5, 1 + size);
            let zero = spec_find_zero(body, 0);
            if zero >= body.len() {
                Err(WireError::MalformedIdentifier)
            } else if !valid_utf8(body.subrange(0, zero + 1)) {
                Err(WireError::MalformedIdentifier)
            } else {
                match spec_take_documents(body.subrange(zero + 1, body.len() as int)) {
                    Err(e) => Err(e),
                    Ok(docs) => Ok(
                        (
                            SectionView {
                                kind: 1,
                                identifier: Some(decode_utf8(body.subrange(0, zero + 1))),
                                documents: docs,
                            },
                            bytes.subrange(1 + size, bytes.len() as int),
                        ),
                    ),
                }
            }
        }
    }
}

/// One section taken from the front of `bytes`, and the bytes after it.
pub open spec fn spec_parse_section(bytes: Seq<u8>) -> Result<(SectionView, Seq<u8>), WireError> {
    if bytes.len() == 0 {
        Err(WireError::Truncated)
    } else if bytes[0] == 0 {
        spec_parse_kind0(bytes)
    } else if bytes[0] == 1 {
        spec_parse_kind1(bytes)
    } else {
        Err(WireError::UnknownSectionKind(bytes[0]))
    }
}

/// Whether `result` is the executable form of `expected`, with the count of
/// the bytes taken from the front of `bytes` in place of the bytes left.
pub open spec fn taken_as(
    result: Result<(Section, usize), WireError>,
    expected: Result<(SectionView, Seq<u8>), WireError>,
    bytes: Seq<u8>,
) -> bool {
    match expected {
        Ok((section, rest)) => result matches Ok(pair) && pair.0@ == section && 0 < pair.1 <= bytes.len()
            && rest == bytes.subrange(pair.1 as int, bytes.len() as int) && pair.0.documents_wf(),
        Err(e) => result matches Err(x) && x == e,
    }
}

/// Whether `result` is the executable form of `expected`.
pub open spec fn parsed_as(
    result: Result<(Section, Vec<u8>), WireError>,
    expected: Result<(SectionView, Seq<u8>), WireError>,
) -> bool {
    match expected {
        Ok((section, rest)) => result matches Ok(pair) && pair.0@ == section && pair.1@ == rest
            && pair.0.documents_wf(),
        Err(e) => result matches Err(x) && x == e,
    }
}

/// Takes one document from the front of `bytes`; the number is that of the
/// bytes it takes up.
pub fn take_document(bytes: &[u8]) -> (result: Result<(Document, usize), WireError>)
    ensures
        match spec_take_document(bytes@) {
            Ok((doc, rest)) => result matches Ok(pair) && pair.0@ == doc && pair.0.wf() && pair.1 == doc.len()
                && rest == bytes@.subrange(pair.1 as int, bytes.len() as int),
            Err(e) => result matches Err(x) && x == e,
        },
{
    if bytes.len() < 4 {
        return Err(WireError::Truncated);
    }
    let declared: i32 = read_i32(bytes, 0);
    if declared < 5 {
        return Err(WireError::MalformedDocument);
    }
    let n: usize = declared as usize;
    if n > bytes.len() {
        return Err(WireError::Truncated);
    }
    let encoded: Vec<u8> = slice_to_vec(slice_subrange(bytes, 0, n));
    assert(encoded@.subrange(0, 4) =~= bytes@.subrange(0, 4));
    match Document::from_bytes(encoded) {
        Some(doc) => Ok((doc, n)),
        None => Err(WireError::MalformedDocument),
    }
}

/// What is known of the whole once `done` was taken from its front and
/// `rest` is known of what follows.
pub open spec fn after(done: Seq<Seq<u8>>, rest: Result<Seq<Seq<u8>>, WireError>) -> Result<
    Seq<Seq<u8>>,
    WireError,
> {
    match rest {
        Ok(docs) => Ok(done + docs),
        Err(e) => Err(e),
    }
}

/// Parses the documents that fill `data` back to back.
pub fn parse_kind1_documents(data: &[u8]) -> (result: Result<Vec<Document>, WireError>)
    ensures
        match spec_take_documents(data@) {
            Ok(docs) => result matches Ok(v) && documents_view(v@) == docs && forall|i: int|
                0 <= i < v.len() ==> (#[trigger] v[i]).wf(),
            Err(e) => result matches Err(x) && x == e,
        },
{
    let mut documents: Vec<Document> = Vec::new();
    let mut at: usize = 0;
    assert(data@.subrange(0, data.len() as int) =~= data@);
    assert(documents_view(documents@) =~= Seq::<Seq<u8>>::empty());
    assert(Seq::<Seq<u8>>::empty() + spec_take_documents(data@)->Ok_0 =~= spec_take_documents(data@)->Ok_0);
    while at < data.len()
        invariant
            at <= data.len(),
            forall|i: int| 0 <= i < documents.len() ==> (#[trigger] documents[i]).wf(),
            spec_take_documents(data@) == after(
                documents_view(documents@),
                spec_take_documents(data@.subrange(at as int, data.len() as int)),
            ),
        decreases data.len() - at,
    {
        let rest = slice_subrange(data, at, data.len());
        match take_document(rest) {
            Err(e) => {
                return Err(e);
            },
            Ok((doc, n)) => {
                proof {
                    let ghost before = documents_view(documents@);
                    let ghost tail = rest@.subrange(n as int, rest.len() as int);
                    assert(tail =~= data@.subrange(at + n, data.len() as int));
                    assert(documents_view(documents@.push(doc)) =~= before.push(doc@));
                    match spec_take_documents(tail) {
                        Ok(docs) => {
                            assert(before + (seq![doc@] + docs) =~= before.push(doc@) + docs);
                        },
                        Err(e) => {},
                    }
                }
                documents.push(doc);
                at = at + n;
            },
        }
    }
    proof {
        assert(documents_view(documents@) + Seq::<Seq<u8>>::empty() =~= documents_view(documents@));
    }
    Ok(documents)
}

/// The place of the first zero byte of `bytes` at or after `from`; their
/// length if there is none.
pub fn find_zero_from(bytes: &[u8], from: usize) -> (at: usize)
    requires
        from <= bytes.len(),
    ensures
        at == spec_find_zero(bytes@, from as int),
        from <= at <= bytes.len(),
{
    let mut i: usize = from;
    while i < bytes.len() && bytes[i] != 0
        invariant
            from <= i <= bytes.len(),
            spec_find_zero(bytes@, from as int) == spec_find_zero(bytes@, i as int),
        decreases bytes.len() - i,
    {
        i = i + 1;
    }
    i
}

/// The place of the first zero byte of `bytes`; their length if there is
/// none.
pub fn find_zero(bytes: &[u8]) -> (at: usize)
    ensures
        at == spec_find_zero(bytes@, 0),
        at <= bytes.len(),
{
    find_zero_from(bytes, 0)
}

fn parse_kind0(bytes: &[u8]) -> (result: Result<(Section, usize), WireError>)
    requires
        bytes.len() >= 1,
    ensures
        taken_as(result, spec_parse_kind0(bytes@), bytes@),
{
    let body = slice_subrange(bytes, 1, bytes.len());
    match take_document(body) {
        Err(e) => Err(e),
        Ok((doc, n)) => {
            let mut documents: Vec<Document> = Vec::new();
            documents.push(doc);
            assert(documents_view(documents@) =~= seq![doc@]);
            assert(body@.subrange(n as int, body.len() as int) =~= bytes@.subrange(
                1 + n,
                bytes.len() as int,
            ));
            Ok((Section { kind: 0, identifier: None, documents }, 1 + n))
        },
    }
}

fn parse_kind1(bytes: &[u8]) -> (result: Result<(Section, usize), WireError>)
    requires
        bytes.len() >= 1,
    ensures
        taken_as(result, spec_parse_kind1(bytes@), bytes@),
{
    if bytes.len() < 5 {
        return Err(WireError::Truncated);
    }
    let size: usize = read_u32(bytes, 1) as usize;
    if size < 4 {
        return Err(WireError::BadSectionLength);
    }
    if size > bytes.len() - 1 {
        return Err(WireError::Truncated);
    }
    let body = slice_subrange(bytes, 5, 1 + size);
    let zero: usize = find_zero(body);
    if zero >= body.len() {
        return Err(WireError::MalformedIdentifier);
    }
    let identifier: String = match utf8_text(slice_subrange(body, 0, zero + 1)) {
        Some(text) => text.to_owned(),
        None => {
            return Err(WireError::MalformedIdentifier);
        },
    };
    proof {
        vstd::utf8::encode_utf8_decode_utf8(identifier@);
    }
    match parse_kind1_documents(slice_subrange(body, zero + 1, body.len())) {
        Err(e) => Err(e),
        Ok(documents) => Ok((Section { kind: 1, identifier: Some(identifier), documents }, 1 + size)),
    }
}

/// Parses one section from the front of `bytes`, by its kind tag, and hands
/// back what follows it.
pub fn parse_section(bytes: &[u8]) -> (result: Result<(Section, Vec<u8>), WireError>)
    ensures
        parsed_as(result, spec_parse_section(bytes@)),
        result matches Ok(pair) ==> pair.0@.wf(),
{
    match section_at(bytes) {
        Err(e) => Err(e),
        Ok((section, n)) => Ok((section, slice_to_vec(slice_subrange(bytes, n, bytes.len())))),
    }
}

/// Parses one section from the front of `bytes`, by its kind tag; the
/// number is that of the bytes it takes up.
pub fn section_at(bytes: &[u8]) -> (result: Result<(Section, usize), WireError>)
    ensures
        taken_as(result, spec_parse_section(bytes@), bytes@),
        result matches Ok(pair) ==> pair.0@.wf(),
{
    proof {
        if spec_parse_section(bytes@) is Ok {
            lemma_parsed_section_is_wf(bytes@);
        }
    }
    if bytes.len() == 0 {
        return Err(WireError::Truncated);
    }
    let kind: u8 = bytes[0];
    if kind == 0 {
        parse_kind0(bytes)
    } else if kind == 1 {
        parse_kind1(bytes)
    } else {
        Err(WireError::UnknownSectionKind(kind))
    }
}

/// A valid document is taken whole from the front of any bytes that start
/// with it.
pub proof fn lemma_take_document_round_trip(doc: Seq<u8>, rest: Seq<u8>)
    requires
        valid_document(doc),
    ensures
        spec_take_document(doc + rest) == Ok::<(Seq<u8>, Seq<u8>), WireError>((doc, rest)),
{
    let bytes = doc + rest;
    assert(bytes.subrange(0, 4) =~= doc.subrange(0, 4));
    assert(bytes.subrange(0, doc.len() as int) =~= doc);
    assert(bytes.subrange(doc.len() as int, bytes.len() as int) =~= rest);
}

/// Valid documents written back to back are read back as they were.
pub proof fn lemma_take_documents_round_trip(docs: Seq<Seq<u8>>)
    requires
        forall|i: int| 0 <= i < docs.len() ==> valid_document(#[trigger] docs[i]),
    ensures
        spec_take_documents(docs.flatten()) == Ok::<Seq<Seq<u8>>, WireError>(docs),
    decreases docs.len(),
{
    if docs.len() == 0 {
        assert(docs =~= Seq::<Seq<u8>>::empty());
    } else {
        let rest = docs.drop_first();
        assert(docs.flatten() == docs[0] + rest.flatten());
        lemma_take_document_round_trip(docs[0], rest.flatten());
        assert forall|i: int| 0 <= i < rest.len() implies valid_document(#[trigger] rest[i]) by {
            assert(rest[i] == docs[i + 1]);
        }
        lemma_take_documents_round_trip(rest);
        assert(seq![docs[0]] + rest =~= docs);
    }
}

/// The search for a zero byte stops at the first one.
pub proof fn lemma_find_zero(bytes: Seq<u8>, from: int, zero: int)
    requires
        0 <= from <= zero < bytes.len(),
        bytes[zero] == 0,
        forall|i: int| from <= i < zero ==> bytes[i] != 0,
    ensures
        spec_find_zero(bytes, from) == zero,
    decreases zero - from,
{
    if from < zero {
        lemma_find_zero(bytes, from + 1, zero);
    }
}

/// The number of bytes of a well-formed section's encoding: at least six.
pub proof fn lemma_section_length(section: SectionView)
    requires
        section.wf(),
    ensures
        section.spec_bytes().len() >= 6,
{
    lemma_auto_spec_u32_to_from_le_bytes();
    let docs = section.documents;
    if section.kind == 0 {
        assert(valid_document(docs[0]));
        docs.lemma_flatten_and_flatten_alt_are_equivalent();
        docs.lemma_flatten_length_ge_single_element_length(0);
    }
}

/// Round trip of a section: parsing the encoding of a well-formed section,
/// whatever follows it, gives the section back and leaves what follows.
pub proof fn lemma_section_round_trip(section: SectionView, rest: Seq<u8>)
    requires
        section.wf(),
    ensures
        spec_parse_section(section.spec_bytes() + rest) == Ok::<(SectionView, Seq<u8>), WireError>(
            (section, rest),
        ),
{
    lemma_auto_spec_u32_to_from_le_bytes();
    let bytes = section.spec_bytes() + rest;
    let docs = section.documents;
    let flat = docs.flatten();
    if section.kind == 0 {
        assert(docs =~= seq![docs[0]]);
        docs.lemma_flatten_one_element();
        assert(flat == docs[0]);
        assert(bytes.subrange(1, bytes.len() as int) =~= docs[0] + rest);
        lemma_take_document_round_trip(docs[0], rest);
        assert(section == SectionView { kind: 0, identifier: None, documents: seq![docs[0]] });
    } else {
        let chars = section.identifier->Some_0;
        let ident = encode_utf8(chars);
        let size = section.declared_size();
        assert(ident == section.identifier_bytes());
        assert(bytes.subrange(1, 5) =~= spec_u32_to_le_bytes(size as u32));
        let body = bytes.subrange(5, 1 + size);
        assert(body =~= ident + flat);
        let zero = ident.len() - 1;
        assert(body[zero] == ident[zero]);
        assert forall|i: int| 0 <= i < zero implies body[i] != 0 by {
            assert(body[i] == ident[i]);
        }
        lemma_find_zero(body, 0, zero);
        assert(body.subrange(0, zero + 1) =~= ident);
        vstd::utf8::encode_utf8_valid_utf8(chars);
        vstd::utf8::encode_utf8_decode_utf8(chars);
        assert(body.subrange(zero + 1, body.len() as int) =~= flat);
        lemma_take_documents_round_trip(docs);
        assert(bytes.subrange(1 + size, bytes.len() as int) =~= rest);
        assert(section == SectionView { kind: 1, identifier: Some(chars), documents: docs });
    }
}

/// What is taken as a document is a valid document, and with what is left
/// it makes up the bytes it was taken from.
pub proof fn lemma_taken_document_is_valid(bytes: Seq<u8>)
    requires
        spec_take_document(bytes) is Ok,
    ensures
        valid_document(spec_take_document(bytes)->Ok_0.0),
        spec_take_document(bytes)->Ok_0.0 + spec_take_document(bytes)->Ok_0.1 == bytes,
{
    let doc = spec_take_document(bytes)->Ok_0.0;
    let rest = spec_take_document(bytes)->Ok_0.1;
    assert(doc.subrange(0, 4) =~= bytes.subrange(0, 4));
    assert(doc + rest =~= bytes);
}

/// What is taken as documents are valid documents, and back to back they
/// are the bytes they were taken from.
pub proof fn lemma_taken_documents_are_valid(bytes: Seq<u8>)
    requires
        spec_take_documents(bytes) is Ok,
    ensures
        forall|i: int|
            0 <= i < spec_take_documents(bytes)->Ok_0.len() ==> valid_document(
                #[trigger] spec_take_documents(bytes)->Ok_0[i],
            ),
        spec_take_documents(bytes)->Ok_0.flatten() == bytes,
    decreases bytes.len(),
{
    let docs = spec_take_documents(bytes)->Ok_0;
    if bytes.len() == 0 {
        assert(docs.flatten() =~= bytes);
    } else {
        let doc = spec_take_document(bytes)->Ok_0.0;
        let rest = spec_take_document(bytes)->Ok_0.1;
        lemma_taken_document_is_valid(bytes);
        lemma_taken_documents_are_valid(rest);
        let more = spec_take_documents(rest)->Ok_0;
        assert(docs == seq![doc] + more);
        assert(docs.drop_first() =~= more);
        assert(docs.flatten() == doc + more.flatten());
        assert forall|i: int| 0 <= i < docs.len() implies valid_document(#[trigger] docs[i]) by {
            if i > 0 {
                assert(docs[i] == more[i - 1]);
            }
        }
    }
}

/// Where the search for a zero byte stops short of the end, it stops at a
/// zero byte, and none comes before it.
pub proof fn lemma_found_zero(bytes: Seq<u8>, from: int)
    requires
        0 <= from <= bytes.len(),
    ensures
        from <= spec_find_zero(bytes, from) <= bytes.len(),
        spec_find_zero(bytes, from) < bytes.len() ==> bytes[spec_find_zero(bytes, from)] == 0,
        forall|i: int| from <= i < spec_find_zero(bytes, from) ==> bytes[i] != 0,
    decreases bytes.len() - from,
{
    if from < bytes.len() && bytes[from] != 0 {
        lemma_found_zero(bytes, from + 1);
    }
}

/// What parses as a section is well formed, and its encoding with what is
/// left makes up the bytes it was parsed from.
pub proof fn lemma_parsed_section_is_wf(bytes: Seq<u8>)
    requires
        spec_parse_section(bytes) is Ok,
    ensures
        spec_parse_section(bytes)->Ok_0.0.wf(),
        spec_parse_section(bytes)->Ok_0.0.spec_bytes() + spec_parse_section(bytes)->Ok_0.1 == bytes,
        spec_parse_section(bytes)->Ok_0.1.len() < bytes.len(),
{
    lemma_auto_spec_u32_to_from_le_bytes();
    let section = spec_parse_section(bytes)->Ok_0.0;
    let rest = spec_parse_section(bytes)->Ok_0.1;
    if bytes[0] == 0 {
        let after = bytes.subrange(1, bytes.len() as int);
        lemma_taken_document_is_valid(after);
        let doc = spec_take_document(after)->Ok_0.0;
        seq![doc].lemma_flatten_one_element();
        assert(section.spec_bytes() + rest =~= seq![0u8] + (doc + rest));
        assert(seq![0u8] + after =~= bytes);
    } else {
        let size = spec_u32_from_le_bytes(bytes.subrange(1, 5)) as int;
        let body = bytes.subrange(5, 1 + size);
        let zero = spec_find_zero(body, 0);
        let ident = body.subrange(0, zero + 1);
        let span = body.subrange(zero + 1, body.len() as int);
        lemma_found_zero(body, 0);
        lemma_taken_documents_are_valid(span);
        vstd::utf8::decode_utf8_encode_utf8(ident);
        assert(section.identifier_bytes() == ident);
        assert(section.documents.flatten() == span);
        assert(section.declared_size() == size);
        assert(spec_u32_to_le_bytes(size as u32) == bytes.subrange(1, 5));
        assert(section.spec_bytes() + rest =~= bytes);
    }
}

} // verus!
