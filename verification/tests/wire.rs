use mongo_cache_proxy::document::Document;
use mongo_cache_proxy::wire::op_msg::{write_documents, Section, OP_MSG};
use mongo_cache_proxy::wire::op_query::OP_QUERY;
use mongo_cache_proxy::wire::op_reply::OP_REPLY;
use mongo_cache_proxy::wire::util::{find_zero, parse_kind1_documents, parse_section, section_at, take_document};
use mongo_cache_proxy::wire::{
    accept_frame, announced, parse, Announced, IncompleteFrame, MsgHeader, OpCode, OpCodeNotImplementedError,
    Serializable, UnknownMessageKindError, WireError, CHECKSUM_PRESENT,
};

fn sample(key: &str, value: i32) -> bson::Document {
    let mut d = bson::Document::new();
    d.insert(key, bson::Bson::Int32(value));
    d
}

fn encode(d: &bson::Document) -> Vec<u8> {
    bson::to_vec(d).unwrap()
}

fn document(d: &bson::Document) -> Document {
    Document::from_bytes(encode(d)).unwrap()
}

fn header(op_code: u32) -> MsgHeader {
    MsgHeader { msg_length: 0, request_id: 7, response_to: 3, op_code }
}

fn body_message(flags: u32, checksum: Option<u32>, d: &bson::Document) -> OP_MSG {
    OP_MSG::new_with_body_kind(header(2013), flags, checksum, &document(d))
}

#[test]
fn header_bytes_are_little_endian() {
    let h = MsgHeader { msg_length: 0x01020304, request_id: 1, response_to: 0, op_code: 2013 };
    let bytes = h.to_vec();
    assert_eq!(bytes, vec![4, 3, 2, 1, 1, 0, 0, 0, 0, 0, 0, 0, 0xdd, 0x07, 0, 0]);
}

#[test]
fn header_round_trip() {
    let h = MsgHeader { msg_length: 300, request_id: 0xfffffffe, response_to: 65536, op_code: 2004 };
    let mut bytes = h.to_vec();
    bytes.extend_from_slice(&[9, 9, 9]);
    assert_eq!(MsgHeader::parse(&bytes), h);
    assert_eq!(MsgHeader::from_bytes(bytes), Ok(h));
}

#[test]
fn header_from_short_buffer_fails() {
    assert_eq!(MsgHeader::from_bytes(vec![0; 15]), Err(UnknownMessageKindError));
}

#[test]
fn header_new_keeps_fields() {
    let h = MsgHeader::new(1, 2, 3, 4);
    assert_eq!(h, MsgHeader { msg_length: 1, request_id: 2, response_to: 3, op_code: 4 });
}

#[test]
fn response_header_points_back_at_request() {
    let request = MsgHeader { msg_length: 50, request_id: 41, response_to: 0, op_code: 2013 };
    let reply = request.get_response(9, 77);
    assert_eq!(reply, MsgHeader { msg_length: 77, request_id: 9, response_to: 41, op_code: 2013 });
    let legacy = request.get_response_with_op_code(9, 77, 1);
    assert_eq!(legacy, MsgHeader { msg_length: 77, request_id: 9, response_to: 41, op_code: 1 });
}

#[test]
fn take_document_splits_by_length_prefix() {
    let d = encode(&sample("a", 1));
    let mut bytes = d.clone();
    bytes.extend_from_slice(&[1, 2, 3]);
    let (doc, n) = take_document(&bytes).unwrap();
    assert_eq!(doc.as_bytes(), &d[..]);
    assert_eq!(n, d.len());
}

#[test]
fn take_document_errors() {
    assert_eq!(take_document(&[5, 0, 0]).unwrap_err(), WireError::Truncated);
    assert_eq!(take_document(&[4, 0, 0, 0, 0]).unwrap_err(), WireError::MalformedDocument);
    assert_eq!(take_document(&[0xff, 0xff, 0xff, 0xff, 0]).unwrap_err(), WireError::MalformedDocument);
    assert_eq!(take_document(&[6, 0, 0, 0, 0]).unwrap_err(), WireError::Truncated);
    assert_eq!(take_document(&[6, 0, 0, 0, 9, 0]).unwrap_err(), WireError::MalformedDocument);
}

#[test]
fn documents_back_to_back() {
    let a = encode(&sample("a", 1));
    let b = encode(&sample("b", 2));
    let mut bytes = a.clone();
    bytes.extend_from_slice(&b);
    let docs = parse_kind1_documents(&bytes).unwrap();
    assert_eq!(docs.len(), 2);
    assert_eq!(docs[0].as_bytes(), &a[..]);
    assert_eq!(docs[1].as_bytes(), &b[..]);
    assert_eq!(parse_kind1_documents(&[]).unwrap().len(), 0);
    bytes.push(0);
    assert_eq!(parse_kind1_documents(&bytes).unwrap_err(), WireError::Truncated);
}

#[test]
fn write_documents_concatenates() {
    let a = sample("a", 1);
    let b = sample("b", 2);
    let mut out = vec![0xaa];
    write_documents(&vec![document(&a), document(&b)], &mut out);
    let mut expected = vec![0xaa];
    expected.extend_from_slice(&encode(&a));
    expected.extend_from_slice(&encode(&b));
    assert_eq!(out, expected);
}

#[test]
fn find_zero_finds_first() {
    assert_eq!(find_zero(&[1, 2, 0, 3, 0]), 2);
    assert_eq!(find_zero(&[1, 2, 3]), 3);
    assert_eq!(find_zero(&[]), 0);
    assert_eq!(find_zero(&[0]), 0);
}

#[test]
fn kind0_section_parses() {
    let d = encode(&sample("ping", 1));
    let mut bytes = vec![0u8];
    bytes.extend_from_slice(&d);
    bytes.extend_from_slice(&[0xde, 0xad]);
    let (section, tail) = parse_section(&bytes).unwrap();
    assert_eq!(section.kind, 0);
    assert_eq!(section.identifier, None);
    assert_eq!(section.documents.len(), 1);
    assert_eq!(section.documents[0].as_bytes(), &d[..]);
    assert_eq!(tail, vec![0xde, 0xad]);
    let (again, n) = section_at(&bytes).unwrap();
    assert_eq!(again.kind, 0);
    assert_eq!(n, 1 + d.len());
}

#[test]
fn kind1_section_bytes_are_exact() {
    let d = sample("x", 5);
    let section =
        Section { kind: 1, identifier: Some("documents\0".to_string()), documents: vec![document(&d)] };
    let mut out = Vec::new();
    section.write_to(&mut out);
    let encoded = encode(&d);
    let mut expected = vec![1u8];
    expected.extend_from_slice(&((4 + 10 + encoded.len()) as u32).to_le_bytes());
    expected.extend_from_slice(b"documents\0");
    expected.extend_from_slice(&encoded);
    assert_eq!(out, expected);
}

#[test]
fn kind1_section_round_trip() {
    for n in 0..5 {
        let docs: Vec<bson::Document> = (0..n).map(|i| sample("n", i)).collect();
        let section = Section {
            kind: 1,
            identifier: Some("documents\0".to_string()),
            documents: docs.iter().map(document).collect(),
        };
        let mut bytes = Vec::new();
        section.write_to(&mut bytes);
        bytes.extend_from_slice(&[7, 7]);
        let (parsed, tail) = Section::from_bytes(bytes).unwrap();
        assert_eq!(parsed.kind, 1);
        assert_eq!(parsed.identifier, Some("documents\0".to_string()));
        assert_eq!(parsed.documents.len(), n as usize);
        for (i, d) in docs.iter().enumerate() {
            assert_eq!(parsed.documents[i].as_bytes(), &encode(d)[..]);
        }
        assert_eq!(tail, vec![7, 7]);
    }
}

#[test]
fn kind0_section_round_trip() {
    let d = sample("hello", 1);
    let section = Section { kind: 0, identifier: None, documents: vec![document(&d)] };
    let mut bytes = Vec::new();
    section.write_to(&mut bytes);
    let mut expected = vec![0u8];
    expected.extend_from_slice(&encode(&d));
    assert_eq!(bytes, expected);
    let (parsed, tail) = parse_section(&bytes).unwrap();
    assert_eq!(parsed.kind, 0);
    assert_eq!(parsed.identifier, None);
    assert_eq!(parsed.documents[0].as_bytes(), &encode(&d)[..]);
    assert!(tail.is_empty());
}

#[test]
fn section_errors() {
    assert_eq!(parse_section(&[]).unwrap_err(), WireError::Truncated);
    assert_eq!(parse_section(&[2, 0, 0]).unwrap_err(), WireError::UnknownSectionKind(2));
    assert_eq!(parse_section(&[255]).unwrap_err(), WireError::UnknownSectionKind(255));
    assert_eq!(parse_section(&[0, 5, 0]).unwrap_err(), WireError::Truncated);
    assert_eq!(parse_section(&[1, 9, 0, 0]).unwrap_err(), WireError::Truncated);
    assert_eq!(parse_section(&[1, 3, 0, 0, 0, 0]).unwrap_err(), WireError::BadSectionLength);
    assert_eq!(parse_section(&[1, 9, 0, 0, 0, b'a', 0]).unwrap_err(), WireError::Truncated);
    assert_eq!(parse_section(&[1, 6, 0, 0, 0, b'a', b'b']).unwrap_err(), WireError::MalformedIdentifier);
    assert_eq!(parse_section(&[1, 6, 0, 0, 0, 0xff, 0]).unwrap_err(), WireError::MalformedIdentifier);
    assert_eq!(parse_section(&[1, 7, 0, 0, 0, b'a', 0, 9]).unwrap_err(), WireError::Truncated);
}

#[test]
fn kind1_section_without_documents_round_trip() {
    let (section, tail) = parse_section(&[1, 6, 0, 0, 0, b'a', 0, 42]).unwrap();
    assert_eq!(section.kind, 1);
    assert_eq!(section.identifier, Some("a\0".to_string()));
    assert_eq!(section.documents.len(), 0);
    assert_eq!(tail, vec![42]);
    let mut bytes = Vec::new();
    section.write_to(&mut bytes);
    assert_eq!(bytes, vec![1, 6, 0, 0, 0, b'a', 0]);
}

#[test]
fn body_message_bytes_are_exact() {
    let d = sample("ping", 1);
    let msg = body_message(0, None, &d);
    let bytes = msg.to_vec();
    let mut expected = header(2013).to_vec();
    expected.extend_from_slice(&[0, 0, 0, 0, 0]);
    expected.extend_from_slice(&encode(&d));
    assert_eq!(bytes, expected);
}

#[test]
fn body_message_round_trip() {
    let d = sample("ping", 1);
    let msg = body_message(0, None, &d);
    let parsed = OP_MSG::from_bytes(&msg.to_vec()).unwrap();
    assert_eq!(parsed.header, msg.header);
    assert_eq!(parsed.flags, 0);
    assert_eq!(parsed.checksum, None);
    assert_eq!(parsed.sections.len(), 1);
    assert_eq!(parsed.sections[0].kind, 0);
    assert_eq!(parsed.sections[0].identifier, None);
    assert_eq!(parsed.sections[0].documents.len(), 1);
    assert_eq!(parsed.sections[0].documents[0].as_bytes(), &encode(&d)[..]);
}

#[test]
fn body_message_round_trip_with_checksum() {
    let d = sample("ping", 1);
    let msg = body_message(CHECKSUM_PRESENT | 2, Some(0xdeadbeef), &d);
    let bytes = msg.to_vec();
    assert_eq!(&bytes[bytes.len() - 4..], &[0xef, 0xbe, 0xad, 0xde]);
    let parsed = OP_MSG::from_bytes(&bytes).unwrap();
    assert_eq!(parsed.flags, 3);
    assert_eq!(parsed.checksum, Some(0xdeadbeef));
    assert_eq!(parsed.sections.len(), 1);
    assert_eq!(parsed.sections[0].documents[0].as_bytes(), &encode(&d)[..]);
}

#[test]
fn checksum_is_not_written_without_flag() {
    let d = sample("ping", 1);
    let with = body_message(0, Some(5), &d).to_vec();
    let without = body_message(0, None, &d).to_vec();
    assert_eq!(with, without);
}

#[test]
fn message_with_two_sections_round_trip() {
    let base = sample("insert", 1);
    let extra = sample("x", 2);
    let msg = OP_MSG {
        header: header(2013),
        flags: 0,
        sections: vec![
            Section { kind: 0, identifier: None, documents: vec![document(&base)] },
            Section {
                kind: 1,
                identifier: Some("documents\0".to_string()),
                documents: vec![document(&extra), document(&base)],
            },
        ],
        checksum: None,
    };
    let parsed = OP_MSG::from_bytes(&msg.to_vec()).unwrap();
    assert_eq!(parsed.sections.len(), 2);
    assert_eq!(parsed.sections[1].kind, 1);
    assert_eq!(parsed.sections[1].identifier, Some("documents\0".to_string()));
    assert_eq!(parsed.sections[1].documents.len(), 2);
    assert_eq!(parsed.sections[1].documents[0].as_bytes(), &encode(&extra)[..]);
    assert_eq!(parsed.sections[1].documents[1].as_bytes(), &encode(&base)[..]);
}

#[test]
fn message_errors() {
    assert_eq!(OP_MSG::from_bytes(&[0; 19]).unwrap_err(), WireError::Truncated);
    assert_eq!(OP_MSG::from_bytes(&[0; 20]).unwrap_err(), WireError::NoSections);
    assert_eq!(OP_MSG::from_bytes(&[0; 23]).unwrap_err(), WireError::NoSections);
    let mut flagged = vec![0u8; 20];
    flagged[16] = 1;
    assert_eq!(OP_MSG::from_bytes(&flagged).unwrap_err(), WireError::Truncated);
    flagged.extend_from_slice(&[1, 2, 3, 4]);
    assert_eq!(OP_MSG::from_bytes(&flagged).unwrap_err(), WireError::NoSections);
    let mut unknown = vec![0u8; 20];
    unknown.extend_from_slice(&[9, 0, 0, 0]);
    assert_eq!(OP_MSG::from_bytes(&unknown).unwrap_err(), WireError::UnknownSectionKind(9));
    let mut broken = vec![0u8; 20];
    broken.extend_from_slice(&[0, 6, 0, 0, 0, 9, 0]);
    assert_eq!(OP_MSG::from_bytes(&broken).unwrap_err(), WireError::MalformedDocument);
}

#[test]
fn trailing_bytes_below_four_are_left() {
    let d = sample("ping", 1);
    let mut bytes = body_message(0, None, &d).to_vec();
    bytes.extend_from_slice(&[1, 2, 3]);
    let parsed = OP_MSG::from_bytes(&bytes).unwrap();
    assert_eq!(parsed.sections.len(), 1);
}

#[test]
fn body_response_links_header_and_counts_length() {
    let prior = MsgHeader { msg_length: 99, request_id: 1234, response_to: 0, op_code: 2013 };
    let d = sample("ok", 1);
    let msg = OP_MSG::build_body_response(&prior, 77, 0, None, &document(&d));
    assert_eq!(msg.header.response_to, 1234);
    assert_eq!(msg.header.request_id, 77);
    assert_eq!(msg.header.op_code, 2013);
    let bytes = msg.to_vec();
    assert_eq!(msg.header.msg_length as usize, bytes.len());
    assert_eq!(bytes.len(), 21 + encode(&d).len());
    assert_eq!(msg.sections.len(), 1);
    assert_eq!(msg.sections[0].kind, 0);
    let sum = OP_MSG::build_body_response(&prior, 77, 1, Some(3), &document(&d));
    assert_eq!(sum.header.msg_length as usize, sum.to_vec().len());
    assert_eq!(sum.to_vec().len(), 25 + encode(&d).len());
}

#[test]
fn legacy_reply_round_trip() {
    let d = sample("ok", 1);
    let reply = OP_REPLY::new(header(1), 8, 0x0102030405060708, 2, 1, vec![document(&d)]);
    let bytes = reply.to_vec();
    assert_eq!(&bytes[20..28], &[8, 7, 6, 5, 4, 3, 2, 1]);
    let parsed = OP_REPLY::from_bytes(&bytes).unwrap();
    assert_eq!(parsed.header, header(1));
    assert_eq!(parsed.flags, 8);
    assert_eq!(parsed.cursor_id, 0x0102030405060708);
    assert_eq!(parsed.starting_from, 2);
    assert_eq!(parsed.number_returned, 1);
    assert_eq!(parsed.documents.len(), 1);
    assert_eq!(parsed.documents[0].as_bytes(), &encode(&d)[..]);
}

#[test]
fn legacy_reply_writes_first_document_only() {
    let a = sample("a", 1);
    let b = sample("b", 2);
    let reply = OP_REPLY::new(header(1), 0, 0, 0, 2, vec![document(&a), document(&b)]);
    let bytes = reply.to_vec();
    assert_eq!(bytes.len(), 36 + encode(&a).len());
    assert_eq!(&bytes[36..], &encode(&a)[..]);
}

#[test]
fn legacy_reply_parses_many_documents() {
    let a = sample("a", 1);
    let b = sample("b", 2);
    let mut bytes = OP_REPLY::new(header(1), 0, 0, 0, 2, vec![document(&a)]).to_vec();
    bytes.extend_from_slice(&encode(&b));
    bytes.push(0);
    let parsed = OP_REPLY::from_bytes(&bytes).unwrap();
    assert_eq!(parsed.documents.len(), 2);
    assert_eq!(parsed.documents[1].as_bytes(), &encode(&b)[..]);
    assert_eq!(OP_REPLY::from_bytes(&bytes[..36]).unwrap().documents.len(), 0);
    assert_eq!(OP_REPLY::from_bytes(&bytes[..35]).unwrap_err(), WireError::Truncated);
    assert_eq!(OP_REPLY::from_bytes(&bytes[..40]).unwrap_err(), WireError::Truncated);
}

fn query_frame(collection: &[u8], d: &bson::Document) -> Vec<u8> {
    let mut bytes = header(2004).to_vec();
    bytes.extend_from_slice(&4u32.to_le_bytes());
    bytes.extend_from_slice(collection);
    bytes.extend_from_slice(&3u32.to_le_bytes());
    bytes.extend_from_slice(&0xffffffffu32.to_le_bytes());
    bytes.extend_from_slice(&encode(d));
    bytes
}

#[test]
fn legacy_query_parses() {
    let d = sample("isMaster", 1);
    let bytes = query_frame(b"admin.$cmd\0", &d);
    let query = OP_QUERY::parse(header(2004), &bytes).unwrap();
    assert_eq!(query.flags, 4);
    assert_eq!(query.collection, "admin.$cmd\0");
    assert_eq!(query.number_to_skip, 3);
    assert_eq!(query.number_to_return, 0xffffffff);
    assert_eq!(query.query.as_bytes(), &encode(&d)[..]);
}

#[test]
fn legacy_query_errors() {
    let d = sample("isMaster", 1);
    assert_eq!(OP_QUERY::parse(header(2004), &[0; 19]).unwrap_err(), WireError::Truncated);
    assert_eq!(OP_QUERY::parse(header(2004), &[1; 24]).unwrap_err(), WireError::MalformedIdentifier);
    let bytes = query_frame(b"a\0", &d);
    assert_eq!(OP_QUERY::parse(header(2004), &bytes[..25]).unwrap_err(), WireError::Truncated);
    assert_eq!(OP_QUERY::parse(header(2004), &bytes[..32]).unwrap_err(), WireError::Truncated);
    let bad = query_frame(&[0xc0, 0], &d);
    assert_eq!(OP_QUERY::parse(header(2004), &bad).unwrap_err(), WireError::MalformedIdentifier);
}

#[test]
fn legacy_query_response_shape() {
    let d = sample("isMaster", 1);
    let bytes = query_frame(b"admin.$cmd\0", &d);
    let query = OP_QUERY::parse(header(2004), &bytes).unwrap();
    let answer = sample("ok", 1);
    let reply = query.build_response(5, &document(&answer));
    assert_eq!(reply.header.response_to, 7);
    assert_eq!(reply.header.request_id, 5);
    assert_eq!(reply.header.op_code, 1);
    assert_eq!(reply.header.msg_length as usize, reply.to_vec().len());
    assert_eq!(reply.flags, 0);
    assert_eq!(reply.cursor_id, 0);
    assert_eq!(reply.starting_from, 0);
    assert_eq!(reply.number_returned, 1);
    assert_eq!(reply.documents.len(), 1);
}

#[test]
fn parse_dispatches_on_op_code() {
    let d = sample("ping", 1);
    let mut msg = body_message(0, None, &d);
    msg.header.msg_length = msg.to_vec().len() as u32;
    let mut bytes = msg.to_vec();
    bytes.extend_from_slice(&[1, 2, 3, 4, 5, 6, 7, 8]);
    match parse(&bytes).unwrap() {
        OpCode::OpMsg(m) => {
            assert_eq!(m.sections.len(), 1);
            assert_eq!(m.header.msg_length as usize, bytes.len() - 8);
        }
        _ => panic!("not a modern message"),
    }
    let query = query_frame(b"admin.$cmd\0", &d);
    assert!(matches!(parse(&query).unwrap(), OpCode::OpQuery(_)));
}

#[test]
fn parse_errors() {
    assert_eq!(parse(&[0; 15]).unwrap_err(), WireError::Truncated);
    let other = header(2012).to_vec();
    assert_eq!(
        parse(&other).unwrap_err(),
        WireError::OpCodeNotImplemented(OpCodeNotImplementedError { op_code: 2012 })
    );
    let reply = header(1).to_vec();
    assert_eq!(
        parse(&reply).unwrap_err(),
        WireError::OpCodeNotImplemented(OpCodeNotImplementedError { op_code: 1 })
    );
    let d = sample("ping", 1);
    let mut msg = body_message(0, None, &d);
    msg.header.msg_length = 1000;
    assert_eq!(parse(&msg.to_vec()).unwrap_err(), WireError::Truncated);
    msg.header.msg_length = 18;
    assert_eq!(parse(&msg.to_vec()).unwrap_err(), WireError::Truncated);
}

#[test]
fn zero_length_announces_disconnect() {
    assert_eq!(announced(&[0, 0, 0, 0]), Ok(Announced::Disconnect));
    assert_eq!(announced(&[0, 0, 0, 0, 9, 9]), Ok(Announced::Disconnect));
}

#[test]
fn announced_length_is_signed_little_endian() {
    assert_eq!(announced(&[16, 1, 0, 0]), Ok(Announced::Frame(272)));
    assert_eq!(announced(&[0xff, 0xff, 0xff, 0x7f]), Ok(Announced::Frame(0x7fffffff)));
    assert_eq!(announced(&[0xff, 0xff, 0xff, 0xff]), Err(IncompleteFrame));
    assert_eq!(announced(&[0, 0, 0, 0x80]), Err(IncompleteFrame));
    assert_eq!(announced(&[1, 0, 0]), Err(IncompleteFrame));
    assert_eq!(announced(&[]), Err(IncompleteFrame));
}

#[test]
fn accept_frame_wants_the_announced_length() {
    assert_eq!(accept_frame(5, vec![5, 0, 0, 0, 1]), Ok(vec![5, 0, 0, 0, 1]));
    assert_eq!(accept_frame(5, vec![5, 0, 0, 0]), Err(IncompleteFrame));
    assert_eq!(accept_frame(4, vec![5, 0, 0, 0]), Err(IncompleteFrame));
    assert_eq!(accept_frame(0, vec![]), Err(IncompleteFrame));
}
