//! Message framing: the sixteen-byte header shared by every frame, and the
//! opcode-specific bodies.
use vstd::prelude::*;
use vstd::bytes::{spec_u32_from_le_bytes, spec_u32_to_le_bytes, lemma_auto_spec_u32_to_from_le_bytes};
use vstd::slice::slice_subrange;
use vstd::string::StringExecFns;

pub mod endian;
pub mod op_msg;
pub mod op_query;
pub mod op_reply;
pub mod util;

use self::endian::{read_i32, read_u32, write_u32, spec_i32_from_le_bytes};
use self::op_msg::{OP_MSG, MsgView, spec_parse_msg, spec_msg_reply, documents_view};
use self::op_query::{OP_QUERY, QueryView, spec_parse_query, spec_query_reply};
use self::op_reply::{OP_REPLY, ReplyView};
use crate::handler::Response;
use crate::text::{decimal, spec_decimal};

verus! {

/// The operation code of a message in the modern format.
pub const OP_MSG_CODE: u32 = 2013;

/// The operation code of a legacy reply.
pub const OP_REPLY_CODE: u32 = 1;

/// The operation code of a legacy query.
pub const OP_QUERY_CODE: u32 = 2004;

/// The largest document that a node takes, in bytes.
pub const MAX_DOCUMENT_LEN: u32 = 16777216;

/// The largest message that a node takes, in bytes.
pub const MAX_MSG_LEN: u32 = 48000000;

/// The size of the header of every frame, in bytes.
pub const HEADER_SIZE: u32 = 16;

/// The flag bit that announces a checksum at the end of a message.
pub const CHECKSUM_PRESENT: u32 = 1;

/// The flag bit that announces further messages without a request between.
pub const MORE_TO_COME: u32 = 2;

/// The flag bit by which a client allows a stream of replies.
pub const EXHAUST_ALLOWED: u32 = 65536;

/// The envelope that starts every frame.
#[derive(Debug, Clone, Copy, PartialEq, Eq, Structural)]
pub struct MsgHeader {
    pub msg_length: u32,
    pub request_id: u32,
    pub response_to: u32,
    pub op_code: u32,
}

/// A frame carried an operation code that the proxy does not speak.
#[derive(Debug, Clone, Copy, PartialEq, Eq, Structural)]
pub struct OpCodeNotImplementedError {
    pub op_code: u32,
}

/// A message is of a kind that cannot be answered.
#[derive(Debug, Clone, Copy, PartialEq, Eq, Structural)]
pub struct UnknownMessageKindError;

/// The four header fields read from the first sixteen bytes of `bytes`.
pub open spec fn spec_parse_header(bytes: Seq<u8>) -> MsgHeader
    recommends
        bytes.len() >= 16,
{
    MsgHeader {
        msg_length: spec_u32_from_le_bytes(bytes.subrange(0, 4)),
        request_id: spec_u32_from_le_bytes(bytes.subrange(4, 8)),
        response_to: spec_u32_from_le_bytes(bytes.subrange(8, 12)),
        op_code: spec_u32_from_le_bytes(bytes.subrange(12, 16)),
    }
}

impl MsgHeader {
    /// The sixteen bytes that encode this header.
    pub open spec fn spec_bytes(self) -> Seq<u8> {
        spec_u32_to_le_bytes(self.msg_length) + spec_u32_to_le_bytes(self.request_id)
            + spec_u32_to_le_bytes(self.response_to) + spec_u32_to_le_bytes(self.op_code)
    }

    /// The header of an answer to the message that carries `self`.
    pub open spec fn spec_response(self, request_id: u32, message_length: u32, op_code: u32) -> MsgHeader {
        MsgHeader {
            msg_length: message_length,
            request_id: request_id,
            response_to: self.request_id,
            op_code: op_code,
        }
    }

    /// Reads a header from the first sixteen bytes of `bytes`.
    pub fn parse(bytes: &[u8]) -> (header: MsgHeader)
        requires
            bytes.len() >= 16,
        ensures
            header == spec_parse_header(bytes@),
    {
        let message_length: u32 = read_u32(bytes, 0);
        let request_id: u32 = read_u32(bytes, 4);
        let response_to: u32 = read_u32(bytes, 8);
        let op_code: u32 = read_u32(bytes, 12);
        MsgHeader {
            msg_length: message_length,
            request_id: request_id,
            response_to: response_to,
            op_code: op_code,
        }
    }

    /// The header of an answer with the same operation code.
    pub fn get_response(&self, request_id: u32, message_length: u32) -> (header: MsgHeader)
        ensures
            header == self.spec_response(request_id, message_length, self.op_code),
            header.response_to == self.request_id,
    {
        self.get_response_with_op_code(request_id, message_length, self.op_code)
    }

    /// The header of an answer: it points back at the request through
    /// `response_to`.
    pub fn get_response_with_op_code(&self, request_id: u32, message_length: u32, op_code: u32) -> (header:
        MsgHeader)
        ensures
            header == self.spec_response(request_id, message_length, op_code),
            header.response_to == self.request_id,
    {
        MsgHeader {
            msg_length: message_length,
            request_id: request_id,
            response_to: self.request_id,
            op_code: op_code,
        }
    }

    pub fn new(msg_length: u32, request_id: u32, response_to: u32, op_code: u32) -> (header: MsgHeader)
        ensures
            header == (MsgHeader { msg_length, request_id, response_to, op_code }),
    {
        MsgHeader {
            msg_length: msg_length,
            request_id: request_id,
            response_to: response_to,
            op_code: op_code,
        }
    }

    /// Reads a header from an owned buffer; fails when the buffer is shorter
    /// than a header.
    pub fn from_bytes(bytes: Vec<u8>) -> (result: Result<MsgHeader, UnknownMessageKindError>)
        ensures
            bytes.len() >= 16 ==> result == Ok::<MsgHeader, UnknownMessageKindError>(
                spec_parse_header(bytes@),
            ),
            bytes.len() < 16 ==> result is Err,
    {
        if bytes.len() < 16 {
            return Err(UnknownMessageKindError);
        }
        Ok(MsgHeader::parse(bytes.as_slice()))
    }

    /// Encodes the header as sixteen bytes.
    pub fn to_vec(&self) -> (out: Vec<u8>)
        ensures
            out@ == self.spec_bytes(),
            out.len() == 16,
    {
        let mut out: Vec<u8> = Vec::new();
        write_u32(&mut out, self.msg_length);
        write_u32(&mut out, self.request_id);
        write_u32(&mut out, self.response_to);
        write_u32(&mut out, self.op_code);
        proof {
            lemma_auto_spec_u32_to_from_le_bytes();
        }
        out
    }
}

/// Decoding an encoded header gives the header back, whatever follows it.
pub proof fn lemma_header_round_trip(header: MsgHeader, rest: Seq<u8>)
    ensures
        header.spec_bytes().len() == 16,
        spec_parse_header(header.spec_bytes() + rest) == header,
{
    lemma_auto_spec_u32_to_from_le_bytes();
    let b = header.spec_bytes() + rest;
    assert(b.subrange(0, 4) =~= spec_u32_to_le_bytes(header.msg_length));
    assert(b.subrange(4, 8) =~= spec_u32_to_le_bytes(header.request_id));
    assert(b.subrange(8, 12) =~= spec_u32_to_le_bytes(header.response_to));
    assert(b.subrange(12, 16) =~= spec_u32_to_le_bytes(header.op_code));
}

/// Why a buffer is not the message it was taken for.
#[derive(Debug, Clone, Copy, PartialEq, Eq, Structural)]
pub enum WireError {
    /// The buffer ends before the value does.
    Truncated,
    /// The bytes at the place of a document are not one: the length prefix
    /// is below the least size, the documents inside nest too deep, or
    /// the bytes do not decode.
    MalformedDocument,
    /// The identifier of a section has no end within it, or is not text.
    MalformedIdentifier,
    /// The declared length of a section is less than its own four bytes.
    BadSectionLength,
    /// The section's tag is neither 0 nor 1.
    UnknownSectionKind(u8),
    /// The message holds no section.
    NoSections,
    /// The operation code is none that the proxy speaks.
    OpCodeNotImplemented(OpCodeNotImplementedError),
}

impl WireError {
    /// The text that tells a client why its frame was refused.
    pub open spec fn spec_message(self) -> Seq<char> {
        match self {
            WireError::Truncated => "the frame ends before the message does"@,
            WireError::MalformedDocument => "a document of the message does not decode"@,
            WireError::MalformedIdentifier => "a section identifier is not terminated text"@,
            WireError::BadSectionLength => "a section declares a length below its own size"@,
            WireError::UnknownSectionKind(kind) => "received unknown section kind from OP_MSG: "@
                + spec_decimal(kind),
            WireError::NoSections => "OP_MSG must have at least one section, received none"@,
            WireError::OpCodeNotImplemented(_) => "the operation code is not implemented"@,
        }
    }

    /// The text that tells a client why its frame was refused.
    pub fn message(&self) -> (text: String)
        ensures
            text@ == self.spec_message(),
    {
        match self {
            WireError::Truncated => "the frame ends before the message does".to_owned(),
            WireError::MalformedDocument => "a document of the message does not decode".to_owned(),
            WireError::MalformedIdentifier => "a section identifier is not terminated text".to_owned(),
            WireError::BadSectionLength => "a section declares a length below its own size".to_owned(),
            WireError::UnknownSectionKind(kind) => {
                let mut text: String = "received unknown section kind from OP_MSG: ".to_owned();
                let number: String = decimal(*kind);
                text.append(number.as_str());
                text
            },
            WireError::NoSections => "OP_MSG must have at least one section, received none".to_owned(),
            WireError::OpCodeNotImplemented(_) => "the operation code is not implemented".to_owned(),
        }
    }
}

/// The stream ended before the frame did, or the frame declares a length
/// that no frame has.
#[derive(Debug, Clone, Copy, PartialEq, Eq, Structural)]
pub struct IncompleteFrame;

/// What the four bytes at the front of a stream announce.
#[derive(Debug, Clone, Copy, PartialEq, Eq, Structural)]
pub enum Announced {
    /// The length 0: the client has gone, in good order.
    Disconnect,
    /// A frame of this many bytes, the four of the length among them.
    Frame(usize),
}

/// What the bytes `prefix`, peeked at the front of a stream, announce:
/// their first four are the signed little-endian length of the frame.
pub open spec fn spec_announced(prefix: Seq<u8>) -> Result<Announced, IncompleteFrame> {
    if prefix.len() < 4 {
        Err(IncompleteFrame)
    } else {
        let length = spec_i32_from_le_bytes(prefix.subrange(0, 4));
        if length == 0 {
            Ok(Announced::Disconnect)
        } else if length < 0 {
            Err(IncompleteFrame)
        } else {
            Ok(Announced::Frame(length as usize))
        }
    }
}

/// Reads the length that a stream announces from the bytes peeked at its
/// front. The length 0 ends the connection without error.
pub fn announced(prefix: &[u8]) -> (result: Result<Announced, IncompleteFrame>)
    ensures
        result == spec_announced(prefix@),
{
    if prefix.len() < 4 {
        return Err(IncompleteFrame);
    }
    let length: i32 = read_i32(prefix, 0);
    if length == 0 {
        Ok(Announced::Disconnect)
    } else if length < 0 {
        Err(IncompleteFrame)
    } else {
        Ok(Announced::Frame(length as usize))
    }
}

/// Takes the bytes read from a stream as the frame that was announced:
/// they are the frame if they are as many as announced, and with the
/// length at their front.
pub fn accept_frame(length: usize, bytes: Vec<u8>) -> (result: Result<Vec<u8>, IncompleteFrame>)
    ensures
        match result {
            Ok(frame) => frame == bytes && spec_announced(bytes@) == Ok::<Announced, IncompleteFrame>(
                Announced::Frame(length),
            ) && bytes.len() == length,
            Err(_) => !(spec_announced(bytes@) == Ok::<Announced, IncompleteFrame>(Announced::Frame(length))
                && bytes.len() == length),
        },
{
    if bytes.len() != length {
        return Err(IncompleteFrame);
    }
    match announced(bytes.as_slice()) {
        Ok(Announced::Frame(n)) => if n == length {
            Ok(bytes)
        } else {
            Err(IncompleteFrame)
        },
        _ => Err(IncompleteFrame),
    }
}

/// A message that can be written to the wire.
pub trait Serializable {
    /// The bytes that encode the message.
    spec fn spec_encoding(&self) -> Seq<u8>;

    /// Whether every length of the message is in reach of its field.
    spec fn can_encode(&self) -> bool;

    /// Encodes the message.
    fn to_vec(&self) -> (out: Vec<u8>)
        requires
            self.can_encode(),
        ensures
            out@ == self.spec_encoding(),
    ;
}

/// A message that a reply can be made for.
pub trait Replyable {
    /// The bytes of the reply that carries `response`, if this message can
    /// be answered with it.
    spec fn spec_reply(&self, response: Response) -> Option<Seq<u8>>;

    /// Builds the reply that carries `response`, of the same kind as this
    /// message.
    fn reply(&self, response: Response) -> (result: Result<Vec<u8>, UnknownMessageKindError>)
        ensures
            match self.spec_reply(response) {
                Some(bytes) => result matches Ok(out) && out@ == bytes,
                None => result is Err,
            },
    ;
}

/// A decoded message, by its operation code.
#[derive(Debug)]
pub enum OpCode {
    OpMsg(OP_MSG),
    OpQuery(OP_QUERY),
    OpReply(OP_REPLY),
}

/// The mathematical value of an [`OpCode`].
pub enum OpCodeView {
    OpMsg(MsgView),
    OpQuery(QueryView),
    OpReply(ReplyView),
}

impl View for OpCode {
    type V = OpCodeView;

    open spec fn view(&self) -> OpCodeView {
        match self {
            OpCode::OpMsg(m) => OpCodeView::OpMsg(m@),
            OpCode::OpQuery(q) => OpCodeView::OpQuery(q@),
            OpCode::OpReply(r) => OpCodeView::OpReply(r@),
        }
    }
}

/// The message that the frame `buffer` holds. The operation code of the
/// header decides the format; a modern message ends where the header's
/// length field says.
pub open spec fn spec_parse(buffer: Seq<u8>) -> Result<OpCodeView, WireError> {
    if buffer.len() < 16 {
        Err(WireError::Truncated)
    } else {
        let header = spec_parse_header(buffer);
        if header.op_code == OP_MSG_CODE {
            if header.msg_length > buffer.len() {
                Err(WireError::Truncated)
            } else {
                match spec_parse_msg(buffer.subrange(0, header.msg_length as int)) {
                    Ok(m) => Ok(OpCodeView::OpMsg(m)),
                    Err(e) => Err(e),
                }
            }
        } else if header.op_code == OP_QUERY_CODE {
            match spec_parse_query(header, buffer) {
                Ok(q) => Ok(OpCodeView::OpQuery(q)),
                Err(e) => Err(e),
            }
        } else {
            Err(WireError::OpCodeNotImplemented(OpCodeNotImplementedError { op_code: header.op_code }))
        }
    }
}

/// The bytes of the reply to the message `this` that carries the first of
/// `docs` under the id `id`, where `request` is the message that the
/// reply names as answered. A modern message is answered in the modern
/// format, a legacy query with a legacy reply, a reply not at all.
pub open spec fn spec_reply_to(this: OpCodeView, request: OpCodeView, id: u32, docs: Seq<Seq<u8>>) -> Option<
    Seq<u8>,
> {
    match this {
        OpCodeView::OpMsg(m) => spec_msg_reply(m, request, id, docs),
        OpCodeView::OpQuery(q) => spec_query_reply(q, id, docs),
        OpCodeView::OpReply(r) => None,
    }
}

impl OpCode {
    /// Whether every document of the message is valid.
    pub open spec fn documents_wf(&self) -> bool {
        match self {
            OpCode::OpMsg(m) => m.documents_wf(),
            OpCode::OpQuery(q) => q.query.wf(),
            OpCode::OpReply(r) => r.documents_wf(),
        }
    }

    /// The bytes of the reply to this message, if it is one that is
    /// answered.
    pub open spec fn spec_reply(&self, response: Response) -> Option<Seq<u8>> {
        spec_reply_to(self@, response.op_code@, response.id, documents_view(response.docs@))
    }

    /// Builds the reply that carries `response`, of the same kind as this
    /// message. A reply is not answered.
    pub fn reply(&self, response: Response) -> (result: Result<Vec<u8>, UnknownMessageKindError>)
        ensures
            match self.spec_reply(response) {
                Some(bytes) => result matches Ok(out) && out@ == bytes,
                None => result is Err,
            },
    {
        match self {
            OpCode::OpMsg(op_msg) => op_msg.reply(response),
            OpCode::OpQuery(op_query) => op_query.reply(response),
            _ => Err(UnknownMessageKindError),
        }
    }
}

/// Decodes one frame.
pub fn parse(buffer: &[u8]) -> (result: Result<OpCode, WireError>)
    ensures
        match spec_parse(buffer@) {
            Ok(m) => result matches Ok(op) && op@ == m && op.documents_wf(),
            Err(e) => result matches Err(x) && x == e,
        },
{
    if buffer.len() < 16 {
        return Err(WireError::Truncated);
    }
    let header = MsgHeader::parse(buffer);
    if header.op_code == OP_MSG_CODE {
        let length: usize = header.msg_length as usize;
        if length > buffer.len() {
            return Err(WireError::Truncated);
        }
        match OP_MSG::from_bytes(slice_subrange(buffer, 0, length)) {
            Ok(msg) => Ok(OpCode::OpMsg(msg)),
            Err(e) => Err(e),
        }
    } else if header.op_code == OP_QUERY_CODE {
        match OP_QUERY::parse(header, buffer) {
            Ok(query) => Ok(OpCode::OpQuery(query)),
            Err(e) => Err(e),
        }
    } else {
        Err(WireError::OpCodeNotImplemented(OpCodeNotImplementedError { op_code: header.op_code }))
    }
}

} // verus!
