//! The command router: from a decoded message to the reply, by way of the
//! cache and, where the cache cannot answer, of the upstream node.
//!
//! The router never touches a socket. Where the upstream node has to be
//! asked, [`handle`] hands back the bytes to send and a note of what the
//! answer is awaited for; the caller sends them, reads one frame, and
//! calls [`resume`] with it.
use vstd::prelude::*;
use vstd::slice::slice_subrange;
use vstd::string::StringExecFns;

use crate::commands::{Command, Phase, cursor_key, lookup, spec_cursor_key, spec_lookup};
use crate::commands::find::{Find, spec_find};
use crate::document::{
    Document, Value, ValueView, built_as, spec_first_key, put, raw_view, spec_cursor_id, spec_get_i64,
    spec_get_str, spec_new_document, spec_put, spec_with, valid_document,
};
use crate::storage::{EntryView, GetMore, GetMoreView, InnerData, Storage, spec_cache_wf};
use crate::text::{bare, decimal, same_text, spec_bare, spec_decimal};
use crate::wire::{
    MsgHeader, OpCode, OpCodeView, Serializable, WireError, spec_parse_header, spec_reply_to, OP_MSG_CODE,
    OP_QUERY_CODE,
};
use crate::wire::op_msg::{MsgView, OP_MSG, Section, SectionView, documents_view, spec_body_response};
use crate::wire::op_query::{query_response, spec_query_response};
use crate::wire::util::{spec_take_document, take_document};

verus! {

/// A command could not be carried out.
#[derive(Debug)]
pub struct CommandExecutionError {
    pub message: String,
}

impl CommandExecutionError {
    pub fn new(message: String) -> (error: CommandExecutionError)
        ensures
            error.message == message,
    {
        CommandExecutionError { message }
    }
}

/// Why a request could not be carried out.
#[derive(Debug)]
pub enum Fault {
    /// A modern message came without a section.
    NoSections,
    /// The first section is of kind 1 and has no identifier.
    MissingIdentifier,
    /// There is no section of kind 0 with a command document to fold into.
    MissingBaseSection,
    /// A section of kind 1 has an identifier other than `documents`.
    UnsupportedSectionIdentifier(String),
    /// The first section is of neither kind.
    UnknownSectionKind(u8),
    /// The message is a reply, which carries no command.
    UnknownOpCode,
    /// An argument that the command names is absent or of another type.
    MissingArgument,
    /// The frame from upstream holds no document where one is due.
    MalformedReply,
    /// The document from upstream names no cursor id.
    MissingCursorId,
    /// The cache holds an entry of the wrong sort under a key.
    CacheInvariant,
    /// A document could not be built.
    Encoding,
    /// The message is of a kind that no reply exists for.
    Unanswerable,
}

/// The mathematical value of a [`Fault`].
pub enum FaultView {
    NoSections,
    MissingIdentifier,
    MissingBaseSection,
    UnsupportedSectionIdentifier(Seq<char>),
    UnknownSectionKind(u8),
    UnknownOpCode,
    MissingArgument,
    MalformedReply,
    MissingCursorId,
    CacheInvariant,
    Encoding,
    Unanswerable,
}

impl View for Fault {
    type V = FaultView;

    open spec fn view(&self) -> FaultView {
        match self {
            Fault::NoSections => FaultView::NoSections,
            Fault::MissingIdentifier => FaultView::MissingIdentifier,
            Fault::MissingBaseSection => FaultView::MissingBaseSection,
            Fault::UnsupportedSectionIdentifier(s) => FaultView::UnsupportedSectionIdentifier(s@),
            Fault::UnknownSectionKind(k) => FaultView::UnknownSectionKind(*k),
            Fault::UnknownOpCode => FaultView::UnknownOpCode,
            Fault::MissingArgument => FaultView::MissingArgument,
            Fault::MalformedReply => FaultView::MalformedReply,
            Fault::MissingCursorId => FaultView::MissingCursorId,
            Fault::CacheInvariant => FaultView::CacheInvariant,
            Fault::Encoding => FaultView::Encoding,
            Fault::Unanswerable => FaultView::Unanswerable,
        }
    }
}

impl FaultView {
    /// The text that tells a client of the fault.
    pub open spec fn spec_message(self) -> Seq<char> {
        match self {
            FaultView::NoSections => "OP_MSG must have at least one section, received none"@,
            FaultView::MissingIdentifier => "all kind 1 sections on OP_MSG must have an identifier, received none"@,
            FaultView::MissingBaseSection => "OP_MSG with a kind 1 documents section must also have at least one kind 0 section, received none"@,
            FaultView::UnsupportedSectionIdentifier(id) => "received unknown kind 1 section identifier from OP_MSG: "@
                + id,
            FaultView::UnknownSectionKind(kind) => "received unknown section kind from OP_MSG: "@
                + spec_decimal(kind),
            FaultView::UnknownOpCode => "Unknown OpCode"@,
            FaultView::MissingArgument => "a command argument is missing or of the wrong type"@,
            FaultView::MalformedReply => "the upstream reply holds no document"@,
            FaultView::MissingCursorId => "the upstream reply names no cursor id"@,
            FaultView::CacheInvariant => "data is not a document"@,
            FaultView::Encoding => "a document could not be encoded"@,
            FaultView::Unanswerable => "the message cannot be answered"@,
        }
    }
}

impl Fault {
    /// The text that tells a client of the fault.
    pub fn message(&self) -> (text: String)
        ensures
            text@ == self@.spec_message(),
    {
        match self {
            Fault::NoSections => "OP_MSG must have at least one section, received none".to_owned(),
            Fault::MissingIdentifier => "all kind 1 sections on OP_MSG must have an identifier, received none".to_owned(),
            Fault::MissingBaseSection => "OP_MSG with a kind 1 documents section must also have at least one kind 0 section, received none".to_owned(),
            Fault::UnsupportedSectionIdentifier(id) => {
                let mut text: String = "received unknown kind 1 section identifier from OP_MSG: ".to_owned();
                text.append(id.as_str());
                text
            },
            Fault::UnknownSectionKind(kind) => {
                let mut text: String = "received unknown section kind from OP_MSG: ".to_owned();
                let number: String = decimal(*kind);
                text.append(number.as_str());
                text
            },
            Fault::UnknownOpCode => "Unknown OpCode".to_owned(),
            Fault::MissingArgument => "a command argument is missing or of the wrong type".to_owned(),
            Fault::MalformedReply => "the upstream reply holds no document".to_owned(),
            Fault::MissingCursorId => "the upstream reply names no cursor id".to_owned(),
            Fault::CacheInvariant => "data is not a document".to_owned(),
            Fault::Encoding => "a document could not be encoded".to_owned(),
            Fault::Unanswerable => "the message cannot be answered".to_owned(),
        }
    }

    /// The error that carries the fault's text.
    pub fn into_error(self) -> (error: CommandExecutionError)
        ensures
            error.message@ == self@.spec_message(),
    {
        CommandExecutionError::new(self.message())
    }
}

/// What answers a request: the id of the answer, the request, and the
/// documents of the answer, of which the first is sent.
#[derive(Debug)]
pub struct Response<'a> {
    pub id: u32,
    pub op_code: &'a OpCode,
    pub docs: Vec<Document>,
}

impl<'a> Response<'a> {
    pub fn new(id: u32, op_code: &'a OpCode, docs: Vec<Document>) -> (response: Response<'a>)
        ensures
            response.id == id,
            response.op_code == op_code,
            response.docs == docs,
    {
        Response { id, op_code, docs }
    }

    pub fn get_id(&self) -> (id: u32)
        ensures
            id == self.id,
    {
        self.id
    }

    pub fn get_op_code(&self) -> (op_code: &'a OpCode)
        ensures
            op_code == self.op_code,
    {
        self.op_code
    }

    /// The document that is sent.
    pub fn get_doc(&self) -> (doc: &Document)
        requires
            self.docs.len() >= 1,
        ensures
            *doc == self.docs[0],
    {
        &self.docs[0]
    }
}

/// The document that tells a client of a failed command: `ok` is the
/// double 0, `errmsg` the text, `code` the number 59, and `codeName` the
/// name of that code. It is none where `bson` does not encode it.
pub open spec fn spec_error_document(errmsg: Seq<char>) -> Option<Seq<u8>> {
    spec_put(
        spec_put(
            spec_put(
                spec_put(spec_new_document(), "ok"@, ValueView::Whole(0)),
                "errmsg"@,
                ValueView::Text(errmsg),
            ),
            "code"@,
            ValueView::Int32(59),
        ),
        "codeName"@,
        ValueView::Text("CommandNotFound"@),
    )
}

/// Builds the document that tells a client of a failed command.
pub fn error_document(errmsg: &str) -> (doc: Option<Document>)
    ensures
        built_as(doc, spec_error_document(errmsg@)),
{
    let doc = put(Document::new(), "ok", &Value::Whole(0));
    let doc = put(doc, "errmsg", &Value::Text(errmsg.to_owned()));
    let doc = put(doc, "code", &Value::Int32(59));
    put(doc, "codeName", &Value::Text("CommandNotFound".to_owned()))
}

/// The text that answers a command of an unknown name.
pub open spec fn spec_no_such_command(name: Seq<char>) -> Seq<char> {
    "no such command: '"@ + name + "'"@
}

/// The document that answers a command of an unknown name.
pub fn not_found_document(name: &str) -> (doc: Option<Document>)
    ensures
        built_as(doc, spec_error_document(spec_no_such_command(name@))),
{
    let mut text: String = "no such command: '".to_owned();
    text.append(name);
    text.append("'");
    error_document(text.as_str())
}

/// What the answer from upstream is awaited for.
#[derive(Debug, Clone, Copy, PartialEq, Eq, Structural)]
pub enum Pending {
    /// Nothing is cached: the answer goes to the client as it is.
    Passthrough,
    /// A one-shot query missed the cache: the answer is cached under
    /// `key`.
    Query { key: u64 },
    /// A cursor asks for its next batch: the answer joins the batches
    /// under `open`, and they move to `closed` when it reports the end.
    Cursor { open: u64, closed: u64 },
}

/// What the router decided for a command.
#[derive(Debug)]
pub enum Step {
    /// Answer the client with this document.
    Reply(Document),
    /// Ask upstream, then go on with the answer.
    Forward(Pending),
    /// The command asks who the server is; the program around the
    /// library answers it.
    Identity,
}

/// The mathematical value of a [`Step`].
pub enum StepView {
    Reply(Seq<u8>),
    Forward(Pending),
    Identity,
}

impl View for Step {
    type V = StepView;

    open spec fn view(&self) -> StepView {
        match self {
            Step::Reply(d) => StepView::Reply(d@),
            Step::Forward(p) => StepView::Forward(*p),
            Step::Identity => StepView::Identity,
        }
    }
}

/// Whether `result` is the executable form of `expected`.
pub open spec fn stepped_as(result: Result<Step, Fault>, expected: Result<StepView, FaultView>) -> bool {
    match expected {
        Ok(step) => result matches Ok(s) && s@ == step,
        Err(fault) => result matches Err(f) && f@ == fault,
    }
}

/// Whether `result` is the executable form of `expected`.
pub open spec fn document_as(result: Result<Document, Fault>, expected: Result<Seq<u8>, FaultView>) -> bool {
    match expected {
        Ok(doc) => result matches Ok(d) && d@ == doc && d.wf(),
        Err(fault) => result matches Err(f) && f@ == fault,
    }
}

/// A copy of the bytes of each document.
pub fn raw_documents(documents: &Vec<Document>) -> (raw: Vec<Vec<u8>>)
    ensures
        raw_view(raw@) == documents_view(documents@),
{
    let mut raw: Vec<Vec<u8>> = Vec::new();
    let mut i: usize = 0;
    assert(raw_view(raw@) =~= documents_view(documents@.subrange(0, 0)));
    while i < documents.len()
        invariant
            i <= documents.len(),
            raw_view(raw@) == documents_view(documents@.subrange(0, i as int)),
        decreases documents.len() - i,
    {
        let copy: Vec<u8> = vstd::slice::slice_to_vec(documents[i].as_bytes());
        proof {
            let done = documents_view(documents@.subrange(0, i as int));
            assert(raw_view(raw@.push(copy)) =~= raw_view(raw@).push(copy@));
            assert(documents_view(documents@.subrange(0, i + 1)) =~= done.push(documents[i as int]@));
        }
        raw.push(copy);
        i = i + 1;
    }
    assert(documents@.subrange(0, documents.len() as int) =~= documents@);
    raw
}

/// The command document `base` after the sections from `from` on were
/// folded into it: the documents of a section named `documents` go under
/// the key `documents` as an array; a section of another name is refused;
/// a section without a name is passed over.
pub open spec fn spec_fold(base: Seq<u8>, sections: Seq<SectionView>, from: int) -> Result<Seq<u8>, FaultView>
    decreases sections.len() - from,
{
    if from < 0 || from >= sections.len() {
        Ok(base)
    } else {
        match sections[from].identifier {
            Some(identifier) => if identifier == "documents\0"@ {
                match spec_with(base, "documents"@, ValueView::List(sections[from].documents)) {
                    Some(folded) => spec_fold(folded, sections, from + 1),
                    None => Err(FaultView::Encoding),
                }
            } else {
                Err(FaultView::UnsupportedSectionIdentifier(spec_bare(identifier)))
            },
            None => spec_fold(base, sections, from + 1),
        }
    }
}

/// The one command document that a modern message stands for. The
/// document of a first section of kind 0 is the base, and later sections
/// are folded into it. Where the first section is of kind 1 and named
/// `documents`, the second section must be of kind 0 and gives the base.
pub open spec fn spec_command(msg: MsgView) -> Result<Seq<u8>, FaultView> {
    if msg.sections.len() < 1 {
        Err(FaultView::NoSections)
    } else {
        let first = msg.sections[0];
        if first.kind == 0 {
            if first.documents.len() < 1 {
                Err(FaultView::MissingBaseSection)
            } else {
                spec_fold(first.documents[0], msg.sections, 1)
            }
        } else if first.kind == 1 {
            match first.identifier {
                None => Err(FaultView::MissingIdentifier),
                Some(identifier) => if identifier == "documents\0"@ {
                    if msg.sections.len() < 2 || msg.sections[1].kind != 0 || msg.sections[1].documents.len()
                        < 1 {
                        Err(FaultView::MissingBaseSection)
                    } else {
                        match spec_with(
                            msg.sections[1].documents[0],
                            "documents"@,
                            ValueView::List(first.documents),
                        ) {
                            Some(folded) => Ok(folded),
                            None => Err(FaultView::Encoding),
                        }
                    }
                } else {
                    Err(FaultView::UnsupportedSectionIdentifier(spec_bare(identifier)))
                },
            }
        } else {
            Err(FaultView::UnknownSectionKind(first.kind))
        }
    }
}

fn fold_sections(base: Document, sections: &Vec<Section>, from: usize) -> (result: Result<Document, Fault>)
    ensures
        document_as(result, spec_fold(base@, crate::wire::op_msg::sections_view(sections@), from as int)),
{
    let ghost all = crate::wire::op_msg::sections_view(sections@);
    proof {
        use_type_invariant(&base);
    }
    let mut current = base;
    let mut i: usize = from;
    while i < sections.len()
        invariant
            from <= i,
            all == crate::wire::op_msg::sections_view(sections@),
            spec_fold(base@, all, from as int) == spec_fold(current@, all, i as int),
            current.wf(),
        decreases sections.len() - i,
    {
        assert(all[i as int] == sections[i as int]@);
        match &sections[i].identifier {
            Some(identifier) => {
                if same_text(identifier.as_str(), "documents\0") {
                    let items = Value::List(raw_documents(&sections[i].documents));
                    match current.with("documents", &items) {
                        Some(folded) => {
                            current = folded;
                        },
                        None => {
                            return Err(Fault::Encoding);
                        },
                    }
                } else {
                    return Err(Fault::UnsupportedSectionIdentifier(bare(identifier.as_str())));
                }
            },
            None => {},
        }
        i = i + 1;
    }
    Ok(current)
}

/// Works out the one command document that a modern message stands for.
pub fn handle_op_msg(msg: &OP_MSG) -> (result: Result<Document, Fault>)
    ensures
        document_as(result, spec_command(msg@)),
{
    if msg.sections.len() < 1 {
        return Err(Fault::NoSections);
    }
    let first = &msg.sections[0];
    assert(msg@.sections[0] == first@);
    if first.kind == 0 {
        if first.documents.len() < 1 {
            return Err(Fault::MissingBaseSection);
        }
        return fold_sections(first.documents[0].duplicate(), &msg.sections, 1);
    }
    if first.kind == 1 {
        let identifier = match &first.identifier {
            Some(identifier) => identifier,
            None => {
                return Err(Fault::MissingIdentifier);
            },
        };
        if same_text(identifier.as_str(), "documents\0") {
            if msg.sections.len() < 2 {
                return Err(Fault::MissingBaseSection);
            }
            let second = &msg.sections[1];
            assert(msg@.sections[1] == second@);
            if second.kind != 0 || second.documents.len() < 1 {
                return Err(Fault::MissingBaseSection);
            }
            let items = Value::List(raw_documents(&first.documents));
            return match second.documents[0].with("documents", &items) {
                Some(folded) => Ok(folded),
                None => Err(Fault::Encoding),
            };
        }
        return Err(Fault::UnsupportedSectionIdentifier(bare(identifier.as_str())));
    }
    Err(Fault::UnknownSectionKind(first.kind))
}

/// The name of the command that a document carries: its first key, or no
/// text where it has none.
pub open spec fn spec_command_name(command: Seq<u8>) -> Seq<char> {
    match spec_first_key(command) {
        Some(name) => name,
        None => Seq::empty(),
    }
}

/// The name of the command that a document carries.
pub fn command_name(command: &Document) -> (name: String)
    ensures
        name@ == spec_command_name(command@),
{
    match command.first_key() {
        Some(name) => name,
        None => String::new(),
    }
}

/// The answer to a command of an unknown name: a document that says so.
pub open spec fn spec_not_found(name: Seq<char>) -> Result<StepView, FaultView> {
    match spec_error_document(spec_no_such_command(name)) {
        Some(doc) => Ok(StepView::Reply(doc)),
        None => Err(FaultView::Encoding),
    }
}

fn not_found(name: &str) -> (result: Result<Step, Fault>)
    ensures
        stepped_as(result, spec_not_found(name@)),
{
    match not_found_document(name) {
        Some(doc) => Ok(Step::Reply(doc)),
        None => Err(Fault::Encoding),
    }
}

/// What the command of a legacy query comes to: a query without a command
/// name, or named `isMaster` or `ismaster`, asks who the server is; any
/// other is answered as unknown.
pub open spec fn spec_run_op_query(command: Seq<u8>) -> Result<StepView, FaultView> {
    let name = spec_command_name(command);
    if name == ""@ || name == "isMaster"@ || name == "ismaster"@ {
        Ok(StepView::Identity)
    } else {
        spec_not_found(name)
    }
}

/// Decides what the command of a legacy query comes to.
pub fn run_op_query(command: &Document) -> (result: Result<Step, Fault>)
    ensures
        stepped_as(result, spec_run_op_query(command@)),
{
    let name: String = command_name(command);
    if same_text(name.as_str(), "") || same_text(name.as_str(), "isMaster") || same_text(
        name.as_str(),
        "ismaster",
    ) {
        Ok(Step::Identity)
    } else {
        not_found(name.as_str())
    }
}

/// The two keys of the cursor that the command `command` asks on, the open
/// one first, if it names the collection and the cursor id.
pub open spec fn spec_cursor_keys(command: Seq<u8>) -> Option<(u64, u64)> {
    match spec_get_str(command, "collection"@) {
        None => None,
        Some(collection) => match spec_get_i64(command, "getMore"@) {
            None => None,
            Some(id) => Some(
                (spec_cursor_key(collection, id, Phase::Open), spec_cursor_key(collection, id, Phase::Closed)),
            ),
        },
    }
}

/// What a request for the next batch comes to against a cache, and the
/// cache after it. A cursor that is cached as closed is replayed: its next
/// batch is served and the entry moves on. In every other case upstream is
/// asked.
pub open spec fn spec_get_more(cache: Map<u64, EntryView>, command: Seq<u8>) -> (
    Result<StepView, FaultView>,
    Map<u64, EntryView>,
) {
    match spec_cursor_keys(command) {
        None => (Err(FaultView::MissingArgument), cache),
        Some((open, closed)) => if cache.contains_key(closed) {
            match cache[closed] {
                EntryView::Document(_) => (Err(FaultView::CacheInvariant), cache),
                EntryView::Documents(entry) => if entry.readable() {
                    (
                        Ok(StepView::Reply(entry.current())),
                        cache.insert(closed, EntryView::Documents(entry.advance())),
                    )
                } else {
                    (Ok(StepView::Forward(Pending::Cursor { open, closed })), cache)
                },
            }
        } else {
            (Ok(StepView::Forward(Pending::Cursor { open, closed })), cache)
        },
    }
}

/// Serves the next batch of a closed cursor from the cache, or says under
/// which keys the answer from upstream is to be kept.
pub fn get_more(storage: &mut Storage, command: &Document) -> (result: Result<Step, Fault>)
    ensures
        stepped_as(result, spec_get_more(old(storage)@, command@).0),
        final(storage)@ == spec_get_more(old(storage)@, command@).1,
{
    let collection: String = match command.get_str("collection") {
        Some(name) => name,
        None => {
            return Err(Fault::MissingArgument);
        },
    };
    let id: i64 = match command.get_i64("getMore") {
        Some(id) => id,
        None => {
            return Err(Fault::MissingArgument);
        },
    };
    let open: u64 = cursor_key(collection.as_str(), id, Phase::Open);
    let closed: u64 = cursor_key(collection.as_str(), id, Phase::Closed);
    match storage.remove(closed) {
        None => {
            assert(storage@ =~= old(storage)@);
            Ok(Step::Forward(Pending::Cursor { open, closed }))
        },
        Some(InnerData::Document(doc)) => {
            storage.insert(closed, InnerData::Document(doc));
            assert(storage@ =~= old(storage)@);
            Err(Fault::CacheInvariant)
        },
        Some(InnerData::Documents(entry)) => {
            let mut entry = entry;
            let served = entry.get_document();
            storage.insert(closed, InnerData::Documents(entry));
            match served {
                Some(doc) => {
                    assert(storage@ =~= old(storage)@.insert(
                        closed,
                        EntryView::Documents(old(storage)@[closed]->Documents_0.advance()),
                    ));
                    Ok(Step::Reply(doc))
                },
                None => {
                    assert(storage@ =~= old(storage)@);
                    Ok(Step::Forward(Pending::Cursor { open, closed }))
                },
            }
        },
    }
}

/// What a command of a modern message comes to against a cache, and the
/// cache after it. The name of the command decides: a query and a request
/// for the next batch go by the cache; a name that the command table does
/// not hold is answered as unknown; every other command is handed on to
/// upstream untouched.
pub open spec fn spec_run(cache: Map<u64, EntryView>, command: Seq<u8>) -> (
    Result<StepView, FaultView>,
    Map<u64, EntryView>,
) {
    let name = spec_command_name(command);
    match spec_lookup(name) {
        Command::Find => (spec_find(cache, command), cache),
        Command::GetMore => spec_get_more(cache, command),
        Command::Unknown => (spec_not_found(name), cache),
        _ => (Ok(StepView::Forward(Pending::Passthrough)), cache),
    }
}

/// Decides what a command of a modern message comes to.
pub fn run(storage: &mut Storage, command: &Document) -> (result: Result<Step, Fault>)
    ensures
        stepped_as(result, spec_run(old(storage)@, command@).0),
        final(storage)@ == spec_run(old(storage)@, command@).1,
{
    let name: String = command_name(command);
    match lookup(name.as_str()) {
        Command::Find => Find::new().handle(storage, command),
        Command::GetMore => get_more(storage, command),
        Command::Unknown => not_found(name.as_str()),
        _ => Ok(Step::Forward(Pending::Passthrough)),
    }
}

/// An entry without batches.
pub open spec fn spec_new_entry() -> GetMoreView {
    GetMoreView { can_read: false, position: 0, documents: Seq::empty() }
}

/// What the answer `reply` from upstream comes to, and the cache after it.
/// The answer to a query is cached under its key. The answer to a request
/// for the next batch joins the batches of the open cursor; once it
/// reports the cursor id 0, the batches move to the closed key and the
/// open entry is dropped. An answer that names no cursor id where one is
/// due changes nothing and is a fault.
pub open spec fn spec_complete(cache: Map<u64, EntryView>, pending: Pending, reply: Seq<u8>) -> (
    Result<Seq<u8>, FaultView>,
    Map<u64, EntryView>,
) {
    match pending {
        Pending::Passthrough => (Ok(reply), cache),
        Pending::Query { key } => (Ok(reply), cache.insert(key, EntryView::Document(reply))),
        Pending::Cursor { open, closed } => match spec_cursor_id(reply) {
            None => (Err(FaultView::MissingCursorId), cache),
            Some(id) => {
                let prior = if cache.contains_key(open) {
                    cache[open]
                } else {
                    EntryView::Documents(spec_new_entry())
                };
                match prior {
                    EntryView::Document(_) => (Err(FaultView::CacheInvariant), cache),
                    EntryView::Documents(entry) => if id == 0 {
                        (
                            Ok(reply),
                            cache.remove(open).insert(closed, EntryView::Documents(entry.record(reply, id))),
                        )
                    } else {
                        (Ok(reply), cache.insert(open, EntryView::Documents(entry.record(reply, id))))
                    },
                }
            },
        },
    }
}

/// Takes in the answer `reply` from upstream for what was pending, and
/// hands back the document for the client.
pub fn complete(storage: &mut Storage, pending: Pending, reply: Document) -> (result: Result<Document, Fault>)
    ensures
        document_as(result, spec_complete(old(storage)@, pending, reply@).0),
        final(storage)@ == spec_complete(old(storage)@, pending, reply@).1,
{
    proof {
        use_type_invariant(&reply);
    }
    match pending {
        Pending::Passthrough => Ok(reply),
        Pending::Query { key } => {
            storage.insert(key, InnerData::Document(reply.duplicate()));
            Ok(reply)
        },
        Pending::Cursor { open, closed } => {
            let id: i64 = match reply.cursor_id() {
                Some(id) => id,
                None => {
                    return Err(Fault::MissingCursorId);
                },
            };
            let mut entry = match storage.remove(open) {
                None => {
                    assert(storage@ =~= old(storage)@);
                    GetMore::new()
                },
                Some(InnerData::Documents(entry)) => entry,
                Some(InnerData::Document(doc)) => {
                    storage.insert(open, InnerData::Document(doc));
                    assert(storage@ =~= old(storage)@);
                    return Err(Fault::CacheInvariant);
                },
            };
            entry.record(reply.duplicate(), id);
            if id == 0 {
                storage.insert(closed, InnerData::Documents(entry));
            } else {
                storage.insert(open, InnerData::Documents(entry));
                assert(storage@ =~= old(storage)@.insert(open, EntryView::Documents(entry@)));
            }
            Ok(reply)
        },
    }
}

/// The place in a frame from upstream where the document of the answer
/// starts: after the header, the flag bits and the section's kind tag.
pub const BODY_OFFSET: usize = 21;

/// The document of the answer that the frame `frame` from upstream holds.
pub open spec fn spec_reply_document(frame: Seq<u8>) -> Result<Seq<u8>, FaultView> {
    if frame.len() < BODY_OFFSET {
        Err(FaultView::MalformedReply)
    } else {
        match spec_take_document(frame.subrange(BODY_OFFSET as int, frame.len() as int)) {
            Ok((doc, rest)) => Ok(doc),
            Err(e) => Err(FaultView::MalformedReply),
        }
    }
}

/// Reads the document of the answer out of a frame from upstream.
pub fn reply_document(frame: &[u8]) -> (result: Result<Document, Fault>)
    ensures
        document_as(result, spec_reply_document(frame@)),
{
    if frame.len() < BODY_OFFSET {
        return Err(Fault::MalformedReply);
    }
    match take_document(slice_subrange(frame, BODY_OFFSET, frame.len())) {
        Ok((doc, n)) => Ok(doc),
        Err(e) => Err(Fault::MalformedReply),
    }
}

/// What the caller of [`handle`] has to do next.
#[derive(Debug)]
pub enum Exchange {
    /// Write these bytes to the client: they are the reply.
    Done(Vec<u8>),
    /// Write `request` to upstream, read one frame back, and call
    /// [`resume`] with the frame and with `pending`.
    Upstream { request: Vec<u8>, pending: Pending },
    /// Answer the client's question who the server is, through
    /// [`answer`].
    Identity,
}

/// The mathematical value of an [`Exchange`].
pub enum ExchangeView {
    Done(Seq<u8>),
    Upstream { request: Seq<u8>, pending: Pending },
    Identity,
}

impl View for Exchange {
    type V = ExchangeView;

    open spec fn view(&self) -> ExchangeView {
        match self {
            Exchange::Done(bytes) => ExchangeView::Done(bytes@),
            Exchange::Upstream { request, pending } => ExchangeView::Upstream {
                request: request@,
                pending: *pending,
            },
            Exchange::Identity => ExchangeView::Identity,
        }
    }
}

/// The bytes of the reply to the message `op` that carries `doc` under the
/// id `id`.
pub open spec fn spec_answer(op: OpCodeView, id: u32, doc: Seq<u8>) -> Result<Seq<u8>, FaultView> {
    match spec_reply_to(op, op, id, seq![doc]) {
        Some(bytes) => Ok(bytes),
        None => Err(FaultView::Unanswerable),
    }
}

/// Builds the reply to the message `op_code` that carries `doc`: a message
/// of the same kind as the request, with a header that points back at it.
pub fn answer(id: u32, op_code: &OpCode, doc: Document) -> (result: Result<Vec<u8>, Fault>)
    ensures
        match spec_answer(op_code@, id, doc@) {
            Ok(bytes) => result matches Ok(out) && out@ == bytes,
            Err(fault) => result matches Err(f) && f@ == fault,
        },
{
    let mut docs: Vec<Document> = Vec::new();
    docs.push(doc);
    assert(documents_view(docs@) =~= seq![doc@]);
    match op_code.reply(Response::new(id, op_code, docs)) {
        Ok(bytes) => Ok(bytes),
        Err(_) => Err(Fault::Unanswerable),
    }
}

/// What a message comes to against a cache, together with the command
/// document that it stands for, and the cache after it.
pub open spec fn spec_route(op: OpCodeView, cache: Map<u64, EntryView>) -> (
    Result<(StepView, Seq<u8>), FaultView>,
    Map<u64, EntryView>,
) {
    match op {
        OpCodeView::OpQuery(query) => (
            match spec_run_op_query(query.query) {
                Ok(step) => Ok((step, query.query)),
                Err(fault) => Err(fault),
            },
            cache,
        ),
        OpCodeView::OpMsg(msg) => match spec_command(msg) {
            Err(fault) => (Err(fault), cache),
            Ok(command) => (
                match spec_run(cache, command).0 {
                    Ok(step) => Ok((step, command)),
                    Err(fault) => Err(fault),
                },
                spec_run(cache, command).1,
            ),
        },
        OpCodeView::OpReply(_) => (Err(FaultView::UnknownOpCode), cache),
    }
}

/// Works out the command of a message and decides what it comes to.
pub fn route(op_code: &OpCode, storage: &mut Storage) -> (result: Result<(Step, Document), Fault>)
    ensures
        match spec_route(op_code@, old(storage)@).0 {
            Ok((step, command)) => result matches Ok(pair) && pair.0@ == step && pair.1@ == command,
            Err(fault) => result matches Err(f) && f@ == fault,
        },
        final(storage)@ == spec_route(op_code@, old(storage)@).1,
{
    match op_code {
        OpCode::OpQuery(op_query) => match run_op_query(&op_query.query) {
            Ok(step) => Ok((step, op_query.query.duplicate())),
            Err(fault) => Err(fault),
        },
        OpCode::OpMsg(message) => match handle_op_msg(message) {
            Err(fault) => Err(fault),
            Ok(command) => match run(storage, &command) {
                Ok(step) => Ok((step, command)),
                Err(fault) => Err(fault),
            },
        },
        _ => Err(Fault::UnknownOpCode),
    }
}

/// The bytes that go upstream for what is pending. A query that missed
/// the cache goes upstream as the client sent it: the request is the
/// client's frame, byte for byte. A request for the next batch of a
/// cursor, and a command that is handed on without caching, go upstream
/// as the reply-shaped copy of the message that carries the folded
/// command document under the id 0.
pub open spec fn spec_upstream_request(op: OpCodeView, frame: Seq<u8>, pending: Pending, command: Seq<u8>) -> Result<
    Seq<u8>,
    FaultView,
> {
    match pending {
        Pending::Query { key } => Ok(frame),
        Pending::Cursor { open, closed } => spec_answer(op, 0, command),
        Pending::Passthrough => spec_answer(op, 0, command),
    }
}

/// What the caller has to do for the message `op` that came in the frame
/// `frame`, and the cache after the decision. A document from the cache,
/// or one that says that the command is unknown, is wrapped into the
/// reply. Where upstream has to be asked, the request is what
/// `spec_upstream_request` says.
pub open spec fn spec_handle(id: u32, op: OpCodeView, frame: Seq<u8>, cache: Map<u64, EntryView>) -> (
    Result<ExchangeView, FaultView>,
    Map<u64, EntryView>,
) {
    (
        match spec_route(op, cache).0 {
            Err(fault) => Err(fault),
            Ok((StepView::Reply(doc), _)) => match spec_answer(op, id, doc) {
                Ok(bytes) => Ok(ExchangeView::Done(bytes)),
                Err(fault) => Err(fault),
            },
            Ok((StepView::Forward(pending), command)) => match spec_upstream_request(
                op,
                frame,
                pending,
                command,
            ) {
                Ok(bytes) => Ok(ExchangeView::Upstream { request: bytes, pending: pending }),
                Err(fault) => Err(fault),
            },
            Ok((StepView::Identity, _)) => Ok(ExchangeView::Identity),
        },
        spec_route(op, cache).1,
    )
}

/// Builds the bytes that go upstream for what is pending.
pub fn upstream_request(op_code: &OpCode, frame: &[u8], pending: Pending, command: Document) -> (result:
    Result<Vec<u8>, Fault>)
    ensures
        match spec_upstream_request(op_code@, frame@, pending, command@) {
            Ok(bytes) => result matches Ok(out) && out@ == bytes,
            Err(fault) => result matches Err(f) && f@ == fault,
        },
{
    match pending {
        Pending::Query { key } => Ok(vstd::slice::slice_to_vec(frame)),
        Pending::Cursor { open, closed } => answer(0, op_code, command),
        Pending::Passthrough => answer(0, op_code, command),
    }
}

/// Handles one decoded message, which came in the frame `frame`, up to
/// the point where the reply is ready or upstream has to be asked. The
/// error carries the text of the fault.
pub fn handle(id: u32, op_code: &OpCode, frame: &[u8], storage: &mut Storage) -> (result: Result<
    Exchange,
    CommandExecutionError,
>)
    ensures
        match spec_handle(id, op_code@, frame@, old(storage)@).0 {
            Ok(exchange) => result matches Ok(e) && e@ == exchange,
            Err(fault) => result matches Err(e) && e.message@ == fault.spec_message(),
        },
        final(storage)@ == spec_handle(id, op_code@, frame@, old(storage)@).1,
{
    match route(op_code, storage) {
        Err(fault) => Err(fault.into_error()),
        Ok((Step::Reply(doc), _)) => match answer(id, op_code, doc) {
            Ok(bytes) => Ok(Exchange::Done(bytes)),
            Err(fault) => Err(fault.into_error()),
        },
        Ok((Step::Forward(pending), command)) => match upstream_request(op_code, frame, pending, command) {
            Ok(bytes) => Ok(Exchange::Upstream { request: bytes, pending }),
            Err(fault) => Err(fault.into_error()),
        },
        Ok((Step::Identity, _)) => Ok(Exchange::Identity),
    }
}

/// What came of one frame.
#[derive(Debug)]
pub enum Served {
    /// The frame did not decode: this is written to the client.
    Refused(Refusal),
    /// The frame decoded, and its command failed with this error.
    Failed { op_code: OpCode, error: CommandExecutionError },
    /// The frame decoded, and this is what the caller has to do next.
    Handled { op_code: OpCode, exchange: Exchange },
}

/// Decodes one frame from a client and handles the message in it. The
/// message that is handled is the one that the frame decodes to, so that a
/// query that misses the cache goes upstream as this very frame. A frame
/// that does not decode changes nothing in the cache.
pub fn serve(id: u32, frame: &[u8], storage: &mut Storage) -> (served: Served)
    ensures
        match crate::wire::spec_parse(frame@) {
            Err(e) => served matches Served::Refused(refusal) && refusal@ == spec_refuse(id, frame@, e)
                && final(storage)@ == old(storage)@,
            Ok(op) => final(storage)@ == spec_handle(id, op, frame@, old(storage)@).1 && match spec_handle(
                id,
                op,
                frame@,
                old(storage)@,
            ).0 {
                Ok(expected) => served matches Served::Handled { op_code, exchange } && op_code@ == op
                    && exchange@ == expected,
                Err(fault) => served matches Served::Failed { op_code, error } && op_code@ == op
                    && error.message@ == fault.spec_message(),
            },
        },
{
    match crate::wire::parse(frame) {
        Err(e) => Served::Refused(refuse(id, frame, e)),
        Ok(op_code) => match handle(id, &op_code, frame, storage) {
            Ok(exchange) => Served::Handled { op_code, exchange },
            Err(error) => Served::Failed { op_code, error },
        },
    }
}

/// The command that asks a node who it is: `ismaster` at 1, aimed at the
/// database `admin`.
pub open spec fn spec_identity_command() -> Option<Seq<u8>> {
    spec_put(
        spec_put(spec_new_document(), "ismaster"@, ValueView::Int32(1)),
        "$db"@,
        ValueView::Text("admin"@),
    )
}

/// The message that carries `doc` as a request of its own: one section of
/// kind 0, no flag bits, the ids at 0, and a length field that counts the
/// bytes of the frame.
pub open spec fn spec_request(doc: Seq<u8>) -> MsgView {
    MsgView {
        header: MsgHeader {
            msg_length: (21 + doc.len()) as u32,
            request_id: 0,
            response_to: 0,
            op_code: OP_MSG_CODE,
        },
        flags: 0,
        sections: seq![SectionView { kind: 0, identifier: None, documents: seq![doc] }],
        checksum: None,
    }
}

/// Builds the frame that asks a node who it is.
pub fn identity_request() -> (frame: Option<Vec<u8>>)
    ensures
        match spec_identity_command() {
            Some(doc) => frame matches Some(bytes) && bytes@ == spec_request(doc).spec_bytes() && bytes.len()
                == 21 + doc.len(),
            None => frame is None,
        },
{
    let doc = put(Document::new(), "ismaster", &Value::Int32(1));
    let doc = match put(doc, "$db", &Value::Text("admin".to_owned())) {
        Some(doc) => doc,
        None => {
            return None;
        },
    };
    let blank = MsgHeader { msg_length: 0, request_id: 0, response_to: 0, op_code: OP_MSG_CODE };
    let msg = OP_MSG::build_body_response(&blank, 0, 0, None, &doc);
    assert(msg@ == spec_request(doc@));
    Some(msg.to_vec())
}

/// The reply for the client once upstream answered with the frame
/// `frame`, and the cache after the answer was taken in.
pub open spec fn spec_resume(
    id: u32,
    op: OpCodeView,
    cache: Map<u64, EntryView>,
    pending: Pending,
    frame: Seq<u8>,
) -> (Result<Seq<u8>, FaultView>, Map<u64, EntryView>) {
    match spec_reply_document(frame) {
        Err(fault) => (Err(fault), cache),
        Ok(reply) => (
            match spec_complete(cache, pending, reply).0 {
                Err(fault) => Err(fault),
                Ok(doc) => spec_answer(op, id, doc),
            },
            spec_complete(cache, pending, reply).1,
        ),
    }
}

/// Goes on with a message for which upstream was asked: reads the
/// document out of the frame that came back, takes it into the cache as
/// `pending` says, and builds the reply for the client.
pub fn resume(id: u32, op_code: &OpCode, storage: &mut Storage, pending: Pending, frame: &[u8]) -> (result:
    Result<Vec<u8>, CommandExecutionError>)
    ensures
        match spec_resume(id, op_code@, old(storage)@, pending, frame@).0 {
            Ok(bytes) => result matches Ok(out) && out@ == bytes,
            Err(fault) => result matches Err(e) && e.message@ == fault.spec_message(),
        },
        final(storage)@ == spec_resume(id, op_code@, old(storage)@, pending, frame@).1,
{
    let reply = match reply_document(frame) {
        Ok(reply) => reply,
        Err(fault) => {
            return Err(fault.into_error());
        },
    };
    match complete(storage, pending, reply) {
        Err(fault) => Err(fault.into_error()),
        Ok(doc) => match answer(id, op_code, doc) {
            Ok(bytes) => Ok(bytes),
            Err(fault) => Err(fault.into_error()),
        },
    }
}

/// The bytes of the reply that tells the client of `message`; none where
/// the document cannot be built or the message cannot be answered.
pub open spec fn spec_error_reply(id: u32, op: OpCodeView, message: Seq<char>) -> Option<Seq<u8>> {
    match spec_error_document(message) {
        None => None,
        Some(doc) => spec_reply_to(op, op, id, seq![doc]),
    }
}

/// Builds the reply that tells the client of an error.
pub fn error_reply(id: u32, op_code: &OpCode, error: &CommandExecutionError) -> (result: Option<Vec<u8>>)
    ensures
        match spec_error_reply(id, op_code@, error.message@) {
            Some(bytes) => result matches Some(out) && out@ == bytes,
            None => result is None,
        },
{
    let doc = match error_document(error.message.as_str()) {
        Some(doc) => doc,
        None => {
            return None;
        },
    };
    match answer(id, op_code, doc) {
        Ok(bytes) => Some(bytes),
        Err(_) => None,
    }
}

/// The sixteen zero bytes that are written before a connection is given
/// up on a frame that cannot be decoded.
pub fn sentinel() -> (bytes: Vec<u8>)
    ensures
        bytes@ == Seq::new(16, |i: int| 0u8),
{
    let mut bytes: Vec<u8> = Vec::new();
    let mut i: usize = 0;
    while i < 16
        invariant
            i <= 16,
            bytes@ == Seq::new(i as nat, |j: int| 0u8),
        decreases 16 - i,
    {
        bytes.push(0u8);
        i = i + 1;
        assert(bytes@ =~= Seq::new(i as nat, |j: int| 0u8));
    }
    bytes
}

/// What is written to a client whose frame could not be decoded.
#[derive(Debug)]
pub enum Refusal {
    /// Write these bytes, a reply that tells of the error, and go on.
    Reply(Vec<u8>),
    /// Write these bytes, the sentinel, and close the connection.
    Close(Vec<u8>),
}

/// The mathematical value of a [`Refusal`].
pub enum RefusalView {
    Reply(Seq<u8>),
    Close(Seq<u8>),
}

impl View for Refusal {
    type V = RefusalView;

    open spec fn view(&self) -> RefusalView {
        match self {
            Refusal::Reply(bytes) => RefusalView::Reply(bytes@),
            Refusal::Close(bytes) => RefusalView::Close(bytes@),
        }
    }
}

/// What is written to the client that sent the frame `buffer`, which
/// failed to decode with `error`. A frame that is cut short, or too short
/// for a header, ends the connection after the sentinel. For any other
/// error the header names the request, and the client is told of the
/// error in a reply of the kind of its request: a legacy reply to a legacy
/// query, a modern message else.
pub open spec fn spec_refuse(id: u32, buffer: Seq<u8>, error: WireError) -> RefusalView {
    if error == WireError::Truncated || buffer.len() < 16 {
        RefusalView::Close(Seq::new(16, |i: int| 0u8))
    } else {
        match spec_error_document(error.spec_message()) {
            None => RefusalView::Close(Seq::new(16, |i: int| 0u8)),
            Some(doc) => {
                let prior = spec_parse_header(buffer);
                if prior.op_code == OP_QUERY_CODE {
                    RefusalView::Reply(spec_query_response(prior, id, doc).spec_bytes())
                } else {
                    RefusalView::Reply(
                        spec_body_response(
                            MsgHeader { op_code: OP_MSG_CODE, ..prior },
                            id,
                            0,
                            None,
                            doc,
                        ).spec_bytes(),
                    )
                }
            },
        }
    }
}

/// Decides what is written to a client whose frame failed to decode.
pub fn refuse(id: u32, buffer: &[u8], error: WireError) -> (refusal: Refusal)
    ensures
        refusal@ == spec_refuse(id, buffer@, error),
{
    if error == WireError::Truncated || buffer.len() < 16 {
        return Refusal::Close(sentinel());
    }
    let doc = match error_document(error.message().as_str()) {
        Some(doc) => doc,
        None => {
            return Refusal::Close(sentinel());
        },
    };
    let prior = MsgHeader::parse(buffer);
    if prior.op_code == OP_QUERY_CODE {
        Refusal::Reply(query_response(&prior, id, &doc).to_vec())
    } else {
        let modern = MsgHeader { op_code: OP_MSG_CODE, ..prior };
        Refusal::Reply(OP_MSG::build_body_response(&modern, id, 0, None, &doc).to_vec())
    }
}

/// Header linkage: the reply to a message names the message in its
/// header. Of the bytes of a reply, the header's `response_to` is the
/// request's id, its `request_id` is the id of the answer, and its length
/// field counts the bytes of the reply.
pub proof fn lemma_answer_links_request(op: OpCodeView, id: u32, doc: Seq<u8>)
    requires
        valid_document(doc),
        spec_answer(op, id, doc) is Ok,
    ensures
        ({
            let bytes = spec_answer(op, id, doc)->Ok_0;
            let header = spec_parse_header(bytes);
            &&& header.request_id == id
            &&& header.msg_length == bytes.len()
            &&& op matches OpCodeView::OpMsg(msg) ==> header.response_to == msg.header.request_id
            &&& op matches OpCodeView::OpQuery(query) ==> header.response_to == query.header.request_id
        }),
{
    vstd::bytes::lemma_auto_spec_u32_to_from_le_bytes();
    vstd::bytes::lemma_auto_spec_u64_to_from_le_bytes();
    let bytes = spec_answer(op, id, doc)->Ok_0;
    match op {
        OpCodeView::OpMsg(msg) => {
            let reply = spec_body_response(msg.header, id, msg.flags, msg.checksum, doc);
            crate::wire::op_msg::lemma_body_response_length(msg.header, id, msg.flags, msg.checksum, doc);
            let rest = vstd::bytes::spec_u32_to_le_bytes(reply.flags) + reply.body_bytes()
                + reply.checksum_bytes();
            crate::wire::lemma_header_round_trip(reply.header, rest);
            assert(bytes =~= reply.header.spec_bytes() + rest);
        },
        OpCodeView::OpQuery(query) => {
            let reply = spec_query_response(query.header, id, doc);
            let rest = vstd::bytes::spec_u32_to_le_bytes(reply.flags) + vstd::bytes::spec_u64_to_le_bytes(
                reply.cursor_id,
            ) + vstd::bytes::spec_u32_to_le_bytes(reply.starting_from) + vstd::bytes::spec_u32_to_le_bytes(
                reply.number_returned,
            ) + doc;
            crate::wire::lemma_header_round_trip(reply.header, rest);
            assert(bytes =~= reply.header.spec_bytes() + rest);
        },
        OpCodeView::OpReply(_) => {},
    }
}

/// The cache stays well formed: whatever a command or an answer from
/// upstream does to a well-formed cache leaves it well formed.
pub proof fn lemma_cache_stays_well_formed(
    cache: Map<u64, EntryView>,
    command: Seq<u8>,
    pending: Pending,
    reply: Seq<u8>,
)
    requires
        spec_cache_wf(cache),
    ensures
        spec_cache_wf(spec_run(cache, command).1),
        spec_cache_wf(spec_complete(cache, pending, reply).1),
{
    assert(spec_new_entry().wf());
}

/// A query that misses the cache goes upstream as it came: whenever a
/// message is handled by asking upstream for the answer to a query, the
/// request is the frame of the client, byte for byte.
pub proof fn lemma_query_goes_upstream_as_it_came(
    id: u32,
    op: OpCodeView,
    frame: Seq<u8>,
    cache: Map<u64, EntryView>,
)
    requires
        spec_handle(id, op, frame, cache).0 is Ok,
        spec_handle(id, op, frame, cache).0->Ok_0 is Upstream,
        spec_handle(id, op, frame, cache).0->Ok_0->pending is Query,
    ensures
        spec_handle(id, op, frame, cache).0->Ok_0->request == frame,
{
}

/// A query that was answered once is answered from the cache from then
/// on. If a query misses the cache and the answer from upstream is taken
/// in, the answer goes to the client as it came; the same query then gets
/// the same document from the cache, upstream is not asked, and the cache
/// stays as it is.
pub proof fn lemma_query_answered_from_cache(cache: Map<u64, EntryView>, command: Seq<u8>, reply: Seq<u8>)
    requires
        spec_lookup(spec_command_name(command)) == Command::Find,
        spec_run(cache, command).0 is Ok,
        spec_run(cache, command).0->Ok_0 is Forward,
    ensures
        ({
            let pending = spec_run(cache, command).0->Ok_0->Forward_0;
            let filled = spec_complete(spec_run(cache, command).1, pending, reply);
            &&& pending is Query
            &&& filled.0 == Ok::<Seq<u8>, FaultView>(reply)
            &&& spec_run(filled.1, command) == (Ok::<StepView, FaultView>(StepView::Reply(reply)), filled.1)
        }),
{
}

/// A query that hits the cache leaves the cache as it is, so that it is
/// answered alike however often it is asked.
pub proof fn lemma_query_hit_repeats(cache: Map<u64, EntryView>, command: Seq<u8>)
    requires
        spec_lookup(spec_command_name(command)) == Command::Find,
    ensures
        spec_run(cache, command).1 == cache,
        spec_run(spec_run(cache, command).1, command) == spec_run(cache, command),
{
}

/// Replay of a closed cursor: where the cache holds the two batches
/// `first` and `second` under the closed key of a cursor, three requests
/// for its next batch in a row are answered with `first`, `second` and
/// `first` again, each from the cache.
pub proof fn lemma_closed_cursor_replays(
    cache: Map<u64, EntryView>,
    command: Seq<u8>,
    first: Seq<u8>,
    second: Seq<u8>,
)
    requires
        spec_cursor_keys(command) is Some,
        cache.contains_key(spec_cursor_keys(command)->Some_0.1),
        cache[spec_cursor_keys(command)->Some_0.1] == EntryView::Documents(
            GetMoreView { can_read: true, position: 0, documents: seq![first, second] },
        ),
    ensures
        ({
            let one = spec_get_more(cache, command);
            let two = spec_get_more(one.1, command);
            let three = spec_get_more(two.1, command);
            &&& one.0 == Ok::<StepView, FaultView>(StepView::Reply(first))
            &&& two.0 == Ok::<StepView, FaultView>(StepView::Reply(second))
            &&& three.0 == Ok::<StepView, FaultView>(StepView::Reply(first))
        }),
{
}

} // verus!
