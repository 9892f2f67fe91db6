//! The cache: a table from keys to cached results, and the entry that
//! holds the batches of a cursor.
use vstd::prelude::*;
use std::collections::HashMap;

use crate::document::{Document, spec_cursor_id};
use crate::wire::op_msg::documents_view;

verus! {

/// The batches that a cursor has returned so far, the place of the batch
/// that is served next, and whether upstream has reported the end.
#[derive(Debug)]
pub struct GetMore {
    can_read: bool,
    position: usize,
    documents: Vec<Document>,
}

/// The mathematical value of a [`GetMore`].
pub struct GetMoreView {
    pub can_read: bool,
    pub position: nat,
    pub documents: Seq<Seq<u8>>,
}

impl GetMoreView {
    /// What holds of every entry: the place is within the batches, and an
    /// entry that can be read has a batch.
    pub open spec fn wf(self) -> bool {
        &&& self.position < self.documents.len() || (self.position == 0 && self.documents.len() == 0)
        &&& self.can_read ==> self.documents.len() >= 1
    }

    /// The entry after upstream returned `doc`, in which it reported the
    /// cursor id `cursor_id`: the batch is kept unless the end was reported
    /// before, and the id 0 reports the end.
    pub open spec fn record(self, doc: Seq<u8>, cursor_id: i64) -> GetMoreView {
        GetMoreView {
            can_read: self.can_read || cursor_id == 0,
            position: self.position,
            documents: if self.can_read {
                self.documents
            } else {
                self.documents.push(doc)
            },
        }
    }

    /// Whether a batch can be served from the entry.
    pub open spec fn readable(self) -> bool {
        self.can_read && self.position < self.documents.len()
    }

    /// The batch that is served next.
    pub open spec fn current(self) -> Seq<u8>
        recommends
            self.readable(),
    {
        self.documents[self.position as int]
    }

    /// The entry after a batch was served: the place moves on, and from
    /// the last batch back to the first.
    pub open spec fn advance(self) -> GetMoreView {
        GetMoreView {
            position: if self.position + 1 == self.documents.len() {
                0
            } else {
                self.position + 1
            },
            ..self
        }
    }

    /// The entry after `count` batches were served.
    pub open spec fn advance_by(self, count: nat) -> GetMoreView
        decreases count,
    {
        if count == 0 {
            self
        } else {
            self.advance().advance_by((count - 1) as nat)
        }
    }

    /// The batches in the order in which they are served from here on, up
    /// to the first repeat.
    pub open spec fn queue(self) -> Seq<Seq<u8>> {
        self.documents.subrange(self.position as int, self.documents.len() as int)
            + self.documents.subrange(0, self.position as int)
    }
}

impl View for GetMore {
    type V = GetMoreView;

    closed spec fn view(&self) -> GetMoreView {
        GetMoreView {
            can_read: self.can_read,
            position: self.position as nat,
            documents: documents_view(self.documents@),
        }
    }
}

impl GetMore {
    /// Whether the entry is one that `new`, `record` and `get_document`
    /// can have made.
    pub open spec fn wf(&self) -> bool {
        self@.wf()
    }

    /// An entry without batches.
    pub fn new() -> (entry: GetMore)
        ensures
            entry@ == (GetMoreView { can_read: false, position: 0, documents: Seq::empty() }),
            entry.wf(),
    {
        let entry = GetMore { can_read: false, position: 0, documents: Vec::new() };
        assert(entry@.documents =~= Seq::<Seq<u8>>::empty());
        entry
    }

    /// Takes in the batch `doc` in which upstream reported the cursor id
    /// `cursor_id`.
    pub fn record(&mut self, doc: Document, cursor_id: i64)
        ensures
            final(self)@ == old(self)@.record(doc@, cursor_id),
            old(self).wf() ==> final(self).wf(),
    {
        let ghost before = self@;
        if !self.can_read {
            assert(documents_view(self.documents@.push(doc)) =~= before.documents.push(doc@));
            self.documents.push(doc);
        }
        if cursor_id == 0 {
            self.can_read = true;
        }
    }

    /// Takes in the batch `doc` as `record` does, with the cursor id that
    /// the batch itself names under `cursor.id`. A batch that names none is
    /// not taken in.
    pub fn add_document(&mut self, doc: Document) -> (taken: bool)
        ensures
            match spec_cursor_id(doc@) {
                Some(id) => taken && final(self)@ == old(self)@.record(doc@, id),
                None => !taken && final(self)@ == old(self)@,
            },
            old(self).wf() ==> final(self).wf(),
    {
        match doc.cursor_id() {
            Some(id) => {
                self.record(doc, id);
                true
            },
            None => false,
        }
    }

    /// Whether upstream has reported the end of the cursor.
    pub fn is_closed(&self) -> (closed: bool)
        ensures
            closed == self@.can_read,
    {
        self.can_read
    }

    /// Serves the next batch if the entry can be read, and moves on to
    /// the batch after it; the first follows the last.
    pub fn get_document(&mut self) -> (served: Option<Document>)
        ensures
            old(self).wf() ==> final(self).wf(),
            match served {
                Some(doc) => old(self)@.readable() && doc@ == old(self)@.current() && final(self)@ == old(
                    self,
                )@.advance() && doc.wf(),
                None => !old(self)@.readable() && final(self)@ == old(self)@,
            },
    {
        if self.can_read {
            if self.position < self.documents.len() {
                let doc = self.documents[self.position].duplicate();
                self.position = self.position + 1;
                if self.position == self.documents.len() {
                    self.position = 0;
                }
                return Some(doc);
            }
        }
        None
    }
}

/// What the cache holds under a key: the result of a one-shot query, or
/// the batches of a cursor.
#[derive(Debug)]
pub enum InnerData {
    Document(Document),
    Documents(GetMore),
}

/// The mathematical value of an [`InnerData`].
pub enum EntryView {
    Document(Seq<u8>),
    Documents(GetMoreView),
}

impl View for InnerData {
    type V = EntryView;

    open spec fn view(&self) -> EntryView {
        match self {
            InnerData::Document(d) => EntryView::Document(d@),
            InnerData::Documents(g) => EntryView::Documents(g@),
        }
    }
}

/// The cache table. Entries stay until they are replaced or taken out;
/// nothing expires.
pub struct Storage {
    table: HashMap<u64, InnerData>,
}

impl View for Storage {
    type V = Map<u64, EntryView>;

    closed spec fn view(&self) -> Map<u64, EntryView> {
        self.table@.map_values(|d: InnerData| d@)
    }
}

/// Whether the entries of a cache are ones that the cache's own
/// operations can have made.
pub open spec fn spec_cache_wf(cache: Map<u64, EntryView>) -> bool {
    forall|key: u64| #[trigger] cache.contains_key(key) ==> cache[key].wf()
}

impl EntryView {
    /// Whether the entry is well formed; an entry for batches is well
    /// formed if the batches are.
    pub open spec fn wf(self) -> bool {
        match self {
            EntryView::Document(_) => true,
            EntryView::Documents(entry) => entry.wf(),
        }
    }
}

impl Storage {
    /// Whether every entry is well formed.
    pub open spec fn wf(&self) -> bool {
        spec_cache_wf(self@)
    }

    /// An empty cache.
    pub fn new() -> (storage: Storage)
        ensures
            storage@ == Map::<u64, EntryView>::empty(),
            storage.wf(),
    {
        let storage = Storage { table: HashMap::new() };
        assert(storage@ =~= Map::<u64, EntryView>::empty());
        storage
    }

    /// The entry under `key`.
    pub fn get(&self, key: u64) -> (entry: Option<&InnerData>)
        ensures
            match entry {
                Some(data) => self@.contains_key(key) && self@[key] == data@,
                None => !self@.contains_key(key),
            },
            self.wf() && entry is Some ==> entry->Some_0@.wf(),
    {
        let entry = self.table.get(&key);
        proof {
            if entry is Some {
                assert(self@.contains_key(key));
            }
        }
        entry
    }

    /// A copy of the document cached under `key`, if the entry is one of a
    /// one-shot query.
    pub fn find(&self, key: u64) -> (found: Option<Document>)
        ensures
            match found {
                Some(doc) => self@.contains_key(key) && self@[key] == EntryView::Document(doc@) && doc.wf(),
                None => !(self@.contains_key(key) && self@[key] is Document),
            },
    {
        match self.table.get(&key) {
            Some(InnerData::Document(doc)) => Some(doc.duplicate()),
            _ => None,
        }
    }

    /// Puts `data` under `key`, in place of what was there.
    pub fn insert(&mut self, key: u64, data: InnerData)
        ensures
            final(self)@ == old(self)@.insert(key, data@),
            old(self).wf() && data@.wf() ==> final(self).wf(),
    {
        self.table.insert(key, data);
        assert(self@ =~= old(self)@.insert(key, data@));
    }

    /// Takes the entry under `key` out of the cache.
    pub fn remove(&mut self, key: u64) -> (entry: Option<InnerData>)
        ensures
            final(self)@ == old(self)@.remove(key),
            match entry {
                Some(data) => old(self)@.contains_key(key) && old(self)@[key] == data@,
                None => !old(self)@.contains_key(key),
            },
            old(self).wf() ==> final(self).wf(),
            old(self).wf() && entry is Some ==> entry->Some_0@.wf(),
    {
        let entry = self.table.remove(&key);
        assert(self@ =~= old(self)@.remove(key));
        entry
    }
}

/// Serving a batch moves the head of the queue to its tail.
pub proof fn lemma_advance_rotates(entry: GetMoreView)
    requires
        entry.wf(),
        entry.readable(),
    ensures
        entry.queue()[0] == entry.current(),
        entry.advance().queue() == entry.queue().drop_first().push(entry.current()),
        entry.advance().wf(),
        entry.advance().readable(),
{
    assert(entry.advance().queue() =~= entry.queue().drop_first().push(entry.current()));
}

/// Round robin: from an entry that can be read, the batch served after
/// `count` others is the one `count` places on, counted around the end.
pub proof fn lemma_round_robin(entry: GetMoreView, count: nat)
    requires
        entry.wf(),
        entry.readable(),
    ensures
        entry.advance_by(count).readable(),
        entry.advance_by(count).wf(),
        entry.advance_by(count).documents == entry.documents,
        entry.advance_by(count).current() == entry.documents[(entry.position + count) as int
            % entry.documents.len() as int],
    decreases count,
{
    let n = entry.documents.len() as int;
    let p = entry.position as int;
    let c = count as int;
    if count == 0 {
        vstd::arithmetic::div_mod::lemma_small_mod(entry.position, entry.documents.len());
    } else {
        let next = entry.advance();
        lemma_round_robin(next, (count - 1) as nat);
        if p + 1 == n {
            vstd::arithmetic::div_mod::lemma_mod_add_multiples_vanish(c - 1, n);
            assert(p + c == n + (c - 1));
        } else {
            assert(next.position + (c - 1) == p + c);
        }
    }
}

/// Of two batches that a closed cursor holds, three calls in a row serve
/// the first, the second, and the first again.
pub proof fn lemma_replay_of_two(first: Seq<u8>, second: Seq<u8>)
    ensures
        ({
            let entry = GetMoreView { can_read: true, position: 0, documents: seq![first, second] };
            &&& entry.current() == first
            &&& entry.advance().current() == second
            &&& entry.advance().advance().current() == first
        }),
{
}

} // verus!
