//! How deep the documents inside an encoded document nest.
//!
//! A document can hold documents, which can hold documents in turn. The
//! scan of this module walks the elements of a document from front to
//! back, by the sizes that the encoding gives them, and keeps count of the
//! documents that are open. It is run on bytes before they are handed on
//! to be decoded, so that nothing nested deeper than [`MAX_NESTING`] is
//! ever decoded.
use vstd::prelude::*;

use crate::wire::endian::{read_i32, spec_i32_from_le_bytes};
use crate::wire::util::{find_zero_from, lemma_found_zero, spec_find_zero};

verus! {

/// The greatest number of documents that may be open at once, the
/// outermost among them.
pub const MAX_NESTING: usize = 100;

/// What an element does to the documents that are open.
#[derive(Debug, Clone, Copy, PartialEq, Eq)]
pub enum Move {
    /// A value that holds no document: nothing changes.
    Stay,
    /// The zero byte that ends the innermost document.
    Close,
    /// A value that holds a document, which ends at this place.
    Open(usize),
}

/// The mathematical value of a [`Move`].
pub enum MoveView {
    Stay,
    Close,
    Open(int),
}

impl View for Move {
    type V = MoveView;

    open spec fn view(&self) -> MoveView {
        match self {
            Move::Stay => MoveView::Stay,
            Move::Close => MoveView::Close,
            Move::Open(end) => MoveView::Open(*end as int),
        }
    }
}

/// The signed little-endian length that stands at `at`.
pub open spec fn spec_length_at(bytes: Seq<u8>, at: int) -> int {
    spec_i32_from_le_bytes(bytes.subrange(at, at + 4))
}

/// The size of a value whose type fixes it: doubles, dates, timestamps and
/// 64-bit integers take 8 bytes, 32-bit integers 4, booleans 1, object ids
/// 12, decimals 16; null, undefined and the two end keys take none.
pub open spec fn spec_fixed_size(tag: u8) -> Option<int> {
    if tag == 0x01 || tag == 0x09 || tag == 0x11 || tag == 0x12 {
        Some(8)
    } else if tag == 0x10 {
        Some(4)
    } else if tag == 0x08 {
        Some(1)
    } else if tag == 0x07 {
        Some(12)
    } else if tag == 0x13 {
        Some(16)
    } else if tag == 0x0a || tag == 0x06 || tag == 0xff || tag == 0x7f {
        Some(0)
    } else {
        None
    }
}

/// The place after the text that starts at `at` with its length: four
/// bytes of length, then that many bytes, at least one. There is none
/// where the text does not fit before `end`.
pub open spec fn spec_text_end(bytes: Seq<u8>, at: int, end: int) -> Option<int> {
    if at + 4 > end {
        None
    } else if spec_length_at(bytes, at) < 1 || at + 4 + spec_length_at(bytes, at) > end {
        None
    } else {
        Some(at + 4 + spec_length_at(bytes, at))
    }
}

/// What the value of type `tag` that starts at `at` comes to, in a
/// document that ends at `end` while `depth` documents are open: the place
/// after it, or the place of the first element inside it where it holds a
/// document. There is none where the value does not fit, the type is
/// unknown, or one more document would be one too many.
pub open spec fn spec_value(bytes: Seq<u8>, tag: u8, at: int, end: int, depth: int) -> Option<(int, MoveView)> {
    if spec_fixed_size(tag) is Some {
        if at + spec_fixed_size(tag)->Some_0 <= end {
            Some((at + spec_fixed_size(tag)->Some_0, MoveView::Stay))
        } else {
            None
        }
    } else if tag == 0x02 || tag == 0x0d || tag == 0x0e {
        match spec_text_end(bytes, at, end) {
            Some(next) => Some((next, MoveView::Stay)),
            None => None,
        }
    } else if tag == 0x0c {
        match spec_text_end(bytes, at, end) {
            Some(next) => if next + 12 <= end {
                Some((next + 12, MoveView::Stay))
            } else {
                None
            },
            None => None,
        }
    } else if tag == 0x05 {
        if at + 4 > end {
            None
        } else if spec_length_at(bytes, at) < 0 || at + 5 + spec_length_at(bytes, at) > end {
            None
        } else {
            Some((at + 5 + spec_length_at(bytes, at), MoveView::Stay))
        }
    } else if tag == 0x0b {
        let first = spec_find_zero(bytes, at);
        if first >= end {
            None
        } else {
            let second = spec_find_zero(bytes, first + 1);
            if second >= end {
                None
            } else {
                Some((second + 1, MoveView::Stay))
            }
        }
    } else if tag == 0x03 || tag == 0x04 {
        if at + 5 > end {
            None
        } else if spec_length_at(bytes, at) < 5 || at + spec_length_at(bytes, at) > end {
            None
        } else if depth >= MAX_NESTING {
            None
        } else {
            Some((at + 4, MoveView::Open(at + spec_length_at(bytes, at))))
        }
    } else if tag == 0x0f {
        if at + 14 > end {
            None
        } else {
            let total = spec_length_at(bytes, at);
            let text = spec_length_at(bytes, at + 4);
            if total < 14 || at + total > end {
                None
            } else if text < 1 || 8 + text + 5 > total {
                None
            } else if spec_length_at(bytes, at + 8 + text) != total - 8 - text {
                None
            } else if depth >= MAX_NESTING {
                None
            } else {
                Some((at + 8 + text + 4, MoveView::Open(at + total)))
            }
        }
    } else {
        None
    }
}

/// What the element at `at` comes to, in a document that ends at `end`
/// while `depth` documents are open. The last byte of a document is the
/// zero that closes it; before it an element is a type byte, a name up to
/// and with its zero byte, and a value.
pub open spec fn spec_step(bytes: Seq<u8>, at: int, end: int, depth: int) -> Option<(int, MoveView)> {
    if at >= end {
        None
    } else if at == end - 1 {
        if bytes[at] == 0 {
            Some((at + 1, MoveView::Close))
        } else {
            None
        }
    } else {
        let zero = spec_find_zero(bytes, at + 1);
        if zero >= end {
            None
        } else {
            spec_value(bytes, bytes[at], zero + 1, end, depth)
        }
    }
}

/// The open documents after a move, each by the place where it ends, the
/// innermost last.
pub open spec fn spec_apply(open: Seq<int>, step: MoveView) -> Seq<int> {
    match step {
        MoveView::Stay => open,
        MoveView::Close => open.drop_last(),
        MoveView::Open(end) => open.push(end),
    }
}

/// Whether the elements from `at` on close all the documents of `open`
/// exactly at the end of `bytes`.
pub open spec fn spec_scan(bytes: Seq<u8>, at: int, open: Seq<int>) -> bool
    decreases bytes.len() - at,
{
    if open.len() == 0 {
        at == bytes.len()
    } else {
        match spec_step(bytes, at, open.last(), open.len() as int) {
            None => false,
            Some((next, step)) => if at < next <= bytes.len() {
                spec_scan(bytes, next, spec_apply(open, step))
            } else {
                false
            },
        }
    }
}

/// Whether `bytes` are laid out as one document whose documents nest no
/// deeper than [`MAX_NESTING`]: they start with their own length, every
/// element has the size that its type gives it, and every document inside
/// ends where its length says.
pub open spec fn spec_nesting_ok(bytes: Seq<u8>) -> bool {
    &&& 5 <= bytes.len()
    &&& spec_length_at(bytes, 0) == bytes.len()
    &&& spec_scan(bytes, 4, seq![bytes.len() as int])
}

/// The places of `open` as numbers without bound.
pub open spec fn spec_ends(open: Seq<usize>) -> Seq<int> {
    open.map_values(|end: usize| end as int)
}

/// An element moves the scan on, and stays within the document it is in.
pub proof fn lemma_step_advances(bytes: Seq<u8>, at: int, end: int, depth: int)
    requires
        0 <= at,
        end <= bytes.len(),
        spec_step(bytes, at, end, depth) is Some,
    ensures
        at < spec_step(bytes, at, end, depth)->Some_0.0 <= end,
        spec_step(bytes, at, end, depth)->Some_0.1 matches MoveView::Open(inner) ==> spec_step(
            bytes,
            at,
            end,
            depth,
        )->Some_0.0 <= inner <= end,
{
    if at < end - 1 {
        let zero = spec_find_zero(bytes, at + 1);
        lemma_found_zero(bytes, at + 1);
        if bytes[at] == 0x0b {
            lemma_found_zero(bytes, zero + 1);
            lemma_found_zero(bytes, spec_find_zero(bytes, zero + 1) + 1);
        }
    }
}

fn text_end(bytes: &[u8], at: usize, end: usize) -> (next: Option<usize>)
    requires
        at <= end <= bytes.len(),
    ensures
        match spec_text_end(bytes@, at as int, end as int) {
            Some(place) => next == Some(place as usize) && place <= end,
            None => next is None,
        },
{
    if end - at < 4 {
        return None;
    }
    let length: i32 = read_i32(bytes, at);
    if length < 1 || length as usize > end - at - 4 {
        return None;
    }
    Some(at + 4 + length as usize)
}

fn fixed_size(tag: u8) -> (size: Option<usize>)
    ensures
        match spec_fixed_size(tag) {
            Some(n) => size == Some(n as usize) && 0 <= n <= 16,
            None => size is None,
        },
{
    if tag == 0x01 || tag == 0x09 || tag == 0x11 || tag == 0x12 {
        Some(8)
    } else if tag == 0x10 {
        Some(4)
    } else if tag == 0x08 {
        Some(1)
    } else if tag == 0x07 {
        Some(12)
    } else if tag == 0x13 {
        Some(16)
    } else if tag == 0x0a || tag == 0x06 || tag == 0xff || tag == 0x7f {
        Some(0)
    } else {
        None
    }
}

/// Whether `result` is the executable form of `expected`.
pub open spec fn moved_as(result: Option<(usize, Move)>, expected: Option<(int, MoveView)>) -> bool {
    match expected {
        Some((next, step)) => result matches Some(pair) && pair.0 == next && pair.1@ == step,
        None => result is None,
    }
}

fn value(bytes: &[u8], tag: u8, at: usize, end: usize, depth: usize) -> (result: Option<(usize, Move)>)
    requires
        at <= end <= bytes.len(),
    ensures
        moved_as(result, spec_value(bytes@, tag, at as int, end as int, depth as int)),
{
    match fixed_size(tag) {
        Some(size) => {
            return if size <= end - at {
                Some((at + size, Move::Stay))
            } else {
                None
            };
        },
        None => {},
    }
    if tag == 0x02 || tag == 0x0d || tag == 0x0e {
        match text_end(bytes, at, end) {
            Some(next) => Some((next, Move::Stay)),
            None => None,
        }
    } else if tag == 0x0c {
        match text_end(bytes, at, end) {
            Some(next) => if end - next >= 12 {
                Some((next + 12, Move::Stay))
            } else {
                None
            },
            None => None,
        }
    } else if tag == 0x05 {
        if end - at < 4 {
            return None;
        }
        let length: i32 = read_i32(bytes, at);
        if length < 0 || end - at < 5 || length as usize > end - at - 5 {
            return None;
        }
        Some((at + 5 + length as usize, Move::Stay))
    } else if tag == 0x0b {
        let first: usize = find_zero_from(bytes, at);
        if first >= end {
            return None;
        }
        let second: usize = find_zero_from(bytes, first + 1);
        if second >= end {
            return None;
        }
        Some((second + 1, Move::Stay))
    } else if tag == 0x03 || tag == 0x04 {
        if end - at < 5 {
            return None;
        }
        let length: i32 = read_i32(bytes, at);
        if length < 5 || length as usize > end - at {
            return None;
        }
        if depth >= MAX_NESTING {
            return None;
        }
        Some((at + 4, Move::Open(at + length as usize)))
    } else if tag == 0x0f {
        if end - at < 14 {
            return None;
        }
        let total: i32 = read_i32(bytes, at);
        let text: i32 = read_i32(bytes, at + 4);
        if total < 14 || total as usize > end - at {
            return None;
        }
        if text < 1 || text > total - 13 {
            return None;
        }
        let inner: i32 = read_i32(bytes, at + 8 + text as usize);
        if inner != total - 8 - text {
            return None;
        }
        if depth >= MAX_NESTING {
            return None;
        }
        Some((at + 12 + text as usize, Move::Open(at + total as usize)))
    } else {
        None
    }
}

/// Reads the element at `at`, in a document that ends at `end` while
/// `depth` documents are open.
pub fn step(bytes: &[u8], at: usize, end: usize, depth: usize) -> (result: Option<(usize, Move)>)
    requires
        end <= bytes.len(),
    ensures
        moved_as(result, spec_step(bytes@, at as int, end as int, depth as int)),
{
    if at >= end {
        return None;
    }
    if at == end - 1 {
        return if bytes[at] == 0 {
            Some((at + 1, Move::Close))
        } else {
            None
        };
    }
    let zero: usize = find_zero_from(bytes, at + 1);
    if zero >= end {
        return None;
    }
    value(bytes, bytes[at], zero + 1, end, depth)
}

/// Scans `bytes` as one document and says whether its documents nest no
/// deeper than [`MAX_NESTING`].
pub fn nesting_ok(bytes: &[u8]) -> (ok: bool)
    ensures
        ok == spec_nesting_ok(bytes@),
{
    let n: usize = bytes.len();
    if n < 5 || n > 0x7fff_ffff {
        proof {
            if n >= 5 {
                assert(spec_length_at(bytes@, 0) < 0x8000_0000);
            }
        }
        return false;
    }
    let declared: i32 = read_i32(bytes, 0);
    if declared < 0 || declared as usize != n {
        return false;
    }
    let mut open: Vec<usize> = Vec::new();
    open.push(n);
    let mut at: usize = 4;
    assert(spec_ends(open@) =~= seq![n as int]);
    while open.len() > 0
        invariant
            n == bytes.len(),
            at <= n,
            forall|i: int| 0 <= i < open.len() ==> open[i] <= n,
            spec_scan(bytes@, 4, seq![n as int]) == spec_scan(bytes@, at as int, spec_ends(open@)),
        decreases n - at,
    {
        let end: usize = open[open.len() - 1];
        let ghost before = spec_ends(open@);
        assert(before.last() == end as int);
        match step(bytes, at, end, open.len()) {
            None => {
                return false;
            },
            Some((next, moved)) => {
                proof {
                    lemma_step_advances(bytes@, at as int, end as int, open.len() as int);
                }
                match moved {
                    Move::Stay => {},
                    Move::Close => {
                        open.pop();
                        assert(spec_ends(open@) =~= before.drop_last());
                    },
                    Move::Open(inner) => {
                        open.push(inner);
                        assert(spec_ends(open@) =~= before.push(inner as int));
                    },
                }
                at = next;
            },
        }
    }
    at == n
}

} // verus!
