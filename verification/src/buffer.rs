//! A point-in-time view of a text buffer.
//!
//! The editor owns the live buffer. What this crate reads is a snapshot of
//! it: the text, and the path of the file behind it where there is one.
//! Offsets into a snapshot count bytes of the text's UTF-8 encoding.

use vstd::prelude::*;
use vstd::utf8::*;
use crate::lines::{clipped, column_at, lemma_position_bounds, locate, row_at};

verus! {

/// The longest text a snapshot holds, in bytes, so that every row and every
/// column fits its 32 bits.
pub const MAX_SNAPSHOT_LEN: usize = 4294967295;

/// A position in a buffer: a row, counted in lines from zero, and a column,
/// counted in bytes from the start of that line.
#[derive(Clone, Copy, Debug, PartialEq, Eq, Structural)]
pub struct Point {
    pub row: u32,
    pub column: u32,
}

/// What a path is in contracts: its characters, where there is a path.
pub open spec fn path_text(path: Option<String>) -> Option<Seq<char>> {
    match path {
        Some(p) => Some(p@),
        None => None,
    }
}

/// Whether `[start, end)` is a range of whole characters of `bytes`.
pub open spec fn is_text_range(bytes: Seq<u8>, start: int, end: int) -> bool {
    &&& 0 <= start <= end <= bytes.len()
    &&& is_char_boundary(bytes, start)
    &&& is_char_boundary(bytes, end)
}

/// Cutting a text at a character boundary leaves the boundaries before the
/// cut where they were.
proof fn lemma_boundary_in_prefix(bytes: Seq<u8>, start: int, end: int)
    requires
        valid_utf8(bytes),
        is_text_range(bytes, start, end),
    ensures
        valid_utf8(bytes.subrange(0, end)),
        is_char_boundary(bytes.subrange(0, end), start),
{
    let head = bytes.subrange(0, end);
    valid_utf8_split(bytes, end);
    if start < end {
        is_char_boundary_iff_not_is_continuation_byte(bytes, start);
        is_char_boundary_iff_not_is_continuation_byte(head, start);
    } else {
        is_char_boundary_start_end_of_seq(head);
    }
}

/// An immutable view of a buffer's text and of the file it belongs to.
pub struct BufferSnapshot {
    text: String,
    file_path: Option<String>,
}

impl BufferSnapshot {
    #[verifier::type_invariant]
    spec fn fits(self) -> bool {
        encode_utf8(self.text@).len() <= MAX_SNAPSHOT_LEN
    }

    /// The text of the buffer.
    pub closed spec fn text(self) -> Seq<char> {
        self.text@
    }

    /// The text of the buffer as the bytes that offsets count.
    pub open spec fn bytes(self) -> Seq<u8> {
        encode_utf8(self.text())
    }

    /// The path of the buffer's file; `None` for a buffer that has none.
    pub closed spec fn path(self) -> Option<Seq<char>> {
        path_text(self.file_path)
    }

    /// Takes a snapshot of `text`, unless it is longer than
    /// `MAX_SNAPSHOT_LEN` bytes.
    pub fn new(text: String, file_path: Option<String>) -> (snapshot: Option<BufferSnapshot>)
        ensures
            snapshot is Some <==> encode_utf8(text@).len() <= MAX_SNAPSHOT_LEN,
            snapshot matches Some(s) ==> s.text() == text@ && s.path() == path_text(file_path),
    {
        if text.as_str().as_bytes().len() > MAX_SNAPSHOT_LEN {
            None
        } else {
            Some(BufferSnapshot { text, file_path })
        }
    }

    /// The length of the text in bytes.
    pub fn len(&self) -> (n: usize)
        ensures
            n == self.bytes().len(),
            n <= MAX_SNAPSHOT_LEN,
    {
        proof {
            use_type_invariant(self);
        }
        self.text.as_str().as_bytes().len()
    }

    /// The path of the buffer's file, where it has one.
    pub fn file_path(&self) -> (path: Option<String>)
        ensures
            path_text(path) == self.path(),
    {
        match &self.file_path {
            Some(p) => Some(p.clone()),
            None => None,
        }
    }

    /// The position of `offset`. An offset behind the end of the text is
    /// taken for the end.
    pub fn offset_to_point(&self, offset: usize) -> (point: Point)
        ensures
            point.row == row_at(self.bytes(), clipped(offset as int, self.bytes().len())),
            point.column == column_at(self.bytes(), clipped(offset as int, self.bytes().len())),
    {
        let bytes = self.text.as_str().as_bytes();
        proof {
            use_type_invariant(self);
            lemma_position_bounds(bytes@, clipped(offset as int, bytes@.len()));
        }
        let (row, column) = locate(bytes, offset);
        Point { row: row as u32, column: column as u32 }
    }

    /// The text between two offsets. There is none where the offsets are out
    /// of order, lie behind the end, or split a character.
    pub fn text_for_range(&self, start: usize, end: usize) -> (text: Option<String>)
        ensures
            text is Some <==> is_text_range(self.bytes(), start as int, end as int),
            text matches Some(t) ==> encode_utf8(t@) == self.bytes().subrange(
                start as int,
                end as int,
            ),
    {
        let whole = self.text.as_str();
        if start > end || end > whole.as_bytes().len() {
            return None;
        }
        let start_ok = whole.is_char_boundary(start);
        let end_ok = whole.is_char_boundary(end);
        if !start_ok || !end_ok {
            return None;
        }
        proof {
            encode_utf8_valid_utf8(self.text@);
            lemma_boundary_in_prefix(self.bytes(), start as int, end as int);
        }
        let (head, _) = whole.split_at(end);
        let (_, middle) = head.split_at(start);
        assert(encode_utf8(middle@) =~= self.bytes().subrange(start as int, end as int));
        Some(String::from_str(middle))
    }
}

} // verus!
