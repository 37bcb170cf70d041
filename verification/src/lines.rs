//! Lines and positions in a text held as bytes.
//!
//! A line ends at a newline byte. A position is a row, counted in lines from
//! zero, and a column, counted in bytes from the start of that line.

use vstd::prelude::*;
use vstd::utf8::*;
use crate::encoding::lemma_encode_concat;

verus! {

/// The byte that ends a line.
pub const NEWLINE: u8 = 10;

/// How many newline bytes `bytes` holds.
pub open spec fn newline_count(bytes: Seq<u8>) -> nat
    decreases bytes.len(),
{
    if bytes.len() == 0 {
        0
    } else if bytes.last() == NEWLINE {
        newline_count(bytes.drop_last()) + 1
    } else {
        newline_count(bytes.drop_last())
    }
}

/// The offset just behind the last newline byte of `bytes`, or zero where it
/// holds none: the offset at which its last line begins.
pub open spec fn last_line_start(bytes: Seq<u8>) -> nat
    decreases bytes.len(),
{
    if bytes.len() == 0 {
        0
    } else if bytes.last() == NEWLINE {
        bytes.len()
    } else {
        last_line_start(bytes.drop_last())
    }
}

/// The number of lines in `bytes`: one for each newline byte, and one more
/// for text that follows the last of them.
pub open spec fn line_count(bytes: Seq<u8>) -> nat {
    if bytes.len() > 0 && bytes.last() != NEWLINE {
        newline_count(bytes) + 1
    } else {
        newline_count(bytes)
    }
}

/// The row of `offset` in `bytes`.
pub open spec fn row_at(bytes: Seq<u8>, offset: int) -> nat {
    newline_count(bytes.take(offset))
}

/// The column of `offset` in `bytes`.
pub open spec fn column_at(bytes: Seq<u8>, offset: int) -> int {
    offset - last_line_start(bytes.take(offset))
}

/// How many newline characters `chars` holds.
pub open spec fn newline_chars(chars: Seq<char>) -> nat
    decreases chars.len(),
{
    if chars.len() == 0 {
        0
    } else if chars.last() == '\n' {
        newline_chars(chars.drop_last()) + 1
    } else {
        newline_chars(chars.drop_last())
    }
}

/// The number of lines in a text: one for each newline character, and one
/// more for text that follows the last of them.
pub open spec fn text_line_count(chars: Seq<char>) -> nat {
    if chars.len() > 0 && chars.last() != '\n' {
        newline_chars(chars) + 1
    } else {
        newline_chars(chars)
    }
}

/// The newlines of a text are those of its parts.
pub proof fn lemma_newline_count_concat(a: Seq<u8>, b: Seq<u8>)
    ensures
        newline_count(a + b) == newline_count(a) + newline_count(b),
    decreases b.len(),
{
    if b.len() == 0 {
        assert(a + b =~= a);
    } else {
        assert((a + b).drop_last() =~= a + b.drop_last());
        lemma_newline_count_concat(a, b.drop_last());
    }
}

/// The encoding of one character holds a newline byte only where the
/// character is a newline, and then it is that byte alone.
proof fn lemma_newline_in_one_char(c: char)
    ensures
        encode_utf8(seq![c]).len() >= 1,
        c == '\n' ==> encode_utf8(seq![c]) == seq![NEWLINE],
        c != '\n' ==> newline_count(encode_utf8(seq![c])) == 0 && encode_utf8(seq![c]).last()
            != NEWLINE,
{
    let single = seq![c];
    let bytes = encode_utf8(single);
    encode_utf8_first_scalar(single);
    assert(encode_utf8(single.drop_first()) =~= Seq::<u8>::empty());
    assert(bytes =~= encode_scalar(c as u32));
    let first = bytes[0];
    assert(first <= 0x7f ==> (first & 0x7f) as u32 == first as u32) by (bit_vector);
    reveal_with_fuel(newline_count, 5);
    if is_leading_byte_width_1(first) {
        assert(bytes.len() == 1);
        assert(first as u32 == c as u32);
        if c == '\n' {
            assert(bytes =~= seq![NEWLINE]);
        }
    } else if is_leading_byte_width_2(first) {
        assert(bytes.len() == 2);
        assert(bytes.drop_last() =~= seq![first]);
    } else if is_leading_byte_width_3(first) {
        assert(bytes.len() == 3);
        assert(bytes.drop_last() =~= seq![first, bytes[1]]);
        assert(bytes.drop_last().drop_last() =~= seq![first]);
    } else {
        assert(bytes.len() == 4);
        assert(bytes.drop_last() =~= seq![first, bytes[1], bytes[2]]);
        assert(bytes.drop_last().drop_last() =~= seq![first, bytes[1]]);
        assert(bytes.drop_last().drop_last().drop_last() =~= seq![first]);
    }
}

/// Counting lines over the bytes of a text is counting them over its
/// characters: no byte inside a longer character is a newline byte.
pub proof fn lemma_lines_by_chars(chars: Seq<char>)
    ensures
        newline_count(encode_utf8(chars)) == newline_chars(chars),
        line_count(encode_utf8(chars)) == text_line_count(chars),
    decreases chars.len(),
{
    if chars.len() > 0 {
        let front = chars.drop_last();
        let single = seq![chars.last()];
        assert(chars =~= front + single);
        lemma_encode_concat(front, single);
        lemma_newline_count_concat(encode_utf8(front), encode_utf8(single));
        lemma_newline_in_one_char(chars.last());
        lemma_lines_by_chars(front);
        reveal_with_fuel(newline_count, 2);
    }
}

/// A text has no more newlines than bytes, its last line begins inside it,
/// and it has no more lines than bytes.
pub proof fn lemma_line_bounds(bytes: Seq<u8>)
    ensures
        newline_count(bytes) <= bytes.len(),
        last_line_start(bytes) <= bytes.len(),
        line_count(bytes) <= bytes.len(),
        bytes.len() > 0 && bytes.last() != NEWLINE ==> newline_count(bytes) < bytes.len(),
    decreases bytes.len(),
{
    if bytes.len() > 0 {
        lemma_line_bounds(bytes.drop_last());
    }
}

/// Row and column never exceed the offset they describe.
pub proof fn lemma_position_bounds(bytes: Seq<u8>, offset: int)
    requires
        0 <= offset <= bytes.len(),
    ensures
        row_at(bytes, offset) <= offset,
        0 <= column_at(bytes, offset) <= offset,
{
    lemma_line_bounds(bytes.take(offset));
}

/// A position never lies before an earlier one: rows do not decrease along
/// the text, and within one row the columns are as far apart as the offsets.
pub proof fn lemma_positions_ordered(bytes: Seq<u8>, start: int, end: int)
    requires
        0 <= start <= end <= bytes.len(),
    ensures
        row_at(bytes, start) <= row_at(bytes, end),
        row_at(bytes, start) == row_at(bytes, end) ==> column_at(bytes, end) - column_at(
            bytes,
            start,
        ) == end - start,
    decreases end - start,
{
    if start < end {
        lemma_positions_ordered(bytes, start, end - 1);
        assert(bytes.take(end).drop_last() =~= bytes.take(end - 1));
    }
}

/// The offset that `locate` and `BufferSnapshot::offset_to_point` describe:
/// `offset` itself, or the end of the text where `offset` lies behind it.
pub open spec fn clipped(offset: int, len: nat) -> int {
    if offset > len {
        len as int
    } else {
        offset
    }
}

/// The row and the column of `offset` in `bytes`. An offset behind the end
/// of the text is taken for the end.
pub fn locate(bytes: &[u8], offset: usize) -> (at: (usize, usize))
    ensures
        at.0 == row_at(bytes@, clipped(offset as int, bytes@.len())),
        at.1 == column_at(bytes@, clipped(offset as int, bytes@.len())),
{
    let offset = if offset > bytes.len() {
        bytes.len()
    } else {
        offset
    };
    let mut row: usize = 0;
    let mut start: usize = 0;
    let mut i: usize = 0;
    while i < offset
        invariant
            i <= offset <= bytes@.len(),
            row <= i,
            start <= i,
            row == newline_count(bytes@.take(i as int)),
            start == last_line_start(bytes@.take(i as int)),
        decreases offset - i,
    {
        assert(bytes@.take(i + 1).drop_last() =~= bytes@.take(i as int));
        if bytes[i] == NEWLINE {
            row += 1;
            start = i + 1;
        }
        i += 1;
    }
    (row, offset - start)
}

/// The number of lines in `bytes`.
pub fn count_lines(bytes: &[u8]) -> (count: usize)
    ensures
        count == line_count(bytes@),
{
    let n = bytes.len();
    let mut newlines: usize = 0;
    let mut i: usize = 0;
    while i < n
        invariant
            i <= n,
            n == bytes@.len(),
            newlines == newline_count(bytes@.take(i as int)),
            newlines <= i,
        decreases n - i,
    {
        assert(bytes@.take(i + 1).drop_last() =~= bytes@.take(i as int));
        if bytes[i] == NEWLINE {
            newlines += 1;
        }
        i += 1;
    }
    assert(bytes@.take(n as int) =~= bytes@);
    if n > 0 && bytes[n - 1] != NEWLINE {
        proof {
            lemma_line_bounds(bytes@);
        }
        newlines + 1
    } else {
        newlines
    }
}

} // verus!
