//! Byte offsets to 1-based line and column.
use vstd::prelude::*;
use vstd::string::StringSliceAdditionalSpecFns;
use vstd::utf8::is_char_boundary;

verus! {

/// The greatest character boundary of `bytes` at or below `off` (clamped to
/// the text's length).
pub open spec fn floor_boundary(bytes: Seq<u8>, off: int) -> int
    decreases off,
{
    let o = if off < bytes.len() { off } else { bytes.len() as int };
    if o <= 0 {
        0
    } else if is_char_boundary(bytes, o) {
        o
    } else {
        floor_boundary(bytes, o - 1)
    }
}

/// Number of newline bytes in `b`.
pub open spec fn count_newlines(b: Seq<u8>) -> nat
    decreases b.len(),
{
    if b.len() == 0 {
        0
    } else {
        count_newlines(b.drop_last()) + if b.last() == 10u8 { 1nat } else { 0nat }
    }
}

/// Position of the last newline byte in `b`, if any.
pub open spec fn last_newline(b: Seq<u8>) -> Option<int>
    decreases b.len(),
{
    if b.len() == 0 {
        None
    } else if b.last() == 10u8 {
        Some(b.len() - 1)
    } else {
        last_newline(b.drop_last())
    }
}

/// The 1-based (line, column) of byte offset `off` in `bytes`: the offset is
/// first moved down to a character boundary; the column counts bytes.
pub open spec fn spec_line_col(bytes: Seq<u8>, off: int) -> (int, int) {
    let o = floor_boundary(bytes, off);
    let before = bytes.subrange(0, o);
    (
        count_newlines(before) + 1int,
        match last_newline(before) {
            Some(idx) => o - idx,
            None => o + 1,
        },
    )
}

/// The last newline, when there is one, lies within the bytes.
proof fn lemma_last_newline_bounds(b: Seq<u8>)
    ensures
        last_newline(b) matches Some(i) ==> 0 <= i < b.len(),
    decreases b.len(),
{
    if b.len() > 0 && b.last() != 10u8 {
        lemma_last_newline_bounds(b.drop_last());
    }
}

/// The boundary found lies between the start and the clamped offset.
proof fn lemma_floor_boundary_bounds(bytes: Seq<u8>, off: int)
    ensures
        0 <= floor_boundary(bytes, off) <= bytes.len(),
        off >= 0 ==> floor_boundary(bytes, off) <= off,
    decreases off,
{
    let o = if off < bytes.len() { off } else { bytes.len() as int };
    if o > 0 && !is_char_boundary(bytes, o) {
        lemma_floor_boundary_bounds(bytes, o - 1);
    }
}

/// Lines and columns are 1-based: every offset, inside the text or not, on
/// a character boundary or not, maps to a line and a column of at least 1,
/// and the line is one more than the newlines before the position.
pub proof fn law_line_col_is_one_based(bytes: Seq<u8>, off: int)
    ensures
        spec_line_col(bytes, off).0 >= 1,
        spec_line_col(bytes, off).1 >= 1,
{
    let o = floor_boundary(bytes, off);
    lemma_floor_boundary_bounds(bytes, off);
    lemma_last_newline_bounds(bytes.subrange(0, o));
}

/// Moves `offset` down to the nearest character boundary (clamped to the text).
pub fn floor_byte_offset(source: &str, offset: usize) -> (r: usize)
    ensures
        r as int == floor_boundary(source.spec_bytes(), offset as int),
        r <= source.spec_bytes().len(),
        r <= offset,
{
    let len = source.as_bytes().len();
    let mut safe = if offset < len { offset } else { len };
    proof {
        assert(floor_boundary(source.spec_bytes(), offset as int) == floor_boundary(source.spec_bytes(), safe as int));
    }
    while safe > 0 && !source.is_char_boundary(safe)
        invariant
            len == source.spec_bytes().len(),
            safe <= len,
            safe <= offset,
            floor_boundary(source.spec_bytes(), offset as int) == floor_boundary(source.spec_bytes(), safe as int),
        decreases safe,
    {
        safe = safe - 1;
    }
    safe
}

/// Maps a byte offset to a 1-based line and column. The offset is first moved
/// down to a character boundary; the column is a byte offset within the line
/// (not grapheme-aware).
pub fn line_col(source: &str, offset: u32) -> (r: (usize, usize))
    requires
        source.spec_bytes().len() < usize::MAX,
    ensures
        (r.0 as int, r.1 as int) == spec_line_col(source.spec_bytes(), offset as int),
{
    line_col_at(source, offset as usize)
}

/// [`line_col`] for an offset held in a `usize`.
pub fn line_col_at(source: &str, offset: usize) -> (r: (usize, usize))
    requires
        source.spec_bytes().len() < usize::MAX,
    ensures
        (r.0 as int, r.1 as int) == spec_line_col(source.spec_bytes(), offset as int),
{
    let bytes = source.as_bytes();
    let o = floor_byte_offset(source, offset);
    let mut lines: usize = 0;
    let mut last: Option<usize> = None;
    let mut i: usize = 0;
    proof {
        assert(bytes@.subrange(0, 0) =~= Seq::<u8>::empty());
    }
    while i < o
        invariant
            bytes@ == source.spec_bytes(),
            o <= bytes@.len(),
            bytes@.len() < usize::MAX,
            o as int == floor_boundary(bytes@, offset as int),
            i <= o,
            lines <= i,
            lines as nat == count_newlines(bytes@.subrange(0, i as int)),
            last == match last_newline(bytes@.subrange(0, i as int)) {
                Some(k) => Some(k as usize),
                None => None::<usize>,
            },
            last matches Some(k) ==> k < i,
            last_newline(bytes@.subrange(0, i as int)) matches Some(k) ==> 0 <= k < i,
        decreases o - i,
    {
        proof {
            assert(bytes@.subrange(0, i + 1).drop_last() =~= bytes@.subrange(0, i as int));
        }
        if bytes[i] == 10u8 {
            lines = lines + 1;
            last = Some(i);
        }
        i = i + 1;
    }
    let column = match last {
        Some(k) => o - k,
        None => o + 1,
    };
    (lines + 1, column)
}

} // verus!
