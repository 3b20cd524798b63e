//! Character boundaries of UTF-8 text under windowing.

use vstd::prelude::*;
use vstd::utf8::*;

verus! {

/// Whether `from..to` is a range of `bytes` that starts and ends between
/// characters.
pub open spec fn char_window(bytes: Seq<u8>, from: int, to: int) -> bool {
    &&& 0 <= from <= to <= bytes.len()
    &&& is_char_boundary(bytes, from)
    &&& is_char_boundary(bytes, to)
}

/// In valid text, an index is a character boundary exactly when it is the end
/// of the text or the byte at it does not continue a character.
pub proof fn lemma_boundary_by_byte(bytes: Seq<u8>, index: int)
    requires
        valid_utf8(bytes),
        0 <= index <= bytes.len(),
    ensures
        is_char_boundary(bytes, index) <==> (index == bytes.len() || !is_continuation_byte(
            bytes[index],
        )),
{
    if index == bytes.len() {
        is_char_boundary_start_end_of_seq(bytes);
    } else {
        is_char_boundary_iff_not_is_continuation_byte(bytes, index);
    }
}

/// The text before a character boundary is valid text, with the same
/// character boundaries.
pub proof fn lemma_prefix(bytes: Seq<u8>, to: int, index: int)
    requires
        valid_utf8(bytes),
        0 <= index <= to <= bytes.len(),
        is_char_boundary(bytes, to),
    ensures
        valid_utf8(bytes.subrange(0, to)),
        is_char_boundary(bytes.subrange(0, to), index) <==> is_char_boundary(bytes, index),
{
    valid_utf8_split(bytes, to);
    let head = bytes.subrange(0, to);
    lemma_boundary_by_byte(head, index);
    lemma_boundary_by_byte(bytes, index);
    if index == to {
    } else {
        assert(head[index] == bytes[index]);
    }
}

/// The text after a character boundary is valid text, with the same
/// character boundaries, shifted.
pub proof fn lemma_suffix(bytes: Seq<u8>, from: int, index: int)
    requires
        valid_utf8(bytes),
        0 <= from <= bytes.len(),
        0 <= index <= bytes.len() - from,
        is_char_boundary(bytes, from),
    ensures
        valid_utf8(bytes.subrange(from, bytes.len() as int)),
        is_char_boundary(bytes.subrange(from, bytes.len() as int), index) <==> is_char_boundary(
            bytes,
            from + index,
        ),
{
    valid_utf8_split(bytes, from);
    let tail = bytes.subrange(from, bytes.len() as int);
    lemma_boundary_by_byte(tail, index);
    lemma_boundary_by_byte(bytes, from + index);
    if index == tail.len() {
    } else {
        assert(tail[index] == bytes[from + index]);
    }
}

/// A window of valid text that starts and ends between characters is valid
/// text, and its character boundaries are those of the text, shifted.
pub proof fn lemma_window(bytes: Seq<u8>, from: int, to: int, index: int)
    requires
        valid_utf8(bytes),
        char_window(bytes, from, to),
        0 <= index <= to - from,
    ensures
        valid_utf8(bytes.subrange(from, to)),
        is_char_boundary(bytes.subrange(from, to), index) <==> is_char_boundary(
            bytes,
            from + index,
        ),
{
    let head = bytes.subrange(0, to);
    lemma_prefix(bytes, to, from);
    lemma_prefix(bytes, to, from + index);
    lemma_suffix(head, from, index);
    assert(head.subrange(from, head.len() as int) =~= bytes.subrange(from, to));
}

/// Valid text stays valid, with boundaries at both ends of a window, when
/// the window is replaced by valid text of the same length.
pub proof fn lemma_replace_window(bytes: Seq<u8>, from: int, to: int, part: Seq<u8>)
    requires
        valid_utf8(bytes),
        char_window(bytes, from, to),
        valid_utf8(part),
        part.len() == to - from,
    ensures
        valid_utf8(bytes.subrange(0, from) + part + bytes.subrange(to, bytes.len() as int)),
        char_window(
            bytes.subrange(0, from) + part + bytes.subrange(to, bytes.len() as int),
            from,
            to,
        ),
{
    let head = bytes.subrange(0, from);
    let tail = bytes.subrange(to, bytes.len() as int);
    let whole = head + part + tail;
    valid_utf8_split(bytes, from);
    valid_utf8_split(bytes, to);
    valid_utf8_concat(head, part);
    valid_utf8_concat(head + part, tail);
    lemma_boundary_by_byte(whole, from);
    lemma_boundary_by_byte(whole, to);
    lemma_boundary_by_byte(bytes, to);
    lemma_boundary_by_byte(bytes, from);
    lemma_boundary_by_byte(part, 0);
    if from < to {
        assert(whole[from] == part[0]);
    } else if to < bytes.len() {
        assert(whole[from] == bytes[to]);
    }
    if to < bytes.len() {
        assert(whole[to] == bytes[to]);
    }
}

} // verus!
