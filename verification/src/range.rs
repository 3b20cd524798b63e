//! Range checks shared by every kind of window.

use std::ops::Range;
use vstd::prelude::*;
use vstd::string::StringSliceAdditionalSpecFns;
use vstd::utf8::is_char_boundary;

verus! {

/// Why a requested sub-range was refused.
#[derive(Clone, Copy, Debug, PartialEq, Eq, Structural)]
pub enum SliceError {
    /// The range starts after it ends.
    StartAfterEnd,
    /// The range ends past the end of the window.
    EndOutOfBounds,
    /// The range starts inside a character.
    StartNotCharBoundary,
    /// The range ends inside a character.
    EndNotCharBoundary,
}

/// Whether `start..end` lies inside a window of `len` units.
pub open spec fn in_bounds(start: int, end: int, len: int) -> bool {
    0 <= start <= end <= len
}

/// The error that the bounds of `start..end` draw from a window of `len`
/// units, if any. A reversed range is reported before an overlong one.
pub open spec fn bounds_error(start: int, end: int, len: int) -> Option<SliceError> {
    if start > end {
        Some(SliceError::StartAfterEnd)
    } else if end > len {
        Some(SliceError::EndOutOfBounds)
    } else {
        None
    }
}

/// The error that `start..end` draws from a window onto the text `bytes`, if
/// any: its bounds are checked first, then that it starts between
/// characters, then that it ends between characters.
pub open spec fn text_range_error(bytes: Seq<u8>, start: int, end: int) -> Option<SliceError> {
    if bounds_error(start, end, bytes.len() as int) is Some {
        bounds_error(start, end, bytes.len() as int)
    } else if !is_char_boundary(bytes, start) {
        Some(SliceError::StartNotCharBoundary)
    } else if !is_char_boundary(bytes, end) {
        Some(SliceError::EndNotCharBoundary)
    } else {
        None
    }
}

/// The range, in the coordinates of a window, that `inner` denotes when it is
/// given in the coordinates of the sub-window `outer` of that window.
pub open spec fn compose(outer: (int, int), inner: (int, int)) -> (int, int) {
    (outer.0 + inner.0, outer.0 + inner.1)
}

/// One end of a range, as a caller may give it.
#[derive(Clone, Copy, Debug, PartialEq, Eq, Structural)]
pub enum Limit {
    /// The range reaches the index and takes it in.
    Included(usize),
    /// The range reaches the index and leaves it out.
    Excluded(usize),
    /// The range reaches the end of the window on this side.
    Unbounded,
}

/// The first index of a range that starts at `start`.
pub open spec fn lower(start: Limit) -> int {
    match start {
        Limit::Included(n) => n as int,
        Limit::Excluded(n) => n + 1,
        Limit::Unbounded => 0,
    }
}

/// The index after the last of a range that ends at `end`, in a window of
/// `len` units.
pub open spec fn upper(end: Limit, len: int) -> int {
    match end {
        Limit::Included(n) => n + 1,
        Limit::Excluded(n) => n as int,
        Limit::Unbounded => len,
    }
}

/// The first index of a range that starts at `start`, where it is an index
/// at all: a range that leaves out the last index there is starts past
/// every index.
pub fn first_index(start: Limit) -> (r: Option<usize>)
    ensures
        r is Some <==> lower(start) <= usize::MAX,
        r matches Some(n) ==> n == lower(start),
{
    match start {
        Limit::Included(n) => Some(n),
        Limit::Excluded(n) => n.checked_add(1),
        Limit::Unbounded => Some(0),
    }
}

/// The index after the last of a range that ends at `end`, in a window of
/// `len` units, where it is an index at all: a range that takes in the last
/// index there is ends past every index.
pub fn end_index(end: Limit, len: usize) -> (r: Option<usize>)
    ensures
        r is Some <==> upper(end, len as int) <= usize::MAX,
        r matches Some(n) ==> n == upper(end, len as int),
{
    match end {
        Limit::Included(n) => n.checked_add(1),
        Limit::Excluded(n) => Some(n),
        Limit::Unbounded => Some(len),
    }
}

/// Turns the two ends of a range into `start..end` and checks it against a
/// window of `len` units. An end that lies past every index is past the
/// window too, so it is refused like any other.
pub fn resolve(start: Limit, end: Limit, len: usize) -> (r: Result<Range<usize>, SliceError>)
    ensures
        r is Ok <==> in_bounds(lower(start), upper(end, len as int), len as int),
        r matches Ok(range) ==> range.start == lower(start) && range.end == upper(
            end,
            len as int,
        ),
        r matches Err(e) ==> bounds_error(lower(start), upper(end, len as int), len as int)
            == Some(e),
{
    match (first_index(start), end_index(end, len)) {
        (Some(first), Some(last)) => match check_bounds(first, last, len) {
            Ok(()) => Ok(first..last),
            Err(e) => Err(e),
        },
        (None, Some(_)) => Err(SliceError::StartAfterEnd),
        (_, None) => Err(SliceError::EndOutOfBounds),
    }
}

/// Checks `start..end` against a window of `len` units.
pub fn check_bounds(start: usize, end: usize, len: usize) -> (r: Result<(), SliceError>)
    ensures
        r is Ok <==> in_bounds(start as int, end as int, len as int),
        r matches Err(e) ==> bounds_error(start as int, end as int, len as int) == Some(e),
{
    if start > end {
        Err(SliceError::StartAfterEnd)
    } else if end > len {
        Err(SliceError::EndOutOfBounds)
    } else {
        Ok(())
    }
}

/// Checks `start..end` against the text `text`: its bounds first, then that
/// it starts between characters, then that it ends between characters.
pub fn check_text_range(text: &str, start: usize, end: usize) -> (r: Result<(), SliceError>)
    ensures
        r is Ok <==> text_range_error(text.spec_bytes(), start as int, end as int) is None,
        r matches Err(e) ==> text_range_error(text.spec_bytes(), start as int, end as int)
            == Some(e),
{
    match check_bounds(start, end, text.as_bytes().len()) {
        Err(e) => Err(e),
        Ok(()) => if !text.is_char_boundary(start) {
            Err(SliceError::StartNotCharBoundary)
        } else if !text.is_char_boundary(end) {
            Err(SliceError::EndNotCharBoundary)
        } else {
            Ok(())
        },
    }
}

/// A range inside a sub-window stays inside the window once composed.
pub proof fn lemma_compose_in_bounds(outer: (int, int), inner: (int, int), len: int)
    requires
        in_bounds(outer.0, outer.1, len),
        in_bounds(inner.0, inner.1, outer.1 - outer.0),
    ensures
        in_bounds(compose(outer, inner).0, compose(outer, inner).1, len),
        compose(outer, inner).1 - compose(outer, inner).0 == inner.1 - inner.0,
{
}

} // verus!
