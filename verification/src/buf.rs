//! The windowed view, over slices of elements and over text. The text form
//! is the same windowing with one more rule: every window starts and ends
//! between characters.

use crate::backing::{Backing, Inner};
use crate::boundary::{char_window, lemma_prefix, lemma_replace_window, lemma_window};
use crate::compare::copy_prefix;
use crate::range::{
    bounds_error, check_bounds, check_text_range, compose, in_bounds, lemma_compose_in_bounds,
    text_range_error, SliceError,
};
use crate::std_specs::{
    holders, part_mut, share_boxed, share_text, share_vec, sole_holder_mut, text_part_mut,
    unshared_mut, unshared_text_mut,
};
use std::ops::Range;
use vstd::prelude::*;
use vstd::string::StringSliceAdditionalSpecFns;
use vstd::utf8::*;

verus! {

/// One observer's window onto a backing: the backing, where the window
/// starts in it, and how many units it spans.
pub struct FigBuf<T: ?Sized + Backing + 'static> {
    inner: Inner<T>,
    offset: usize,
    len: usize,
}

impl<T: ?Sized + Backing + 'static> FigBuf<T> {
    /// The window lies inside its backing and both its ends are places where
    /// a window may end.
    #[verifier::type_invariant]
    pub closed spec fn inv(&self) -> bool {
        &&& self.offset + self.len <= self.inner.store().extent()
        &&& self.offset + self.len <= usize::MAX
        &&& self.inner.store().on_boundary(self.offset as int)
        &&& self.inner.store().on_boundary(self.offset + self.len)
    }

    /// Whether the backing is borrowed for the life of the program.
    pub closed spec fn immortal(&self) -> bool {
        self.inner is Static
    }

    /// Where the window starts in its backing.
    pub closed spec fn start(&self) -> nat {
        self.offset as nat
    }

    /// How many units the window spans.
    pub closed spec fn span(&self) -> nat {
        self.len as nat
    }

    /// The window `start..end` of this window, on the same backing.
    pub closed spec fn sub(&self, start: int, end: int) -> Self {
        FigBuf {
            inner: self.inner,
            offset: (self.offset + start) as usize,
            len: (end - start) as usize,
        }
    }
}

impl<T: ?Sized + Backing + 'static> FigBuf<T> {
    /// Slicing composes: the window `inner` of the window `outer` of a
    /// window is the window `compose(outer, inner)` of that window: the same
    /// backing, the same start, the same span.
    pub proof fn lemma_slice_compose(&self, outer: (int, int), inner: (int, int))
        requires
            self.inv(),
            in_bounds(outer.0, outer.1, self.span() as int),
            in_bounds(inner.0, inner.1, outer.1 - outer.0),
        ensures
            self.sub(outer.0, outer.1).sub(inner.0, inner.1) == self.sub(
                compose(outer, inner).0,
                compose(outer, inner).1,
            ),
            in_bounds(compose(outer, inner).0, compose(outer, inner).1, self.span() as int),
    {
        lemma_compose_in_bounds(outer, inner, self.span() as int);
    }

    /// A window keeps its backing, and whether that backing is immortal,
    /// under slicing; its start moves by the start of the range.
    pub proof fn lemma_sub_same_backing(&self, start: int, end: int)
        requires
            self.inv(),
            in_bounds(start, end, self.span() as int),
        ensures
            self.sub(start, end).immortal() == self.immortal(),
            self.sub(start, end).start() == self.start() + start,
            self.sub(start, end).span() == end - start,
    {
    }
}

/// The share count that a shared backing reports for `holders` holders: their
/// number, kept below the sentinel `usize::MAX`, which stands for an immortal
/// backing and for nothing else.
pub open spec fn below_sentinel(holders: int) -> int {
    if holders >= usize::MAX {
        usize::MAX - 1
    } else {
        holders
    }
}

/// The share count that a shared backing reports, from the number of its
/// holders as it was read.
pub fn shared_count(holders: usize) -> (n: usize)
    ensures
        n == below_sentinel(holders as int),
{
    if holders == usize::MAX {
        usize::MAX - 1
    } else {
        holders
    }
}

/// Whether a window must be given a backing of its own before it can be
/// written through: when its backing is immortal, when the window does not
/// span the whole backing, or when the share count is above one.
pub open spec fn must_copy(immortal: bool, start: int, span: int, extent: int, count: int) -> bool {
    immortal || start != 0 || span != extent || count > 1
}

/// Decides, from what was observed of a window and its backing, whether the
/// window must be copied before it is written through. `count` is the share
/// count as it was read; the decision is made for whatever it was.
pub fn needs_copy(immortal: bool, start: usize, span: usize, extent: usize, count: usize) -> (b:
    bool)
    ensures
        b == must_copy(immortal, start as int, span as int, extent as int, count as int),
{
    immortal || start != 0 || span != extent || count > 1
}

/// What a window gets of the access that its backing gave: where the whole
/// of the data was given for writing, the part `offset..offset + len` of it;
/// where nothing was given, nothing. The rest of the data stays as it is.
pub fn granted_window<'a, T>(granted: Option<&'a mut [T]>, offset: usize, len: usize) -> (r:
    Option<&'a mut [T]>)
    requires
        granted matches Some(whole) ==> offset + len <= whole@.len(),
    ensures
        r is Some <==> granted is Some,
        granted matches Some(whole) ==> r matches Some(m) && {
            &&& m@ == whole@.subrange(offset as int, offset + len)
            &&& final(m)@.len() == len
            &&& final(whole)@ == whole@.subrange(0, offset as int) + final(m)@ + whole@.subrange(
                offset + len,
                whole@.len() as int,
            )
        },
    no_unwind
{
    match granted {
        Some(whole) => {
            proof {
                assert(whole@.len() == vstd::slice::spec_slice_len(&*whole));
            }
            Some(part_mut(whole, offset, offset + len))
        },
        None => None,
    }
}

/// The part `offset..offset + len` of the shared data, for writing, when no
/// other holder is on it.
fn window_mut<T>(inner: &mut Inner<[T]>, offset: usize, len: usize) -> (r: Option<&mut [T]>)
    requires
        offset + len <= old(inner).store()@.len(),
        offset + len <= usize::MAX,
    ensures
        (*old(inner)) is Static ==> r is None,
        r is None ==> *final(inner) == *old(inner),
        r matches Some(m) ==> {
            &&& (*final(inner)) is Arc
            &&& m@ == old(inner).store()@.subrange(offset as int, offset + len)
            &&& final(m)@.len() == len
            &&& final(inner).store()@ == old(inner).store()@.subrange(0, offset as int) + final(
                m
            )@ + old(inner).store()@.subrange(offset + len, old(inner).store()@.len() as int)
        },
    no_unwind
{
    match inner {
        Inner::Static(_) => None,
        Inner::Arc(arc) => granted_window(sole_holder_mut(arc), offset, len),
    }
}

/// All of the shared data, for writing, after leaving any other holder
/// behind. An immortal backing has no such access.
fn whole_mut<T: Copy>(inner: &mut Inner<[T]>) -> (r: Option<&mut [T]>)
    ensures
        r is None <==> (*old(inner)) is Static,
        r is None ==> *final(inner) == *old(inner),
        r matches Some(m) ==> {
            &&& (*final(inner)) is Arc
            &&& m@ == old(inner).store()@
            &&& final(m)@.len() == m@.len()
            &&& final(inner).store()@ == final(m)@
        },
    no_unwind
{
    match inner {
        Inner::Static(_) => None,
        Inner::Arc(arc) => Some(unshared_mut(arc)),
    }
}

impl<T: 'static> View for FigBuf<[T]> {
    type V = Seq<T>;

    closed spec fn view(&self) -> Seq<T> {
        self.inner.store()@.subrange(self.offset as int, self.offset + self.len)
    }
}

impl<T: 'static> FigBuf<[T]> {
    /// All the elements of the backing, inside the window or not.
    pub closed spec fn backing(&self) -> Seq<T> {
        self.inner.store()@
    }

    /// The window of a valid window is the part of its backing that starts
    /// at `start()` and spans `span()` elements.
    pub proof fn lemma_view(&self)
        requires
            self.inv(),
        ensures
            self@.len() == self.span(),
            self.start() + self.span() <= self.backing().len(),
            self@ == self.backing().subrange(
                self.start() as int,
                (self.start() + self.span()) as int,
            ),
    {
    }

    /// Reading a sub-window gives the same elements as taking the range out
    /// of what the window reads, and the sub-window is a valid window on the
    /// same backing.
    pub proof fn lemma_sub_view(&self, start: int, end: int)
        requires
            self.inv(),
            in_bounds(start, end, self@.len() as int),
        ensures
            self.sub(start, end).inv(),
            self.sub(start, end)@ == self@.subrange(start, end),
            self.sub(start, end).backing() == self.backing(),
    {
        assert(self.sub(start, end)@ =~= self@.subrange(start, end));
    }

    /// Moves `vec` into a new shared backing and returns the window onto all
    /// of it.
    pub fn from_vec(vec: Vec<T>) -> (r: Self)
        ensures
            r@ == vec@,
            r.backing() == vec@,
            r.start() == 0,
            !r.immortal(),
    {
        let len = vec.len();
        let r = FigBuf { inner: Inner::Arc(share_vec(vec)), offset: 0, len };
        assert(r@ =~= vec@);
        r
    }

    /// Moves `slice` into a new shared backing and returns the window onto
    /// all of it.
    pub fn from_boxed_slice(slice: Box<[T]>) -> (r: Self)
        ensures
            r@ == slice@,
            r.backing() == slice@,
            r.start() == 0,
            !r.immortal(),
    {
        let len = slice.len();
        let ghost data = slice@;
        let r = FigBuf { inner: Inner::Arc(share_boxed(slice)), offset: 0, len };
        assert(r@ =~= data);
        r
    }

    /// The window onto all of `slice`, with no allocation and no counting.
    pub fn from_static(slice: &'static [T]) -> (r: Self)
        ensures
            r@ == slice@,
            r.backing() == slice@,
            r.start() == 0,
            r.immortal(),
    {
        let r = FigBuf { inner: Inner::Static(slice), offset: 0, len: slice.len() };
        assert(r@ =~= slice@);
        r
    }

    /// The number of elements in the window.
    pub fn len(&self) -> (n: usize)
        ensures
            n == self@.len(),
    {
        proof {
            use_type_invariant(self);
        }
        self.len
    }

    /// Whether the window is empty.
    pub fn is_empty(&self) -> (b: bool)
        ensures
            b <==> self@.len() == 0,
    {
        proof {
            use_type_invariant(self);
        }
        self.len == 0
    }

    /// The elements of the window.
    pub fn as_slice(&self) -> (s: &[T])
        ensures
            s@ == self@,
    {
        proof {
            use_type_invariant(self);
        }
        let whole: &[T] = match &self.inner {
            Inner::Static(s) => s,
            Inner::Arc(arc) => &**arc,
        };
        vstd::slice::slice_subrange(whole, self.offset, self.offset + self.len)
    }

    /// The number of elements in the backing.
    fn extent(&self) -> (n: usize)
        ensures
            n == self.backing().len(),
    {
        match &self.inner {
            Inner::Static(s) => s.len(),
            Inner::Arc(arc) => arc.len(),
        }
    }

    /// The window `range` of this window, on the same backing: nothing is
    /// copied. The bounds are relative to this window, not to the backing. The
    /// range must lie in the window; [`FigBuf::try_slice`] takes any range.
    pub fn slice(&self, range: Range<usize>) -> (v: Self)
        requires
            in_bounds(range.start as int, range.end as int, self@.len() as int),
        ensures
            v == self.sub(range.start as int, range.end as int),
            v@ == self@.subrange(range.start as int, range.end as int),
            v.backing() == self.backing(),
            v.start() == self.start() + range.start,
            v.immortal() == self.immortal(),
    {
        proof {
            use_type_invariant(self);
        }
        let v = FigBuf {
            inner: self.inner.clone(),
            offset: self.offset + range.start,
            len: range.end - range.start,
        };
        assert(v@ =~= self@.subrange(range.start as int, range.end as int));
        v
    }

    /// The window `range` of this window where the range lies in the window,
    /// and why not where it does not: a range that starts after it ends is
    /// reported before one that ends past the window.
    pub fn try_slice(&self, range: Range<usize>) -> (r: Result<Self, SliceError>)
        ensures
            r is Ok <==> in_bounds(range.start as int, range.end as int, self@.len() as int),
            r matches Ok(v) ==> {
                &&& v == self.sub(range.start as int, range.end as int)
                &&& v@ == self@.subrange(range.start as int, range.end as int)
                &&& v.backing() == self.backing()
                &&& v.start() == self.start() + range.start
                &&& v.immortal() == self.immortal()
            },
            r matches Err(e) ==> bounds_error(
                range.start as int,
                range.end as int,
                self@.len() as int,
            ) == Some(e),
    {
        match check_bounds(range.start, range.end, self.len()) {
            Err(e) => Err(e),
            Ok(()) => Ok(self.slice(range)),
        }
    }

    /// The elements of the window, for writing, if and only if the backing
    /// is shared and this window is its only holder. An immortal backing is
    /// never written; a backing with other holders would show them the
    /// change. `None` is an ordinary answer, and leaves the window as it was.
    pub fn get_mut(&mut self) -> (r: Option<&mut [T]>)
        ensures
            old(self).immortal() ==> r is None,
            r is None ==> *final(self) == *old(self),
            r matches Some(m) ==> {
                &&& m@ == old(self)@
                &&& final(m)@.len() == m@.len()
                &&& final(self)@ == final(m)@
                &&& final(self).start() == old(self).start()
                &&& !final(self).immortal()
                &&& final(self).backing() == old(self).backing().subrange(
                    0,
                    old(self).start() as int,
                ) + final(m)@ + old(self).backing().subrange(
                    (old(self).start() + old(self)@.len()) as int,
                    old(self).backing().len() as int,
                )
            },
    {
        proof {
            use_type_invariant(&*self);
        }
        let offset = self.offset;
        let len = self.len;
        window_mut(&mut self.inner, offset, len)
    }

    /// The same as [`FigBuf::get_mut`].
    pub fn try_mut(&mut self) -> (r: Option<&mut [T]>)
        ensures
            old(self).immortal() ==> r is None,
            r is None ==> *final(self) == *old(self),
            r matches Some(m) ==> {
                &&& m@ == old(self)@
                &&& final(m)@.len() == m@.len()
                &&& final(self)@ == final(m)@
                &&& final(self).start() == old(self).start()
                &&& !final(self).immortal()
                &&& final(self).backing() == old(self).backing().subrange(
                    0,
                    old(self).start() as int,
                ) + final(m)@ + old(self).backing().subrange(
                    (old(self).start() + old(self)@.len()) as int,
                    old(self).backing().len() as int,
                )
            },
    {
        self.get_mut()
    }

    /// The elements of the window, for writing, always. Where the backing is
    /// immortal, is not spanned whole by the window, or has another holder,
    /// the window first moves to a new backing that holds a copy of exactly
    /// its own elements; the old backing is left as it was.
    pub fn make_mut(&mut self) -> (m: &mut [T]) where T: Copy
        ensures
            m@ == old(self)@,
            final(m)@.len() == m@.len(),
            final(self)@ == final(m)@,
            final(self).backing() == final(m)@,
            final(self).start() == 0,
            !final(self).immortal(),
    {
        proof {
            use_type_invariant(&*self);
        }
        let copy = needs_copy(
            self.is_static(),
            self.offset,
            self.len,
            self.extent(),
            self.ref_count(),
        );
        if copy {
            let own = vstd::slice::slice_to_vec(self.as_slice());
            *self = Self::from_vec(own);
        }
        proof {
            use_type_invariant(&*self);
        }
        let r = whole_mut(&mut self.inner);
        r.unwrap()
    }

    /// The share count: how many windows hold the backing, or `usize::MAX`
    /// for an immortal backing, which is never exclusively owned. The
    /// sentinel is reported for an immortal backing alone.
    pub fn ref_count(&self) -> (n: usize)
        ensures
            self.immortal() ==> n == usize::MAX,
            !self.immortal() ==> 1 <= n < usize::MAX,
    {
        match &self.inner {
            Inner::Static(_) => usize::MAX,
            Inner::Arc(arc) => shared_count(holders(arc)),
        }
    }

    /// Whether the backing is borrowed for the life of the program.
    pub fn is_static(&self) -> (b: bool)
        ensures
            b == self.immortal(),
    {
        match &self.inner {
            Inner::Static(_) => true,
            Inner::Arc(_) => false,
        }
    }
}

/// Why bytes could not be written into a window.
#[derive(Clone, Copy, Debug, PartialEq, Eq, Structural)]
pub enum WriteError {
    /// The window is empty: there is no room for even one byte.
    WriteZero,
    /// The window is not the only holder of a shared backing.
    PermissionDenied,
}

/// The smaller of two lengths.
pub open spec fn shorter(a: int, b: int) -> int {
    if a <= b {
        a
    } else {
        b
    }
}

/// Writes over the front of what a window was given for writing: copies as
/// many bytes of `buf` as the window has room for and returns how many they
/// were. Where the window was given nothing, nothing is written and the
/// refusal is handed on.
pub fn write_granted(granted: Option<&mut [u8]>, buf: &[u8]) -> (r: Result<usize, WriteError>)
    ensures
        granted is None ==> r == Err::<usize, WriteError>(WriteError::PermissionDenied),
        granted matches Some(window) ==> {
            &&& r matches Ok(n)
            &&& n == shorter(buf@.len() as int, window@.len() as int)
            &&& final(window)@ == buf@.subrange(0, n as int) + window@.subrange(
                n as int,
                window@.len() as int,
            )
        },
{
    match granted {
        Some(window) => {
            let n = if buf.len() <= window.len() {
                buf.len()
            } else {
                window.len()
            };
            copy_prefix(window, buf, n);
            Ok(n)
        },
        None => Err(WriteError::PermissionDenied),
    }
}

impl FigBuf<[u8]> {
    /// Reads from the front of the window: copies as many bytes as fit into
    /// the front of `buf`, moves the start of the window past them, and
    /// returns how many they were.
    pub fn read(&mut self, buf: &mut [u8]) -> (n: usize)
        ensures
            n == shorter(old(buf)@.len() as int, old(self)@.len() as int),
            final(buf)@ == old(self)@.subrange(0, n as int) + old(buf)@.subrange(
                n as int,
                old(buf)@.len() as int,
            ),
            *final(self) == old(self).sub(n as int, old(self)@.len() as int),
            final(self)@ == old(self)@.subrange(n as int, old(self)@.len() as int),
    {
        let data = self.as_slice();
        let n = if buf.len() <= data.len() {
            buf.len()
        } else {
            data.len()
        };
        copy_prefix(buf, data, n);
        *self = self.slice(n..self.len());
        n
    }

    /// Writes over the front of the window: copies as many bytes of `buf`
    /// as the window has room for, and returns how many they were. An empty
    /// window takes nothing, and a window that is not the only holder of a
    /// shared backing is not written; either way the window stays as it was.
    pub fn write(&mut self, buf: &[u8]) -> (r: Result<usize, WriteError>)
        ensures
            old(self)@.len() == 0 ==> r == Err::<usize, WriteError>(WriteError::WriteZero),
            old(self)@.len() > 0 && old(self).immortal() ==> r == Err::<usize, WriteError>(
                WriteError::PermissionDenied,
            ),
            r matches Err(e) ==> {
                &&& *final(self) == *old(self)
                &&& e == WriteError::WriteZero <==> old(self)@.len() == 0
            },
            r matches Ok(n) ==> {
                &&& n == shorter(buf@.len() as int, old(self)@.len() as int)
                &&& final(self)@ == buf@.subrange(0, n as int) + old(self)@.subrange(
                    n as int,
                    old(self)@.len() as int,
                )
                &&& final(self).start() == old(self).start()
                &&& !final(self).immortal()
            },
    {
        let available = self.len();
        if available == 0 {
            return Err(WriteError::WriteZero);
        }
        write_granted(self.try_mut(), buf)
    }

    /// Nothing is held back by a window, so there is nothing to flush.
    pub fn flush(&mut self)
        ensures
            *final(self) == *old(self),
    {
    }
}

impl<T: 'static> Clone for FigBuf<[T]> {
    /// Another window, identical to this one, on the same backing.
    fn clone(&self) -> (r: Self)
        ensures
            r == *self,
    {
        proof {
            use_type_invariant(self);
        }
        FigBuf { inner: self.inner.clone(), offset: self.offset, len: self.len }
    }
}

/// What a window of text gets of the access that its backing gave: where
/// the whole of the text was given for writing, the part
/// `offset..offset + len` of it; where nothing was given, nothing. The rest
/// of the text stays as it is, and the part still starts and ends between
/// characters whatever is written into it.
pub fn granted_text_window<'a>(granted: Option<&'a mut str>, offset: usize, len: usize) -> (r:
    Option<&'a mut str>)
    requires
        granted matches Some(whole) ==> offset + len <= usize::MAX && char_window(
            whole.spec_bytes(),
            offset as int,
            offset + len,
        ),
    ensures
        r is Some <==> granted is Some,
        granted matches Some(whole) ==> r matches Some(m) && {
            &&& m.spec_bytes() == whole.spec_bytes().subrange(offset as int, offset + len)
            &&& final(m).spec_bytes().len() == len
            &&& decode_utf8(final(m).spec_bytes()) == final(m)@
            &&& final(whole).spec_bytes().subrange(offset as int, offset + len) == final(
                m
            ).spec_bytes()
            &&& char_window(final(whole).spec_bytes(), offset as int, offset + len)
            &&& final(whole).spec_bytes() == whole.spec_bytes().subrange(0, offset as int)
                + final(m).spec_bytes() + whole.spec_bytes().subrange(
                offset + len,
                whole.spec_bytes().len() as int,
            )
        },
    no_unwind
{
    match granted {
        Some(whole) => {
            let ghost before = whole.spec_bytes();
            let ghost text = whole@;
            let part = text_part_mut(whole, offset, offset + len);
            proof {
                encode_utf8_valid_utf8(text);
                encode_utf8_valid_utf8(final(part)@);
                encode_utf8_decode_utf8(final(part)@);
                assert((before.subrange(0, offset as int) + final(part).spec_bytes()
                    + before.subrange(offset + len, before.len() as int)).subrange(
                    offset as int,
                    offset + len,
                ) =~= final(part).spec_bytes());
                lemma_replace_window(
                    before,
                    offset as int,
                    offset + len,
                    final(part).spec_bytes(),
                );
            }
            Some(part)
        },
        None => None,
    }
}

/// The part `offset..offset + len` of the shared text, for writing, when no
/// other holder is on it.
fn text_window_mut(inner: &mut Inner<str>, offset: usize, len: usize) -> (r: Option<&mut str>)
    requires
        char_window(old(inner).store().spec_bytes(), offset as int, offset + len),
        offset + len <= usize::MAX,
    ensures
        (*old(inner)) is Static ==> r is None,
        r is None ==> *final(inner) == *old(inner),
        r matches Some(m) ==> {
            &&& (*final(inner)) is Arc
            &&& m.spec_bytes() == old(inner).store().spec_bytes().subrange(
                offset as int,
                offset + len,
            )
            &&& final(m).spec_bytes().len() == len
            &&& decode_utf8(final(m).spec_bytes()) == final(m)@
            &&& final(inner).store().spec_bytes().subrange(offset as int, offset + len) == final(
                m
            ).spec_bytes()
            &&& char_window(final(inner).store().spec_bytes(), offset as int, offset + len)
            &&& final(inner).store().spec_bytes() == old(inner).store().spec_bytes().subrange(
                0,
                offset as int,
            ) + final(m).spec_bytes() + old(inner).store().spec_bytes().subrange(
                offset + len,
                old(inner).store().spec_bytes().len() as int,
            )
        },
    no_unwind
{
    match inner {
        Inner::Static(_) => None,
        Inner::Arc(arc) => granted_text_window(sole_holder_mut(arc), offset, len),
    }
}

/// All of the shared text, for writing, after leaving any other holder
/// behind. An immortal backing has no such access.
fn whole_text_mut(inner: &mut Inner<str>) -> (r: Option<&mut str>)
    ensures
        r is None <==> (*old(inner)) is Static,
        r is None ==> *final(inner) == *old(inner),
        r matches Some(m) ==> {
            &&& (*final(inner)) is Arc
            &&& m@ == old(inner).store()@
            &&& final(m).spec_bytes().len() == m.spec_bytes().len()
            &&& decode_utf8(final(m).spec_bytes()) == final(m)@
            &&& final(inner).store()@ == final(m)@
            &&& final(inner).store().spec_bytes().subrange(0, m.spec_bytes().len() as int)
                == final(m).spec_bytes()
            &&& char_window(
                final(inner).store().spec_bytes(),
                0,
                m.spec_bytes().len() as int,
            )
        },
    no_unwind
{
    match inner {
        Inner::Static(_) => None,
        Inner::Arc(arc) => {
            let whole = unshared_text_mut(arc);
            proof {
                encode_utf8_valid_utf8(final(whole)@);
                encode_utf8_decode_utf8(final(whole)@);
                is_char_boundary_start_end_of_seq(final(whole).spec_bytes());
                assert(final(whole).spec_bytes().subrange(0, whole.spec_bytes().len() as int)
                    =~= final(whole).spec_bytes());
            }
            Some(whole)
        },
    }
}

impl View for FigBuf<str> {
    type V = Seq<char>;

    closed spec fn view(&self) -> Seq<char> {
        decode_utf8(self.bytes())
    }
}

impl FigBuf<str> {
    /// All the bytes of the backing, inside the window or not.
    pub closed spec fn backing_bytes(&self) -> Seq<u8> {
        self.inner.store().spec_bytes()
    }

    /// The bytes of the window: the UTF-8 encoding of its text.
    pub closed spec fn bytes(&self) -> Seq<u8> {
        self.inner.store().spec_bytes().subrange(self.offset as int, self.offset + self.len)
    }

    /// The bytes of a window are the encoding of its text, and the window
    /// starts and ends between characters of its backing.
    pub proof fn lemma_text(&self)
        requires
            self.inv(),
        ensures
            valid_utf8(self.backing_bytes()),
            valid_utf8(self.bytes()),
            self.bytes() == encode_utf8(self@),
            char_window(
                self.backing_bytes(),
                self.start() as int,
                (self.start() + self.span()) as int,
            ),
            self.bytes() == self.backing_bytes().subrange(
                self.start() as int,
                (self.start() + self.span()) as int,
            ),
    {
        encode_utf8_valid_utf8(self.inner.store()@);
        lemma_window(self.backing_bytes(), self.offset as int, self.offset + self.len, 0);
        decode_utf8_encode_utf8(self.bytes());
    }

    /// A sub-window of text between two character boundaries is a valid
    /// window on the same backing, and its bytes are that range of the
    /// window's bytes.
    pub proof fn lemma_sub_text(&self, start: int, end: int)
        requires
            self.inv(),
            text_range_error(self.bytes(), start, end) is None,
        ensures
            self.sub(start, end).inv(),
            self.sub(start, end).bytes() == self.bytes().subrange(start, end),
            self.sub(start, end).backing_bytes() == self.backing_bytes(),
    {
        self.lemma_text();
        let whole = self.backing_bytes();
        lemma_window(whole, self.offset as int, self.offset + self.len, start);
        lemma_window(whole, self.offset as int, self.offset + self.len, end);
        assert(self.sub(start, end).bytes() =~= self.bytes().subrange(start, end));
    }

    /// Text slicing accepts the whole window, and the empty range at every
    /// character boundary of the window.
    pub proof fn lemma_whole_and_empty_ranges(&self, at: int)
        requires
            self.inv(),
        ensures
            text_range_error(self.bytes(), 0, self.bytes().len() as int) is None,
            is_char_boundary(self.bytes(), at) ==> text_range_error(self.bytes(), at, at)
                is None,
    {
        self.lemma_text();
        is_char_boundary_start_end_of_seq(self.bytes());
    }

    /// Ranges that text slicing accepts one after the other are accepted
    /// composed: a character boundary of a sub-window is one of the window.
    pub proof fn lemma_text_compose(&self, outer: (int, int), inner: (int, int))
        requires
            self.inv(),
            text_range_error(self.bytes(), outer.0, outer.1) is None,
            text_range_error(self.sub(outer.0, outer.1).bytes(), inner.0, inner.1) is None,
        ensures
            text_range_error(
                self.bytes(),
                compose(outer, inner).0,
                compose(outer, inner).1,
            ) is None,
            self.sub(outer.0, outer.1).sub(inner.0, inner.1) == self.sub(
                compose(outer, inner).0,
                compose(outer, inner).1,
            ),
    {
        self.lemma_text();
        self.lemma_sub_text(outer.0, outer.1);
        self.sub(outer.0, outer.1).lemma_text();
        let bytes = self.bytes();
        lemma_window(bytes, outer.0, outer.1, inner.0);
        lemma_window(bytes, outer.0, outer.1, inner.1);
    }

    /// Moves `s` into a new shared backing and returns the window onto all
    /// of it. The bytes are those of `s`, which are well-formed text as they
    /// stand, so nothing is checked or copied again.
    pub fn from_string(s: String) -> (r: Self)
        ensures
            r@ == s@,
            r.bytes() == encode_utf8(s@),
            r.backing_bytes() == r.bytes(),
            r.start() == 0,
            !r.immortal(),
    {
        let len = s.as_str().as_bytes().len();
        proof {
            encode_utf8_valid_utf8(s@);
            is_char_boundary_start_end_of_seq(encode_utf8(s@));
            encode_utf8_decode_utf8(s@);
        }
        let r = FigBuf { inner: Inner::Arc(share_text(s)), offset: 0, len };
        assert(r.bytes() =~= encode_utf8(s@));
        r
    }

    /// The window onto all of `s`, with no allocation and no counting.
    pub fn from_static(s: &'static str) -> (r: Self)
        ensures
            r@ == s@,
            r.bytes() == encode_utf8(s@),
            r.backing_bytes() == r.bytes(),
            r.start() == 0,
            r.immortal(),
    {
        let len = s.as_bytes().len();
        proof {
            encode_utf8_valid_utf8(s@);
            is_char_boundary_start_end_of_seq(encode_utf8(s@));
            encode_utf8_decode_utf8(s@);
        }
        let r = FigBuf { inner: Inner::Static(s), offset: 0, len };
        assert(r.bytes() =~= encode_utf8(s@));
        r
    }

    /// The number of bytes in the backing.
    fn extent(&self) -> (n: usize)
        ensures
            n == self.backing_bytes().len(),
    {
        match &self.inner {
            Inner::Static(s) => s.as_bytes().len(),
            Inner::Arc(arc) => arc.as_bytes().len(),
        }
    }

    /// The length of the window, in bytes.
    pub fn len(&self) -> (n: usize)
        ensures
            n == self.bytes().len(),
    {
        proof {
            use_type_invariant(self);
        }
        self.len
    }

    /// Whether the window is empty.
    pub fn is_empty(&self) -> (b: bool)
        ensures
            b <==> self.bytes().len() == 0,
    {
        proof {
            use_type_invariant(self);
        }
        self.len == 0
    }

    /// The window `range` of this window, on the same backing: nothing is
    /// copied. The bounds are byte indices relative to this window. The range
    /// must lie in the window and start and end between characters of its
    /// text; [`FigBuf::try_slice`] takes any range.
    pub fn slice(&self, range: Range<usize>) -> (v: Self)
        requires
            text_range_error(self.bytes(), range.start as int, range.end as int) is None,
        ensures
            v == self.sub(range.start as int, range.end as int),
            v.bytes() == self.bytes().subrange(range.start as int, range.end as int),
            v.backing_bytes() == self.backing_bytes(),
            v.start() == self.start() + range.start,
            v.immortal() == self.immortal(),
    {
        proof {
            use_type_invariant(self);
            self.lemma_text();
            let whole = self.backing_bytes();
            let from = self.offset as int;
            let to = self.offset + self.len;
            lemma_window(whole, from, to, range.start as int);
            lemma_window(whole, from, to, range.end as int);
        }
        let v = FigBuf {
            inner: self.inner.clone(),
            offset: self.offset + range.start,
            len: range.end - range.start,
        };
        assert(v.bytes() =~= self.bytes().subrange(range.start as int, range.end as int));
        v
    }

    /// The window `range` of this window where the range lies in the window
    /// and starts and ends between characters, and why not where it does
    /// not: the bounds are judged first, then the start, then the end.
    pub fn try_slice(&self, range: Range<usize>) -> (r: Result<Self, SliceError>)
        ensures
            r is Ok <==> text_range_error(self.bytes(), range.start as int, range.end as int)
                is None,
            r matches Ok(v) ==> {
                &&& v == self.sub(range.start as int, range.end as int)
                &&& v.bytes() == self.bytes().subrange(range.start as int, range.end as int)
                &&& v.backing_bytes() == self.backing_bytes()
                &&& v.start() == self.start() + range.start
                &&& v.immortal() == self.immortal()
            },
            r matches Err(e) ==> text_range_error(
                self.bytes(),
                range.start as int,
                range.end as int,
            ) == Some(e),
    {
        match check_text_range(self.as_str(), range.start, range.end) {
            Err(e) => Err(e),
            Ok(()) => Ok(self.slice(range)),
        }
    }

    /// The text of the window.
    pub fn as_str(&self) -> (s: &str)
        ensures
            s@ == self@,
            s.spec_bytes() == self.bytes(),
    {
        let whole: &str = match &self.inner {
            Inner::Static(s) => s,
            Inner::Arc(arc) => &**arc,
        };
        proof {
            use_type_invariant(self);
            self.lemma_text();
            lemma_prefix(whole.spec_bytes(), self.offset + self.len, self.offset as int);
        }
        let (head, _) = whole.split_at(self.offset + self.len);
        let (_, window) = head.split_at(self.offset);
        proof {
            assert(window.spec_bytes() =~= self.bytes());
            encode_utf8_decode_utf8(window@);
        }
        window
    }

    /// The share count: how many windows hold the backing, or `usize::MAX`
    /// for an immortal backing, which is never exclusively owned. The
    /// sentinel is reported for an immortal backing alone.
    pub fn ref_count(&self) -> (n: usize)
        ensures
            self.immortal() ==> n == usize::MAX,
            !self.immortal() ==> 1 <= n < usize::MAX,
    {
        match &self.inner {
            Inner::Static(_) => usize::MAX,
            Inner::Arc(arc) => shared_count(holders(arc)),
        }
    }

    /// The text of the window, for writing, if and only if the backing is
    /// shared and this window is its only holder. `None` is an ordinary
    /// answer, and leaves the window as it was.
    pub fn try_mut(&mut self) -> (r: Option<&mut str>)
        ensures
            old(self).immortal() ==> r is None,
            r is None ==> *final(self) == *old(self),
            r matches Some(m) ==> {
                &&& m@ == old(self)@
                &&& m.spec_bytes() == old(self).bytes()
                &&& final(m).spec_bytes().len() == m.spec_bytes().len()
                &&& final(self)@ == final(m)@
                &&& final(self).bytes() == final(m).spec_bytes()
                &&& final(self).start() == old(self).start()
                &&& !final(self).immortal()
                &&& final(self).backing_bytes() == old(self).backing_bytes().subrange(
                    0,
                    old(self).start() as int,
                ) + final(m).spec_bytes() + old(self).backing_bytes().subrange(
                    (old(self).start() + old(self).bytes().len()) as int,
                    old(self).backing_bytes().len() as int,
                )
            },
    {
        broadcast use encode_utf8_decode_utf8;

        proof {
            use_type_invariant(&*self);
            self.lemma_text();
        }
        let offset = self.offset;
        let len = self.len;
        text_window_mut(&mut self.inner, offset, len)
    }

    /// The text of the window, for writing, always. Where the backing is
    /// immortal, is not spanned whole by the window, or has another holder,
    /// the window first moves to a new backing that holds a copy of exactly
    /// its own text; the old backing is left as it was.
    pub fn make_mut(&mut self) -> (m: &mut str)
        ensures
            m@ == old(self)@,
            m.spec_bytes() == old(self).bytes(),
            final(m).spec_bytes().len() == m.spec_bytes().len(),
            final(self)@ == final(m)@,
            final(self).bytes() == final(m).spec_bytes(),
            final(self).backing_bytes() == final(m).spec_bytes(),
            final(self).start() == 0,
            !final(self).immortal(),
    {
        proof {
            use_type_invariant(&*self);
            self.lemma_text();
        }
        let copy = needs_copy(
            self.is_static(),
            self.offset,
            self.len,
            self.extent(),
            self.ref_count(),
        );
        if copy {
            let own = self.as_str().to_owned();
            *self = Self::from_string(own);
        }
        proof {
            use_type_invariant(&*self);
            self.lemma_text();
            assert(self.bytes() =~= self.backing_bytes());
            encode_utf8_decode_utf8(self.inner.store()@);
        }
        let r = whole_text_mut(&mut self.inner);
        r.unwrap()
    }

    /// Whether the backing is borrowed for the life of the program.
    pub fn is_static(&self) -> (b: bool)
        ensures
            b == self.immortal(),
    {
        match &self.inner {
            Inner::Static(_) => true,
            Inner::Arc(_) => false,
        }
    }
}

impl Clone for FigBuf<str> {
    /// Another window, identical to this one, on the same backing.
    fn clone(&self) -> (r: Self)
        ensures
            r == *self,
    {
        proof {
            use_type_invariant(self);
        }
        FigBuf { inner: self.inner.clone(), offset: self.offset, len: self.len }
    }
}

} // verus!
