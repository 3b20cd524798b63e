//! A byte buffer with the familiar splitting operations, laid over
//! [`FigBuf`]. It adds no rule of its own: every operation is a window
//! operation under another name.

use crate::buf::FigBuf;
use crate::range::{bounds_error, in_bounds, SliceError};
use std::ops::Range;
use vstd::prelude::*;

verus! {

/// A shared, sliceable sequence of bytes.
pub struct Bytes {
    inner: FigBuf<[u8]>,
}

impl View for Bytes {
    type V = Seq<u8>;

    closed spec fn view(&self) -> Seq<u8> {
        self.inner@
    }
}

impl Bytes {
    /// The window that holds the bytes.
    pub closed spec fn window(&self) -> FigBuf<[u8]> {
        self.inner
    }

    /// The bytes are those of the window underneath.
    pub proof fn lemma_window_view(&self)
        ensures
            self@ == self.window()@,
    {
    }

    /// The buffer over the window `inner`.
    fn wrap(inner: FigBuf<[u8]>) -> (r: Self)
        ensures
            r.window() == inner,
            r@ == inner@,
    {
        Bytes { inner }
    }

    /// The bytes of `vec`, which becomes the shared backing.
    pub fn from_vec(vec: Vec<u8>) -> (r: Self)
        ensures
            r@ == vec@,
            !r.window().immortal(),
    {
        Self::wrap(FigBuf::from_vec(vec))
    }

    /// No bytes.
    pub fn new() -> (r: Self)
        ensures
            r@ == Seq::<u8>::empty(),
            !r.window().immortal(),
    {
        Self::wrap(FigBuf::from_vec(Vec::new()))
    }

    /// A copy of `bytes` in a new shared backing.
    pub fn from_static(bytes: &'static [u8]) -> (r: Self)
        ensures
            r@ == bytes@,
            !r.window().immortal(),
    {
        Self::wrap(FigBuf::from_vec(vstd::slice::slice_to_vec(bytes)))
    }

    /// The number of bytes.
    pub fn len(&self) -> (n: usize)
        ensures
            n == self@.len(),
    {
        self.inner.len()
    }

    /// Whether there are no bytes.
    pub fn is_empty(&self) -> (b: bool)
        ensures
            b <==> self@.len() == 0,
    {
        self.inner.is_empty()
    }

    /// The bytes `range` of these, on the same backing. The range must lie
    /// in the buffer; [`Bytes::try_slice`] takes any range.
    pub fn slice(&self, range: Range<usize>) -> (v: Self)
        requires
            in_bounds(range.start as int, range.end as int, self@.len() as int),
        ensures
            v@ == self@.subrange(range.start as int, range.end as int),
            v.window() == self.window().sub(range.start as int, range.end as int),
    {
        Self::wrap(self.inner.slice(range))
    }

    /// The bytes `range` of these where the range lies in the buffer, and
    /// why not where it does not.
    pub fn try_slice(&self, range: Range<usize>) -> (r: Result<Self, SliceError>)
        ensures
            r is Ok <==> in_bounds(range.start as int, range.end as int, self@.len() as int),
            r matches Ok(v) ==> {
                &&& v@ == self@.subrange(range.start as int, range.end as int)
                &&& v.window() == self.window().sub(range.start as int, range.end as int)
            },
            r matches Err(e) ==> bounds_error(
                range.start as int,
                range.end as int,
                self@.len() as int,
            ) == Some(e),
    {
        match self.inner.try_slice(range) {
            Ok(inner) => Ok(Self::wrap(inner)),
            Err(e) => Err(e),
        }
    }

    /// The bytes.
    pub fn as_slice(&self) -> (s: &[u8])
        ensures
            s@ == self@,
    {
        self.inner.as_slice()
    }

    /// The bytes as a vector, where this is the only holder of the backing;
    /// the buffer itself, unchanged, where it is not.
    pub fn try_into_vec(self) -> (r: Result<Vec<u8>, Self>)
        ensures
            r matches Ok(v) ==> v@ == self@,
            r matches Err(b) ==> b == self,
    {
        let mut inner = self.inner;
        let copy = match inner.get_mut() {
            Some(slice) => Some(vstd::slice::slice_to_vec(slice)),
            None => None,
        };
        match copy {
            Some(v) => Ok(v),
            None => Err(Bytes { inner }),
        }
    }

    /// A copy of the bytes.
    pub fn to_vec(&self) -> (v: Vec<u8>)
        ensures
            v@ == self@,
    {
        vstd::slice::slice_to_vec(self.inner.as_slice())
    }

    /// Splits at `at`: the bytes from `at` on are returned, the bytes before
    /// `at` stay. Both stay on the same backing.
    pub fn split_off(&mut self, at: usize) -> (right: Self)
        requires
            at <= old(self)@.len(),
        ensures
            final(self)@ == old(self)@.subrange(0, at as int),
            right@ == old(self)@.subrange(at as int, old(self)@.len() as int),
            final(self).window() == old(self).window().sub(0, at as int),
            right.window() == old(self).window().sub(at as int, old(self)@.len() as int),
    {
        let right = self.inner.slice(at..self.inner.len());
        self.inner = self.inner.slice(0..at);
        Self::wrap(right)
    }

    /// Splits at `at`: the bytes before `at` are returned, the bytes from
    /// `at` on stay. Both stay on the same backing.
    pub fn split_to(&mut self, at: usize) -> (left: Self)
        requires
            at <= old(self)@.len(),
        ensures
            left@ == old(self)@.subrange(0, at as int),
            final(self)@ == old(self)@.subrange(at as int, old(self)@.len() as int),
            left.window() == old(self).window().sub(0, at as int),
            final(self).window() == old(self).window().sub(at as int, old(self)@.len() as int),
    {
        let left = self.inner.slice(0..at);
        self.inner = self.inner.slice(at..self.inner.len());
        Self::wrap(left)
    }

    /// Keeps the first `len` bytes, on the same backing; keeps everything
    /// where there are no more than `len`.
    pub fn truncate(&mut self, len: usize)
        ensures
            len < old(self)@.len() ==> final(self)@ == old(self)@.subrange(0, len as int)
                && final(self).window() == old(self).window().sub(0, len as int),
            len >= old(self)@.len() ==> *final(self) == *old(self),
    {
        if len < self.len() {
            self.inner = self.inner.slice(0..len);
        }
    }

    /// Drops the bytes, and with them this buffer's hold on the backing.
    pub fn clear(&mut self)
        ensures
            final(self)@ == Seq::<u8>::empty(),
            !final(self).window().immortal(),
    {
        self.inner = FigBuf::from_vec(Vec::new());
    }
}

impl Clone for Bytes {
    /// Another buffer on the same backing.
    fn clone(&self) -> (r: Self)
        ensures
            r == *self,
    {
        Self::wrap(self.inner.clone())
    }
}

impl Default for Bytes {
    /// No bytes.
    fn default() -> (r: Self)
        ensures
            r@ == Seq::<u8>::empty(),
    {
        Self::new()
    }
}

} // verus!
