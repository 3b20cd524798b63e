//! Byte buffers and text that keep short payloads inline.
//!
//! A [`SmallFigBuf<N>`] holds up to `N` bytes in an array of its own and
//! falls back to a [`FigBuf`] for more. Which of the two it is, is decided
//! once, when the value is made.

use crate::boundary::lemma_window;
use crate::buf::FigBuf;
use crate::range::{
    bounds_error, check_bounds, check_text_range, in_bounds, text_range_error, SliceError,
};
use crate::std_specs::text_of;
use std::ops::Range;
use vstd::prelude::*;
use vstd::string::StringSliceAdditionalSpecFns;
use vstd::utf8::*;

verus! {

/// How a small buffer holds its bytes.
enum SmallInner<const N: usize> {
    /// In the value itself: the first `len` bytes of `data`.
    Inline { data: [u8; N], len: usize },
    /// In a window onto a backing.
    Heap(FigBuf<[u8]>),
}

/// A sequence of bytes that lives inline when it is at most `N` bytes long.
pub struct SmallFigBuf<const N: usize> {
    inner: SmallInner<N>,
}

/// Copies `src[start..end]` to the front of a fresh array.
fn inline_copy<const N: usize>(src: &[u8], start: usize, end: usize) -> (data: [u8; N])
    requires
        start <= end <= src@.len(),
        end - start <= N,
    ensures
        data@.subrange(0, end - start) == src@.subrange(start as int, end as int),
{
    let mut data = [0u8;N];
    let mut i: usize = 0;
    let n = end - start;
    while i < n
        invariant
            n == end - start,
            start <= end <= src@.len(),
            n <= N,
            i <= n,
            forall|j: int| 0 <= j < i ==> data@[j] == src@[start + j],
        decreases n - i,
    {
        data[i] = src[start + i];
        i += 1;
    }
    assert(data@.subrange(0, end - start) =~= src@.subrange(start as int, end as int));
    data
}

impl<const N: usize> View for SmallFigBuf<N> {
    type V = Seq<u8>;

    closed spec fn view(&self) -> Seq<u8> {
        match self.inner {
            SmallInner::Inline { data, len } => data@.subrange(0, len as int),
            SmallInner::Heap(buf) => buf@,
        }
    }
}

impl<const N: usize> SmallFigBuf<N> {
    /// An inline value never claims more bytes than the array holds.
    #[verifier::type_invariant]
    pub closed spec fn inv(&self) -> bool {
        match self.inner {
            SmallInner::Inline { data, len } => len <= N,
            SmallInner::Heap(_) => true,
        }
    }

    /// Whether the bytes are held inline.
    pub closed spec fn inline(&self) -> bool {
        self.inner is Inline
    }

    /// The window that holds the bytes of a value that is not inline.
    pub closed spec fn heap(&self) -> FigBuf<[u8]> {
        self.inner->Heap_0
    }

    /// An inline value holds at most `N` bytes.
    pub proof fn lemma_inline_fits(&self)
        requires
            self.inv(),
        ensures
            self.inline() ==> self@.len() <= N,
    {
    }

    /// The bytes of a value that is not inline are those of its window.
    pub proof fn lemma_heap_view(&self)
        requires
            !self.inline(),
        ensures
            self@ == self.heap()@,
    {
    }

    /// The empty buffer, inline.
    pub fn new() -> (r: Self)
        ensures
            r@ == Seq::<u8>::empty(),
            r.inline(),
    {
        let r = SmallFigBuf { inner: SmallInner::Inline { data: [0u8;N], len: 0 } };
        assert(r@ =~= Seq::<u8>::empty());
        r
    }

    /// A buffer with the bytes of `slice`: inline if there are at most `N`
    /// of them, in a new shared backing otherwise.
    pub fn from_slice(slice: &[u8]) -> (r: Self)
        ensures
            r@ == slice@,
            r.inline() <==> slice@.len() <= N,
            !r.inline() ==> {
                &&& !r.heap().immortal()
                &&& r.heap().start() == 0
                &&& r.heap().backing() == slice@
            },
    {
        if slice.len() <= N {
            let data = inline_copy(slice, 0, slice.len());
            let r = SmallFigBuf { inner: SmallInner::Inline { data, len: slice.len() } };
            assert(r@ =~= slice@);
            r
        } else {
            SmallFigBuf {
                inner: SmallInner::Heap(FigBuf::from_vec(vstd::slice::slice_to_vec(slice))),
            }
        }
    }

    /// A buffer onto `slice`, which lives as long as the program: never
    /// inline, however short, since there is no allocation to save.
    pub fn from_static(slice: &'static [u8]) -> (r: Self)
        ensures
            r@ == slice@,
            !r.inline(),
            r.heap().immortal(),
            r.heap().start() == 0,
            r.heap().backing() == slice@,
    {
        SmallFigBuf { inner: SmallInner::Heap(FigBuf::<[u8]>::from_static(slice)) }
    }

    /// A buffer with the bytes of `vec`: copied inline if there are at most
    /// `N` of them; otherwise `vec` itself becomes the shared backing.
    pub fn from_vec(vec: Vec<u8>) -> (r: Self)
        ensures
            r@ == vec@,
            r.inline() <==> vec@.len() <= N,
            !r.inline() ==> {
                &&& !r.heap().immortal()
                &&& r.heap().start() == 0
                &&& r.heap().backing() == vec@
            },
    {
        if vec.len() <= N {
            Self::from_slice(vec.as_slice())
        } else {
            SmallFigBuf { inner: SmallInner::Heap(FigBuf::from_vec(vec)) }
        }
    }

    /// The number of bytes.
    pub fn len(&self) -> (n: usize)
        ensures
            n == self@.len(),
    {
        proof {
            use_type_invariant(self);
        }
        match &self.inner {
            SmallInner::Inline { len, .. } => *len,
            SmallInner::Heap(buf) => buf.len(),
        }
    }

    /// Whether there are no bytes.
    pub fn is_empty(&self) -> (b: bool)
        ensures
            b <==> self@.len() == 0,
    {
        self.len() == 0
    }

    /// Whether the bytes are held inline, which at most `N` bytes can be.
    pub fn is_inline(&self) -> (b: bool)
        ensures
            b == self.inline(),
            b ==> self@.len() <= N,
    {
        proof {
            use_type_invariant(self);
        }
        match &self.inner {
            SmallInner::Inline { .. } => true,
            SmallInner::Heap(_) => false,
        }
    }

    /// Whether the bytes are held in a window onto a backing.
    pub fn is_heap(&self) -> (b: bool)
        ensures
            b == !self.inline(),
    {
        match &self.inner {
            SmallInner::Inline { .. } => false,
            SmallInner::Heap(_) => true,
        }
    }

    /// The bytes.
    pub fn as_slice(&self) -> (s: &[u8])
        ensures
            s@ == self@,
    {
        proof {
            use_type_invariant(self);
        }
        match &self.inner {
            SmallInner::Inline { data, len } => vstd::slice::slice_subrange(
                data.as_slice(),
                0,
                *len,
            ),
            SmallInner::Heap(buf) => buf.as_slice(),
        }
    }

    /// The bytes `range` of this buffer. An inline buffer gives an inline
    /// one, with the bytes copied; a window gives the narrower window on the
    /// same backing, with nothing copied. The range must lie in the buffer;
    /// [`SmallFigBuf::try_slice`] takes any range.
    pub fn slice(&self, range: Range<usize>) -> (v: Self)
        requires
            in_bounds(range.start as int, range.end as int, self@.len() as int),
        ensures
            v@ == self@.subrange(range.start as int, range.end as int),
            v.inline() == self.inline(),
            v.inline() ==> v@.len() <= N,
            !self.inline() ==> v.heap() == self.heap().sub(range.start as int, range.end as int),
    {
        proof {
            use_type_invariant(self);
        }
        match &self.inner {
            SmallInner::Inline { data, len } => {
                let part = inline_copy(data.as_slice(), range.start, range.end);
                let v = SmallFigBuf {
                    inner: SmallInner::Inline { data: part, len: range.end - range.start },
                };
                assert(v@ =~= self@.subrange(range.start as int, range.end as int));
                v
            },
            SmallInner::Heap(buf) => SmallFigBuf { inner: SmallInner::Heap(buf.slice(range)) },
        }
    }

    /// The bytes `range` of this buffer where the range lies in the buffer,
    /// and why not where it does not: a range that starts after it ends is
    /// reported before one that ends past the buffer.
    pub fn try_slice(&self, range: Range<usize>) -> (r: Result<Self, SliceError>)
        ensures
            r is Ok <==> in_bounds(range.start as int, range.end as int, self@.len() as int),
            r matches Ok(v) ==> {
                &&& v@ == self@.subrange(range.start as int, range.end as int)
                &&& v.inline() == self.inline()
                &&& v.inline() ==> v@.len() <= N
                &&& !self.inline() ==> v.heap() == self.heap().sub(
                    range.start as int,
                    range.end as int,
                )
            },
            r matches Err(e) ==> bounds_error(
                range.start as int,
                range.end as int,
                self@.len() as int,
            ) == Some(e),
    {
        match check_bounds(range.start, range.end, self.len()) {
            Err(e) => Err(e),
            Ok(()) => Ok(self.slice(range)),
        }
    }

    /// The bytes in shared form: a new shared backing with a copy of the
    /// bytes of an inline buffer; another window on the same backing
    /// otherwise.
    pub fn to_figbuf(&self) -> (r: FigBuf<[u8]>)
        ensures
            r@ == self@,
            self.inline() ==> !r.immortal() && r.start() == 0 && r.backing() == self@,
            !self.inline() ==> r == self.heap(),
    {
        match &self.inner {
            SmallInner::Inline { .. } => FigBuf::from_vec(
                vstd::slice::slice_to_vec(self.as_slice()),
            ),
            SmallInner::Heap(buf) => buf.clone(),
        }
    }

    /// How many bytes an inline buffer can hold.
    pub fn inline_capacity() -> (n: usize)
        ensures
            n == N,
    {
        N
    }

    /// The bytes in shared form, giving the buffer up: a new shared backing
    /// with a copy of the bytes of an inline buffer; the window itself
    /// otherwise.
    pub fn into_figbuf(self) -> (r: FigBuf<[u8]>)
        ensures
            r@ == self@,
            self.inline() ==> !r.immortal() && r.start() == 0 && r.backing() == self@,
            !self.inline() ==> r == self.heap(),
    {
        proof {
            use_type_invariant(&self);
        }
        match self.inner {
            SmallInner::Inline { data, len } => FigBuf::from_vec(
                vstd::slice::slice_to_vec(vstd::slice::slice_subrange(data.as_slice(), 0, len)),
            ),
            SmallInner::Heap(buf) => buf,
        }
    }
}

impl<const N: usize> Clone for SmallFigBuf<N> {
    /// A buffer that holds its bytes the same way: a copy of the array, or
    /// another window on the same backing.
    fn clone(&self) -> (r: Self)
        ensures
            r == *self,
    {
        proof {
            use_type_invariant(self);
        }
        match &self.inner {
            SmallInner::Inline { data, len } => SmallFigBuf {
                inner: SmallInner::Inline { data: *data, len: *len },
            },
            SmallInner::Heap(buf) => SmallFigBuf { inner: SmallInner::Heap(buf.clone()) },
        }
    }
}

impl<const N: usize> Default for SmallFigBuf<N> {
    /// The empty buffer, inline.
    fn default() -> (r: Self)
        ensures
            r@ == Seq::<u8>::empty(),
            r.inline(),
    {
        Self::new()
    }
}

/// Text that lives inline when it is at most `N` bytes long.
pub struct SmallFigStr<const N: usize> {
    inner: SmallFigBuf<N>,
}

impl<const N: usize> View for SmallFigStr<N> {
    type V = Seq<char>;

    closed spec fn view(&self) -> Seq<char> {
        decode_utf8(self.inner@)
    }
}

impl<const N: usize> SmallFigStr<N> {
    /// The bytes held are well-formed text.
    #[verifier::type_invariant]
    pub closed spec fn inv(&self) -> bool {
        valid_utf8(self.inner@)
    }

    /// The bytes of the text: its UTF-8 encoding.
    pub closed spec fn bytes(&self) -> Seq<u8> {
        self.inner@
    }

    /// Whether the bytes are held inline.
    pub closed spec fn inline(&self) -> bool {
        self.inner.inline()
    }

    /// The window that holds the bytes of text that is not inline.
    pub closed spec fn heap(&self) -> FigBuf<[u8]> {
        self.inner.heap()
    }

    /// The bytes held are the encoding of the text.
    pub proof fn lemma_text(&self)
        requires
            self.inv(),
        ensures
            valid_utf8(self.bytes()),
            self.bytes() == encode_utf8(self@),
    {
        decode_utf8_encode_utf8(self.bytes());
    }

    /// The empty text, inline.
    pub fn new() -> (r: Self)
        ensures
            r@ == Seq::<char>::empty(),
            r.bytes() == Seq::<u8>::empty(),
            r.inline(),
    {
        let inner = SmallFigBuf::new();
        proof {
            assert(decode_utf8(Seq::<u8>::empty()) =~= Seq::<char>::empty());
        }
        SmallFigStr { inner }
    }

    /// Text onto `s`, which lives as long as the program: never inline.
    pub fn from_static(s: &'static str) -> (r: Self)
        ensures
            r@ == s@,
            r.bytes() == encode_utf8(s@),
            !r.inline(),
            r.heap().immortal(),
    {
        let inner = SmallFigBuf::from_static(s.as_bytes());
        proof {
            encode_utf8_valid_utf8(s@);
            encode_utf8_decode_utf8(s@);
        }
        SmallFigStr { inner }
    }

    /// Text with a copy of `s`: inline if it is at most `N` bytes long.
    pub fn from_text(s: &str) -> (r: Self)
        ensures
            r@ == s@,
            r.bytes() == encode_utf8(s@),
            r.inline() <==> encode_utf8(s@).len() <= N,
    {
        let inner = SmallFigBuf::from_slice(s.as_bytes());
        proof {
            encode_utf8_valid_utf8(s@);
            encode_utf8_decode_utf8(s@);
        }
        SmallFigStr { inner }
    }

    /// The length of the text, in bytes.
    pub fn len(&self) -> (n: usize)
        ensures
            n == self.bytes().len(),
    {
        self.inner.len()
    }

    /// Whether the text is empty.
    pub fn is_empty(&self) -> (b: bool)
        ensures
            b <==> self.bytes().len() == 0,
    {
        self.inner.is_empty()
    }

    /// Whether the bytes are held inline, which at most `N` bytes can be.
    pub fn is_inline(&self) -> (b: bool)
        ensures
            b == self.inline(),
            b ==> self.bytes().len() <= N,
    {
        self.inner.is_inline()
    }

    /// The text.
    pub fn as_str(&self) -> (s: &str)
        ensures
            s@ == self@,
            s.spec_bytes() == self.bytes(),
    {
        proof {
            use_type_invariant(self);
        }
        let s = text_of(self.inner.as_slice()).unwrap();
        proof {
            encode_utf8_decode_utf8(s@);
        }
        s
    }

    /// The text `range` of this text, held the way this text is held. The
    /// bounds are byte indices. The range must lie in the text and start and
    /// end between characters; [`SmallFigStr::try_slice`] takes any range.
    pub fn slice(&self, range: Range<usize>) -> (v: Self)
        requires
            text_range_error(self.bytes(), range.start as int, range.end as int) is None,
        ensures
            v.bytes() == self.bytes().subrange(range.start as int, range.end as int),
            v.inline() == self.inline(),
            !self.inline() ==> v.heap() == self.heap().sub(range.start as int, range.end as int),
    {
        proof {
            use_type_invariant(self);
            lemma_window(self.bytes(), range.start as int, range.end as int, 0);
        }
        SmallFigStr { inner: self.inner.slice(range) }
    }

    /// The text `range` of this text where the range lies in the text and
    /// starts and ends between characters, and why not where it does not:
    /// the bounds are judged first, then the start, then the end.
    pub fn try_slice(&self, range: Range<usize>) -> (r: Result<Self, SliceError>)
        ensures
            r is Ok <==> text_range_error(self.bytes(), range.start as int, range.end as int)
                is None,
            r matches Ok(v) ==> {
                &&& v.bytes() == self.bytes().subrange(range.start as int, range.end as int)
                &&& v.inline() == self.inline()
                &&& !self.inline() ==> v.heap() == self.heap().sub(
                    range.start as int,
                    range.end as int,
                )
            },
            r matches Err(e) ==> text_range_error(
                self.bytes(),
                range.start as int,
                range.end as int,
            ) == Some(e),
    {
        match check_text_range(self.as_str(), range.start, range.end) {
            Err(e) => Err(e),
            Ok(()) => Ok(self.slice(range)),
        }
    }
}

impl<const N: usize> Clone for SmallFigStr<N> {
    /// Text that holds its bytes the same way.
    fn clone(&self) -> (r: Self)
        ensures
            r == *self,
    {
        proof {
            use_type_invariant(self);
        }
        SmallFigStr { inner: self.inner.clone() }
    }
}

impl<const N: usize> Default for SmallFigStr<N> {
    /// The empty text, inline.
    fn default() -> (r: Self)
        ensures
            r@ == Seq::<char>::empty(),
            r.inline(),
    {
        Self::new()
    }
}

} // verus!
