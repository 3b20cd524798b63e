//! `std`'s traits for windows: reading through `Deref`, `AsRef` and
//! `Borrow`, showing, hashing and comparing by what is read, and the
//! conversions.
//!
//! Two windows are equal when they read equal content, whatever they point
//! into; `==` between windows is therefore coarser than equality of the
//! windows themselves. A conversion makes a window with an allocation of its
//! own, so no value is named for its result ahead of the call: what `from`
//! returns is stated on `from`.

use crate::buf::FigBuf;
use crate::bytes::Bytes;
use crate::compare::{clone_elements, elements_cloned, elements_eq, same_bytes, same_elements};
use crate::small::{SmallFigBuf, SmallFigStr};
use crate::std_specs::{
    add_field, begin_struct, bytes_of, end_struct, feed, write_debug, write_display, write_plain,
    write_text,
};
use std::borrow::Borrow;
use std::convert::Infallible;
use std::fmt::{Debug, Display, Formatter};
use std::hash::{Hash, Hasher};
use std::ops::Deref;
use std::str::FromStr;
use vstd::prelude::*;
use vstd::std_specs::cmp::{PartialEqSpec, PartialEqSpecImpl};
use vstd::std_specs::convert::FromSpecImpl;
use vstd::string::StringSliceAdditionalSpecFns;
use vstd::utf8::encode_utf8;

verus! {

impl<T: 'static> Deref for FigBuf<[T]> {
    type Target = [T];

    /// The elements of the window.
    fn deref(&self) -> (s: &[T])
        ensures
            s@ == self@,
    {
        self.as_slice()
    }
}

impl Deref for FigBuf<str> {
    type Target = str;

    /// The text of the window.
    fn deref(&self) -> (s: &str)
        ensures
            s@ == self@,
            s.spec_bytes() == self.bytes(),
    {
        self.as_str()
    }
}

impl<T: 'static> AsRef<[T]> for FigBuf<[T]> {
    /// The elements of the window.
    fn as_ref(&self) -> (s: &[T])
        ensures
            s@ == self@,
    {
        self.as_slice()
    }
}

impl AsRef<str> for FigBuf<str> {
    /// The text of the window.
    fn as_ref(&self) -> (s: &str)
        ensures
            s@ == self@,
    {
        self.as_str()
    }
}

impl<T: 'static> Borrow<[T]> for FigBuf<[T]> {
    /// The elements of the window.
    fn borrow(&self) -> (s: &[T])
        ensures
            ({
                let read: &[T] = s;
                read@ == self@
            }),
    {
        self.as_slice()
    }
}

impl Borrow<str> for FigBuf<str> {
    /// The text of the window.
    fn borrow(&self) -> (s: &str)
        ensures
            ({
                let read: &str = s;
                read@ == self@ && read.spec_bytes() == self.bytes()
            }),
    {
        self.as_str()
    }
}

impl<T: Debug + 'static> Debug for FigBuf<[T]> {
    /// Shows the elements of the window, as a slice is shown.
    fn fmt(&self, f: &mut Formatter<'_>) -> Result<(), std::fmt::Error> {
        write_debug(self.as_slice(), f)
    }
}

impl Debug for FigBuf<str> {
    /// Shows the text of the window, as text is shown.
    fn fmt(&self, f: &mut Formatter<'_>) -> Result<(), std::fmt::Error> {
        write_debug(self.as_str(), f)
    }
}

impl<T: Display + 'static> Display for FigBuf<[T]> {
    /// Writes the elements of the window between square brackets, with a
    /// comma and a space between one and the next. Each element is written
    /// as it would be on its own: a width or a flag asked of the whole is not
    /// handed down to the elements.
    fn fmt(&self, f: &mut Formatter<'_>) -> Result<(), std::fmt::Error> {
        let items = self.as_slice();
        write_text(f, "[")?;
        let mut i: usize = 0;
        while i < items.len()
            invariant
                i <= items@.len(),
            decreases items@.len() - i,
        {
            if i > 0 {
                write_text(f, ", ")?;
            }
            write_plain(f, &items[i])?;
            i += 1;
        }
        write_text(f, "]")
    }
}

impl Display for FigBuf<str> {
    /// Writes the text of the window.
    fn fmt(&self, f: &mut Formatter<'_>) -> Result<(), std::fmt::Error> {
        write_display(self.as_str(), f)
    }
}

impl<T: Hash + 'static> Hash for FigBuf<[T]> {
    /// Hashes what the window reads, as a slice is hashed.
    fn hash<H: Hasher>(&self, state: &mut H) {
        feed(self.as_slice(), state);
    }
}

impl Hash for FigBuf<str> {
    /// Hashes what the window reads, as text is hashed.
    fn hash<H: Hasher>(&self, state: &mut H) {
        feed(self.as_str(), state);
    }
}

impl<T: PartialEq + 'static> PartialEq for FigBuf<[T]> {
    /// Whether the two windows read equal elements, wherever they point.
    fn eq(&self, other: &Self) -> (b: bool) {
        same_elements(self.as_slice(), other.as_slice())
    }
}

impl<T: PartialEq + 'static> PartialEqSpecImpl for FigBuf<[T]> {
    open spec fn obeys_eq_spec() -> bool {
        T::obeys_eq_spec()
    }

    open spec fn eq_spec(&self, other: &Self) -> bool {
        elements_eq(self@, other@)
    }
}

impl<T: Eq + 'static> Eq for FigBuf<[T]> {

}

impl PartialEq for FigBuf<str> {
    /// Whether the two windows read the same text, wherever they point.
    fn eq(&self, other: &Self) -> (b: bool) {
        same_bytes(self.as_str().as_bytes(), other.as_str().as_bytes())
    }
}

impl PartialEqSpecImpl for FigBuf<str> {
    open spec fn obeys_eq_spec() -> bool {
        true
    }

    open spec fn eq_spec(&self, other: &Self) -> bool {
        self.bytes() == other.bytes()
    }
}

impl Eq for FigBuf<str> {

}

impl<T: 'static> From<Vec<T>> for FigBuf<[T]> {
    /// The same as [`FigBuf::from_vec`].
    fn from(vec: Vec<T>) -> (r: Self)
        ensures
            r@ == vec@,
            !r.immortal(),
    {
        Self::from_vec(vec)
    }
}

impl<T: 'static> FromSpecImpl<Vec<T>> for FigBuf<[T]> {
    open spec fn obeys_from_spec() -> bool {
        false
    }

    open spec fn from_spec(vec: Vec<T>) -> Self {
        arbitrary()
    }
}

impl<T: 'static> From<Box<[T]>> for FigBuf<[T]> {
    /// The same as [`FigBuf::from_boxed_slice`].
    fn from(slice: Box<[T]>) -> (r: Self)
        ensures
            r@ == slice@,
            !r.immortal(),
    {
        Self::from_boxed_slice(slice)
    }
}

impl<T: 'static> FromSpecImpl<Box<[T]>> for FigBuf<[T]> {
    open spec fn obeys_from_spec() -> bool {
        false
    }

    open spec fn from_spec(slice: Box<[T]>) -> Self {
        arbitrary()
    }
}

impl From<String> for FigBuf<str> {
    /// The same as [`FigBuf::from_string`].
    fn from(s: String) -> (r: Self)
        ensures
            r@ == s@,
            !r.immortal(),
    {
        Self::from_string(s)
    }
}

impl FromSpecImpl<String> for FigBuf<str> {
    open spec fn obeys_from_spec() -> bool {
        false
    }

    open spec fn from_spec(s: String) -> Self {
        arbitrary()
    }
}

impl<'a, T: Clone + 'static> From<&'a [T]> for FigBuf<[T]> {
    /// A window onto a new shared backing that holds a clone of each
    /// element of `slice`.
    fn from(slice: &'a [T]) -> (r: Self)
        ensures
            elements_cloned(slice@, r@),
            !r.immortal(),
    {
        Self::from_vec(clone_elements(slice))
    }
}

impl<'a, T: Clone + 'static> FromSpecImpl<&'a [T]> for FigBuf<[T]> {
    open spec fn obeys_from_spec() -> bool {
        false
    }

    open spec fn from_spec(slice: &'a [T]) -> Self {
        arbitrary()
    }
}

impl<'a> From<&'a str> for FigBuf<str> {
    /// A window onto a new shared backing that holds a copy of `s`.
    fn from(s: &'a str) -> (r: Self)
        ensures
            r@ == s@,
            !r.immortal(),
    {
        Self::from_string(s.to_owned())
    }
}

impl<'a> FromSpecImpl<&'a str> for FigBuf<str> {
    open spec fn obeys_from_spec() -> bool {
        false
    }

    open spec fn from_spec(s: &'a str) -> Self {
        arbitrary()
    }
}

impl<const N: usize> Debug for SmallFigBuf<N> {
    /// Shows the length, whether the bytes are inline, and the bytes.
    fn fmt(&self, f: &mut Formatter<'_>) -> Result<(), std::fmt::Error> {
        let len = self.len();
        let inline = self.is_inline();
        let mut form = begin_struct(f, "SmallFigBuf");
        add_field(&mut form, "len", &len);
        add_field(&mut form, "inline", &inline);
        add_field(&mut form, "data", self.as_slice());
        end_struct(&mut form)
    }
}

impl<const N: usize> Deref for SmallFigBuf<N> {
    type Target = [u8];

    /// The bytes.
    fn deref(&self) -> (s: &[u8])
        ensures
            s@ == self@,
    {
        self.as_slice()
    }
}

impl<const N: usize> AsRef<[u8]> for SmallFigBuf<N> {
    /// The bytes.
    fn as_ref(&self) -> (s: &[u8])
        ensures
            s@ == self@,
    {
        self.as_slice()
    }
}

impl<const N: usize> PartialEq for SmallFigBuf<N> {
    /// Whether the two buffers hold the same bytes, however they hold them.
    fn eq(&self, other: &Self) -> (b: bool) {
        same_bytes(self.as_slice(), other.as_slice())
    }
}

impl<const N: usize> PartialEqSpecImpl for SmallFigBuf<N> {
    open spec fn obeys_eq_spec() -> bool {
        true
    }

    open spec fn eq_spec(&self, other: &Self) -> bool {
        self@ == other@
    }
}

impl<const N: usize> Eq for SmallFigBuf<N> {

}

impl<const N: usize> PartialEq<[u8]> for SmallFigBuf<N> {
    /// Whether the buffer holds exactly the bytes of `other`.
    fn eq(&self, other: &[u8]) -> (b: bool) {
        same_bytes(self.as_slice(), other)
    }
}

impl<const N: usize> PartialEqSpecImpl<[u8]> for SmallFigBuf<N> {
    open spec fn obeys_eq_spec() -> bool {
        true
    }

    open spec fn eq_spec(&self, other: &[u8]) -> bool {
        self@ == other@
    }
}

impl<'a, const N: usize> PartialEq<&'a [u8]> for SmallFigBuf<N> {
    /// Whether the buffer holds exactly the bytes of `other`.
    fn eq(&self, other: &&'a [u8]) -> (b: bool) {
        same_bytes(self.as_slice(), *other)
    }
}

impl<'a, const N: usize> PartialEqSpecImpl<&'a [u8]> for SmallFigBuf<N> {
    open spec fn obeys_eq_spec() -> bool {
        true
    }

    open spec fn eq_spec(&self, other: &&'a [u8]) -> bool {
        self@ == other@
    }
}

impl<'a, const N: usize, const M: usize> PartialEq<&'a [u8; M]> for SmallFigBuf<N> {
    /// Whether the buffer holds exactly the bytes of `other`.
    fn eq(&self, other: &&'a [u8; M]) -> (b: bool) {
        same_bytes(self.as_slice(), other.as_slice())
    }
}

impl<'a, const N: usize, const M: usize> PartialEqSpecImpl<&'a [u8; M]> for SmallFigBuf<N> {
    open spec fn obeys_eq_spec() -> bool {
        true
    }

    open spec fn eq_spec(&self, other: &&'a [u8; M]) -> bool {
        self@ == other@
    }
}

impl<const N: usize> From<Vec<u8>> for SmallFigBuf<N> {
    /// The same as [`SmallFigBuf::from_vec`].
    fn from(vec: Vec<u8>) -> (r: Self)
        ensures
            r@ == vec@,
            r.inline() <==> vec@.len() <= N,
    {
        Self::from_vec(vec)
    }
}

impl<const N: usize> FromSpecImpl<Vec<u8>> for SmallFigBuf<N> {
    open spec fn obeys_from_spec() -> bool {
        false
    }

    open spec fn from_spec(vec: Vec<u8>) -> Self {
        arbitrary()
    }
}

impl<'a, const N: usize> From<&'a [u8]> for SmallFigBuf<N> {
    /// The same as [`SmallFigBuf::from_slice`].
    fn from(slice: &'a [u8]) -> (r: Self)
        ensures
            r@ == slice@,
            r.inline() <==> slice@.len() <= N,
    {
        Self::from_slice(slice)
    }
}

impl<'a, const N: usize> FromSpecImpl<&'a [u8]> for SmallFigBuf<N> {
    open spec fn obeys_from_spec() -> bool {
        false
    }

    open spec fn from_spec(slice: &'a [u8]) -> Self {
        arbitrary()
    }
}

impl<'a, const N: usize> From<&'a str> for SmallFigBuf<N> {
    /// A buffer with the bytes of `s`, its UTF-8 encoding.
    fn from(s: &'a str) -> (r: Self)
        ensures
            r@ == encode_utf8(s@),
            r.inline() <==> encode_utf8(s@).len() <= N,
    {
        Self::from_slice(s.as_bytes())
    }
}

impl<'a, const N: usize> FromSpecImpl<&'a str> for SmallFigBuf<N> {
    open spec fn obeys_from_spec() -> bool {
        false
    }

    open spec fn from_spec(s: &'a str) -> Self {
        arbitrary()
    }
}

impl<const N: usize> Debug for SmallFigStr<N> {
    /// Shows the length, whether the bytes are inline, and the text.
    fn fmt(&self, f: &mut Formatter<'_>) -> Result<(), std::fmt::Error> {
        let len = self.len();
        let inline = self.is_inline();
        let mut form = begin_struct(f, "SmallFigStr");
        add_field(&mut form, "len", &len);
        add_field(&mut form, "inline", &inline);
        add_field(&mut form, "data", self.as_str());
        end_struct(&mut form)
    }
}

impl<const N: usize> Display for SmallFigStr<N> {
    /// Writes the text.
    fn fmt(&self, f: &mut Formatter<'_>) -> Result<(), std::fmt::Error> {
        write_display(self.as_str(), f)
    }
}

impl<const N: usize> Deref for SmallFigStr<N> {
    type Target = str;

    /// The text.
    fn deref(&self) -> (s: &str)
        ensures
            s@ == self@,
            s.spec_bytes() == self.bytes(),
    {
        self.as_str()
    }
}

impl<const N: usize> AsRef<str> for SmallFigStr<N> {
    /// The text.
    fn as_ref(&self) -> (s: &str)
        ensures
            s@ == self@,
    {
        self.as_str()
    }
}

impl<const N: usize> PartialEq for SmallFigStr<N> {
    /// Whether the two hold the same text, however they hold it.
    fn eq(&self, other: &Self) -> (b: bool) {
        same_bytes(self.as_str().as_bytes(), other.as_str().as_bytes())
    }
}

impl<const N: usize> PartialEqSpecImpl for SmallFigStr<N> {
    open spec fn obeys_eq_spec() -> bool {
        true
    }

    open spec fn eq_spec(&self, other: &Self) -> bool {
        self.bytes() == other.bytes()
    }
}

impl<const N: usize> Eq for SmallFigStr<N> {

}

impl<const N: usize> PartialEq<str> for SmallFigStr<N> {
    /// Whether the text is `other`.
    fn eq(&self, other: &str) -> (b: bool) {
        same_bytes(self.as_str().as_bytes(), other.as_bytes())
    }
}

impl<const N: usize> PartialEqSpecImpl<str> for SmallFigStr<N> {
    open spec fn obeys_eq_spec() -> bool {
        true
    }

    open spec fn eq_spec(&self, other: &str) -> bool {
        self.bytes() == other.spec_bytes()
    }
}

impl<'a, const N: usize> PartialEq<&'a str> for SmallFigStr<N> {
    /// Whether the text is `other`.
    fn eq(&self, other: &&'a str) -> (b: bool) {
        same_bytes(self.as_str().as_bytes(), other.as_bytes())
    }
}

impl<'a, const N: usize> PartialEqSpecImpl<&'a str> for SmallFigStr<N> {
    open spec fn obeys_eq_spec() -> bool {
        true
    }

    open spec fn eq_spec(&self, other: &&'a str) -> bool {
        self.bytes() == other.spec_bytes()
    }
}

impl<'a, const N: usize> From<&'a str> for SmallFigStr<N> {
    /// Text with a copy of `s`: inline if it is at most `N` bytes long.
    fn from(s: &'a str) -> (r: Self)
        ensures
            r@ == s@,
            r.inline() <==> encode_utf8(s@).len() <= N,
    {
        Self::from_text(s)
    }
}

impl<'a, const N: usize> FromSpecImpl<&'a str> for SmallFigStr<N> {
    open spec fn obeys_from_spec() -> bool {
        false
    }

    open spec fn from_spec(s: &'a str) -> Self {
        arbitrary()
    }
}

impl<const N: usize> From<String> for SmallFigStr<N> {
    /// Text with a copy of `s`: inline if it is at most `N` bytes long.
    fn from(s: String) -> (r: Self)
        ensures
            r@ == s@,
            r.inline() <==> encode_utf8(s@).len() <= N,
    {
        Self::from_text(s.as_str())
    }
}

impl<const N: usize> FromSpecImpl<String> for SmallFigStr<N> {
    open spec fn obeys_from_spec() -> bool {
        false
    }

    open spec fn from_spec(s: String) -> Self {
        arbitrary()
    }
}

impl<const N: usize> FromStr for SmallFigStr<N> {
    type Err = Infallible;

    /// Text with a copy of `s`; this never fails.
    fn from_str(s: &str) -> (r: Result<Self, Infallible>)
        ensures
            r matches Ok(text) && text@ == s@,
    {
        Ok(Self::from_text(s))
    }
}

impl Debug for Bytes {
    /// Shows the bytes, as a slice is shown.
    fn fmt(&self, f: &mut Formatter<'_>) -> Result<(), std::fmt::Error> {
        write_debug(self.as_slice(), f)
    }
}

impl Deref for Bytes {
    type Target = [u8];

    /// The bytes.
    fn deref(&self) -> (s: &[u8])
        ensures
            s@ == self@,
    {
        self.as_slice()
    }
}

impl AsRef<[u8]> for Bytes {
    /// The bytes.
    fn as_ref(&self) -> (s: &[u8])
        ensures
            s@ == self@,
    {
        self.as_slice()
    }
}

impl From<Vec<u8>> for Bytes {
    /// The same as [`Bytes::from_vec`].
    fn from(vec: Vec<u8>) -> (r: Self)
        ensures
            r@ == vec@,
    {
        Self::from_vec(vec)
    }
}

impl FromSpecImpl<Vec<u8>> for Bytes {
    open spec fn obeys_from_spec() -> bool {
        false
    }

    open spec fn from_spec(vec: Vec<u8>) -> Self {
        arbitrary()
    }
}

impl From<&'static [u8]> for Bytes {
    /// The same as [`Bytes::from_static`].
    fn from(slice: &'static [u8]) -> (r: Self)
        ensures
            r@ == slice@,
    {
        Self::from_static(slice)
    }
}

impl FromSpecImpl<&'static [u8]> for Bytes {
    open spec fn obeys_from_spec() -> bool {
        false
    }

    open spec fn from_spec(slice: &'static [u8]) -> Self {
        arbitrary()
    }
}

impl From<&'static str> for Bytes {
    /// A copy of the bytes of `s`, its UTF-8 encoding.
    fn from(s: &'static str) -> (r: Self)
        ensures
            r@ == encode_utf8(s@),
    {
        Self::from_static(s.as_bytes())
    }
}

impl FromSpecImpl<&'static str> for Bytes {
    open spec fn obeys_from_spec() -> bool {
        false
    }

    open spec fn from_spec(s: &'static str) -> Self {
        arbitrary()
    }
}

impl From<String> for Bytes {
    /// The bytes of `s`, its UTF-8 encoding, which become the shared
    /// backing.
    fn from(s: String) -> (r: Self)
        ensures
            r@ == encode_utf8(s@),
    {
        Self::from_vec(bytes_of(s))
    }
}

impl FromSpecImpl<String> for Bytes {
    open spec fn obeys_from_spec() -> bool {
        false
    }

    open spec fn from_spec(s: String) -> Self {
        arbitrary()
    }
}

impl PartialEq for Bytes {
    /// Whether the two hold the same bytes, wherever they point.
    fn eq(&self, other: &Self) -> (b: bool) {
        same_bytes(self.as_slice(), other.as_slice())
    }
}

impl PartialEqSpecImpl for Bytes {
    open spec fn obeys_eq_spec() -> bool {
        true
    }

    open spec fn eq_spec(&self, other: &Self) -> bool {
        self@ == other@
    }
}

impl Eq for Bytes {

}

impl PartialEq<[u8]> for Bytes {
    /// Whether the buffer holds exactly the bytes of `other`.
    fn eq(&self, other: &[u8]) -> (b: bool) {
        same_bytes(self.as_slice(), other)
    }
}

impl PartialEqSpecImpl<[u8]> for Bytes {
    open spec fn obeys_eq_spec() -> bool {
        true
    }

    open spec fn eq_spec(&self, other: &[u8]) -> bool {
        self@ == other@
    }
}

impl PartialEq<Bytes> for [u8] {
    /// Whether `other` holds exactly these bytes.
    fn eq(&self, other: &Bytes) -> (b: bool) {
        same_bytes(self, other.as_slice())
    }
}

impl PartialEqSpecImpl<Bytes> for [u8] {
    open spec fn obeys_eq_spec() -> bool {
        true
    }

    open spec fn eq_spec(&self, other: &Bytes) -> bool {
        self@ == other@
    }
}

impl PartialEq<Vec<u8>> for Bytes {
    /// Whether the buffer holds exactly the bytes of `other`.
    fn eq(&self, other: &Vec<u8>) -> (b: bool) {
        same_bytes(self.as_slice(), other.as_slice())
    }
}

impl PartialEqSpecImpl<Vec<u8>> for Bytes {
    open spec fn obeys_eq_spec() -> bool {
        true
    }

    open spec fn eq_spec(&self, other: &Vec<u8>) -> bool {
        self@ == other@
    }
}

impl PartialEq<Bytes> for Vec<u8> {
    /// Whether `other` holds exactly these bytes.
    fn eq(&self, other: &Bytes) -> (b: bool) {
        same_bytes(self.as_slice(), other.as_slice())
    }
}

impl PartialEqSpecImpl<Bytes> for Vec<u8> {
    open spec fn obeys_eq_spec() -> bool {
        true
    }

    open spec fn eq_spec(&self, other: &Bytes) -> bool {
        self@ == other@
    }
}

impl<'a> PartialEq<&'a [u8]> for Bytes {
    /// Whether the buffer holds exactly the bytes of `other`.
    fn eq(&self, other: &&'a [u8]) -> (b: bool) {
        same_bytes(self.as_slice(), *other)
    }
}

impl<'a> PartialEqSpecImpl<&'a [u8]> for Bytes {
    open spec fn obeys_eq_spec() -> bool {
        true
    }

    open spec fn eq_spec(&self, other: &&'a [u8]) -> bool {
        self@ == other@
    }
}

impl<'a> PartialEq<Bytes> for &'a [u8] {
    /// Whether `other` holds exactly these bytes.
    fn eq(&self, other: &Bytes) -> (b: bool) {
        same_bytes(*self, other.as_slice())
    }
}

impl<'a> PartialEqSpecImpl<Bytes> for &'a [u8] {
    open spec fn obeys_eq_spec() -> bool {
        true
    }

    open spec fn eq_spec(&self, other: &Bytes) -> bool {
        self@ == other@
    }
}

} // verus!
