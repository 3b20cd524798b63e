//! The functions of `std` that this crate calls and `vstd` gives no
//! specification: each behind a function whose contract the rest of the crate
//! relies on. Nothing here is proved.

use crate::boundary::char_window;
use std::fmt::{Debug, DebugStruct, Display, Formatter};
use std::hash::{Hash, Hasher};
use std::sync::Arc;
use vstd::prelude::*;
use vstd::string::StringSliceAdditionalSpecFns;
use vstd::utf8::{encode_utf8, valid_utf8};

verus! {

/// `Arc::<[T]>::from(Vec<T>)`: the elements move, in order, into a new
/// shared allocation.
#[verifier::external_body]
pub(crate) fn share_vec<T>(data: Vec<T>) -> (shared: Arc<[T]>)
    ensures
        (*shared)@ == data@,
{
    Arc::from(data)
}

/// `Arc::<[T]>::from(Box<[T]>)`: the elements move, in order, into a new
/// shared allocation.
#[verifier::external_body]
pub(crate) fn share_boxed<T>(data: Box<[T]>) -> (shared: Arc<[T]>)
    ensures
        (*shared)@ == data@,
{
    Arc::from(data)
}

/// `Arc::<str>::from(String)`: the text moves into a new shared allocation.
#[verifier::external_body]
pub(crate) fn share_text(text: String) -> (shared: Arc<str>)
    ensures
        (*shared)@ == text@,
{
    Arc::from(text)
}

/// `Arc::clone`: a second handle on the same allocation, so on the same data.
#[verifier::external_body]
pub(crate) fn share_again<T: ?Sized>(shared: &Arc<T>) -> (other: Arc<T>)
    ensures
        other == *shared,
{
    Arc::clone(shared)
}

/// `Arc::strong_count`: the number of handles on the allocation, the given
/// one included. It is a fact about all the handles alive at the moment of
/// the call, not about the data, so nothing more is claimed than that it
/// counts the given handle.
#[verifier::external_body]
pub(crate) fn holders<T: ?Sized>(shared: &Arc<T>) -> (n: usize)
    ensures
        n >= 1,
{
    Arc::strong_count(shared)
}

/// `Arc::get_mut`: the data behind the handle, for writing, when no other
/// handle is on the allocation; `None`, and nothing changed, otherwise. Which
/// of the two it is depends on the other handles alive at the moment of the
/// call, so no input is promised either outcome. It does not panic.
#[verifier::external_body]
pub(crate) fn sole_holder_mut<T: ?Sized>(shared: &mut Arc<T>) -> (r: Option<&mut T>)
    ensures
        r matches Some(m) ==> &*m == &**old(shared) && &**final(shared) == &*final(m),
        r is None ==> *final(shared) == *old(shared),
    no_unwind
{
    Arc::get_mut(shared)
}

/// `Arc::make_mut` on a slice of `Copy` elements: the data behind the handle,
/// for writing, after moving the handle to a private copy of the data if
/// another handle was on the allocation. A `Copy` element is copied bit for
/// bit, which runs no code that could panic, and the data is the same either
/// way. A slice cannot change its length.
#[verifier::external_body]
pub(crate) fn unshared_mut<T: Copy>(shared: &mut Arc<[T]>) -> (m: &mut [T])
    ensures
        m@ == (**old(shared))@,
        final(m)@.len() == m@.len(),
        (**final(shared))@ == final(m)@,
    no_unwind
{
    Arc::make_mut(shared)
}

/// `Arc::make_mut` on text: the text behind the handle, for writing, after
/// moving the handle to a private copy of the text if another handle was on
/// the allocation. Text cannot change its length in bytes.
#[verifier::external_body]
pub(crate) fn unshared_text_mut(shared: &mut Arc<str>) -> (m: &mut str)
    ensures
        m@ == (**old(shared))@,
        final(m).spec_bytes().len() == m.spec_bytes().len(),
        (**final(shared))@ == final(m)@,
    no_unwind
{
    Arc::make_mut(shared)
}

/// `&mut whole[from..to]`, that is `IndexMut<Range<usize>>` for slices: the
/// part `from..to` of the slice, for writing. It panics where the range does
/// not lie in the slice, which `requires` leaves out, and nowhere else. A
/// slice cannot change its length, and the elements outside the part stay
/// as they are.
#[verifier::external_body]
pub(crate) fn part_mut<T>(whole: &mut [T], from: usize, to: usize) -> (part: &mut [T])
    requires
        from <= to <= old(whole)@.len(),
    ensures
        part@ == old(whole)@.subrange(from as int, to as int),
        final(part)@.len() == part@.len(),
        final(whole)@ == old(whole)@.subrange(0, from as int) + final(part)@ + old(
            whole
        )@.subrange(to as int, old(whole)@.len() as int),
    no_unwind
{
    &mut whole[from..to]
}

/// `&mut whole[from..to]`, that is `IndexMut<Range<usize>>` for `str`: the
/// part `from..to` of the text, for writing. It panics where the range does
/// not lie in the text or `from` or `to` is not a character boundary, which
/// `requires` leaves out, and nowhere else. Text cannot change its length
/// in bytes, and the bytes outside the part stay as they are.
#[verifier::external_body]
pub(crate) fn text_part_mut(whole: &mut str, from: usize, to: usize) -> (part: &mut str)
    requires
        char_window(old(whole).spec_bytes(), from as int, to as int),
    ensures
        part.spec_bytes() == old(whole).spec_bytes().subrange(from as int, to as int),
        final(part).spec_bytes().len() == part.spec_bytes().len(),
        final(whole).spec_bytes() == old(whole).spec_bytes().subrange(0, from as int) + final(
            part
        ).spec_bytes() + old(whole).spec_bytes().subrange(
            to as int,
            old(whole).spec_bytes().len() as int,
        ),
    no_unwind
{
    &mut whole[from..to]
}

/// `core::str::from_utf8`: the bytes read as text, where they are well-formed
/// UTF-8. The text then has exactly those bytes.
#[verifier::external_body]
pub(crate) fn text_of(bytes: &[u8]) -> (r: Option<&str>)
    ensures
        valid_utf8(bytes@) ==> r is Some,
        r matches Some(text) ==> text.spec_bytes() == bytes@,
{
    core::str::from_utf8(bytes).ok()
}

/// `String::into_bytes`: the bytes of the text, which are its UTF-8
/// encoding, without copying them.
#[verifier::external_body]
pub(crate) fn bytes_of(text: String) -> (bytes: Vec<u8>)
    ensures
        bytes@ == encode_utf8(text@),
{
    text.into_bytes()
}

/// `Hash::hash` of a slice or of text: feeds the value to the hasher. What
/// the hasher makes of it is its own affair, and nothing is claimed of it.
#[verifier::external_body]
pub(crate) fn feed<T: ?Sized + Hash, H: Hasher>(value: &T, state: &mut H) {
    value.hash(state)
}

/// `std`'s formatter. The crate never looks inside one: it hands it on.
#[verifier::external_type_specification]
#[verifier::external_body]
pub struct ExFormatter<'a>(core::fmt::Formatter<'a>);

/// `std`'s formatting error. The crate never looks inside one: it hands it
/// back.
#[verifier::external_type_specification]
#[verifier::external_body]
pub struct ExFmtError(core::fmt::Error);

/// `std`'s builder for the `Debug` form of a struct. The crate never looks
/// inside one: it hands it on.
#[verifier::external_type_specification]
#[verifier::external_body]
pub struct ExDebugStruct<'a, 'b: 'a>(core::fmt::DebugStruct<'a, 'b>);

/// `Debug::fmt`: writes the `Debug` form of the value. Nothing is claimed
/// of what is written.
#[verifier::external_body]
pub(crate) fn write_debug<T: ?Sized + Debug>(value: &T, f: &mut Formatter<'_>) -> Result<
    (),
    core::fmt::Error,
> {
    Debug::fmt(value, f)
}

/// `Display::fmt`: writes the `Display` form of the value. Nothing is
/// claimed of what is written.
#[verifier::external_body]
pub(crate) fn write_display<T: ?Sized + Display>(value: &T, f: &mut Formatter<'_>) -> Result<
    (),
    core::fmt::Error,
> {
    Display::fmt(value, f)
}

/// `write!(f, "{}", value)`, that is `Formatter::write_fmt` with the `Display`
/// form of the value and no width, fill or flags of the caller's: each one
/// is written as it would be on its own. Nothing is claimed of what is
/// written.
#[verifier::external_body]
pub(crate) fn write_plain<T: ?Sized + Display>(f: &mut Formatter<'_>, value: &T) -> Result<
    (),
    core::fmt::Error,
> {
    write!(f, "{}", value)
}

/// `Formatter::write_str`: writes the text as it is. Nothing is claimed of
/// what is written.
#[verifier::external_body]
pub(crate) fn write_text(f: &mut Formatter<'_>, text: &str) -> Result<(), core::fmt::Error> {
    f.write_str(text)
}

/// `Formatter::debug_struct`: starts the `Debug` form of a struct of the
/// given name.
#[verifier::external_body]
pub(crate) fn begin_struct<'a, 'b>(f: &'a mut Formatter<'b>, name: &str) -> DebugStruct<
    'a,
    'b,
> {
    f.debug_struct(name)
}

/// `DebugStruct::field`: adds a field, by name, to the `Debug` form.
#[verifier::external_body]
pub(crate) fn add_field<T: ?Sized + Debug>(form: &mut DebugStruct<'_, '_>, name: &str, value: &T) {
    form.field(name, &value);
}

/// `DebugStruct::finish`: ends the `Debug` form.
#[verifier::external_body]
pub(crate) fn end_struct(form: &mut DebugStruct<'_, '_>) -> Result<(), core::fmt::Error> {
    form.finish()
}

} // verus!
