//! What a window may point into.

use crate::std_specs::share_again;
use std::sync::Arc;
use vstd::prelude::*;
use vstd::string::StringSliceAdditionalSpecFns;
use vstd::utf8::is_char_boundary;

verus! {

/// The shape of a backing, as far as the windowing arithmetic needs it.
pub trait Backing {
    /// How many units (elements, or bytes of text) the backing holds.
    spec fn extent(&self) -> nat;

    /// Whether a window may start or end at `index`.
    spec fn on_boundary(&self, index: int) -> bool;
}

impl<T> Backing for [T] {
    open spec fn extent(&self) -> nat {
        self@.len()
    }

    open spec fn on_boundary(&self, index: int) -> bool {
        true
    }
}

impl Backing for str {
    open spec fn extent(&self) -> nat {
        self.spec_bytes().len()
    }

    open spec fn on_boundary(&self, index: int) -> bool {
        is_char_boundary(self.spec_bytes(), index)
    }
}

/// Where the data of a window lives.
pub(crate) enum Inner<T: ?Sized + 'static> {
    /// Borrowed for the life of the program; never counted, never written.
    Static(&'static T),
    /// A heap allocation shared by every window that holds it.
    Arc(Arc<T>),
}

impl<T: ?Sized + 'static> Inner<T> {
    /// The data itself, whichever way it is held.
    pub(crate) open spec fn store(&self) -> &T {
        match self {
            Inner::Static(s) => s,
            Inner::Arc(a) => &**a,
        }
    }
}

impl<T: ?Sized + 'static> Clone for Inner<T> {
    /// Another holder of the same data: the borrow is copied, the shared
    /// allocation gains a handle.
    fn clone(&self) -> (r: Self)
        ensures
            r == *self,
    {
        match self {
            Inner::Static(s) => Inner::Static(*s),
            Inner::Arc(arc) => Inner::Arc(share_again(arc)),
        }
    }
}

} // verus!
