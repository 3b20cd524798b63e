//! Reference-counted buffers that can be sliced without copying.
//!
//! A [`FigBuf`] is a window onto a backing that is either borrowed for the
//! whole life of the program or held in a shared heap allocation. Windows are
//! narrowed in constant time, and a window is written through only when no
//! other window holds the same allocation.
//!
//! - [`buf`]: the window itself, over slices of elements and over text.
//! - [`small`]: byte buffers and text that keep short payloads inline.
//! - [`bytes`]: a byte buffer with splitting operations, laid over the window.
//! - [`range`]: the range checks, and the errors they give.
//! - [`boundary`]: character boundaries of text under windowing.
//! - [`backing`]: what a window may point into.
//! - [`compare`]: comparing and copying element by element.
//! - [`std_traits`]: `std`'s traits for all of the above.
//! - [`std_specs`]: the contracts assumed of `std`.

pub mod backing;
pub mod boundary;
pub mod buf;
pub mod bytes;
pub mod compare;
pub mod range;
pub mod small;
pub mod std_specs;
pub mod std_traits;

pub use crate::buf::{FigBuf, WriteError};
pub use crate::range::SliceError;
