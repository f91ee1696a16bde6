//! A sequence owned by one handle, with its length kept in a small header
//! whose encoding and ownership policy are chosen by a type parameter.

use vstd::prelude::*;

pub mod header;
pub mod layout;
pub mod slice;
pub mod text;

pub use header::{BoxHeader, Header, TooLong};
pub use layout::Layout;
pub use slice::OwnedSlice;
pub use text::Str;
