//! Compiler for pages of a CEPT (Bildschirmtext) videotex service: a stateful
//! escape-sequence encoder, the page/meta/link/input data model, the
//! pagination algorithm that splits entry lists across linked sub-pages, and
//! the page generators built on them.

use vstd::prelude::*;

pub mod cept;
pub mod pages;
pub mod paginate;
pub mod text;
pub mod historic;
pub mod user;
pub mod messaging;

verus! {

/// Errors a page request can surface to the dispatcher.
#[derive(Clone, Copy, Debug, PartialEq, Eq, Structural)]
pub enum PageError {
    /// The requested page identifier matches no generator.
    UnknownPage,
    /// The requested sub-page index is not reachable through the prefix-sum
    /// chain over the distribution sequence.
    PaginationOutOfRange,
    /// A row/column outside the addressable grid was requested.
    InvalidCursorPosition,
}

} // verus!
