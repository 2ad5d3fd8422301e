//! The one error the bitmap can raise.

use vstd::prelude::*;

verus! {

/// Raised by a mutating bit operation when the supplied index is at or past
/// the bitmap's width. It carries no payload beyond its kind.
#[derive(Debug, Clone, Copy, PartialEq, Eq)]
pub struct IndexError;

} // verus!
