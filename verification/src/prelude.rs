//! Convenience re-exports: the bitmap type and one alias per common width.

use vstd::prelude::*;

verus! {

pub use crate::BitMap;

/// An 8-bit bitmap.
pub type BitMap8 = BitMap<u8>;

/// A 16-bit bitmap.
pub type BitMap16 = BitMap<u16>;

/// A 32-bit bitmap.
pub type BitMap32 = BitMap<u32>;

/// A 64-bit bitmap.
pub type BitMap64 = BitMap<u64>;

} // verus!
