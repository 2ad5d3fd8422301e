//! Bidirectional iteration over a bitmap's bits.

pub mod owned;
pub mod referenced;
