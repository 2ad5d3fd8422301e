//! The width trait that ties each supported backing integer to its bit count.

use vstd::prelude::*;

verus! {

use crate::bitops::fits_width;

/// A primitive integer of a fixed, statically known bit width.
///
/// The bitmap reads and writes its backing integer through this trait: the
/// integer travels as the low `Self::spec_width()` bits of a `u128` word, so
/// that the bit arithmetic is implemented and proved once, in `crate::bitops`.
/// A signed integer contributes its two's-complement bit pattern.
pub trait ConstWidth: Copy + Sized {
    /// The width of the integer in bits.
    spec fn spec_width() -> usize;

    /// The integer's bit pattern, carried in the low bits of a 128-bit word.
    spec fn as_bits(self) -> u128;

    /// Every supported width lies between 1 and 128 bits.
    proof fn lemma_width()
        ensures
            0 < Self::spec_width() <= 128,
    ;

    /// The bit pattern never reaches beyond the integer's width.
    proof fn lemma_fits(self)
        ensures
            fits_width(self.as_bits(), Self::spec_width()),
    ;

    /// The width of the integer in bits.
    fn width() -> (w: usize)
        ensures
            w == Self::spec_width(),
    ;

    /// Unpacks the integer into its bit pattern.
    fn to_bits(self) -> (b: u128)
        ensures
            b == self.as_bits(),
    ;

    /// Packs a bit pattern of the right width back into the integer.
    fn from_bits(b: u128) -> (r: Self)
        requires
            fits_width(b, Self::spec_width()),
        ensures
            r.as_bits() == b,
    ;
}

impl ConstWidth for u8 {
    open spec fn spec_width() -> usize {
        8
    }

    open spec fn as_bits(self) -> u128 {
        self as u128
    }

    proof fn lemma_width() {
    }

    proof fn lemma_fits(self) {
        assert((self as u128) >> 8usize == 0) by (bit_vector);
    }

    fn width() -> (w: usize) {
        8
    }

    fn to_bits(self) -> (b: u128) {
        self as u128
    }

    fn from_bits(b: u128) -> (r: Self) {
        proof {
            assert(b >> 8usize == 0 ==> b < 256 && ((b as u8) as u128) == b) by (bit_vector);
        }
        b as u8
    }
}

impl ConstWidth for u16 {
    open spec fn spec_width() -> usize {
        16
    }

    open spec fn as_bits(self) -> u128 {
        self as u128
    }

    proof fn lemma_width() {
    }

    proof fn lemma_fits(self) {
        assert((self as u128) >> 16usize == 0) by (bit_vector);
    }

    fn width() -> (w: usize) {
        16
    }

    fn to_bits(self) -> (b: u128) {
        self as u128
    }

    fn from_bits(b: u128) -> (r: Self) {
        proof {
            assert(b >> 16usize == 0 ==> b < 65536 && ((b as u16) as u128) == b) by (bit_vector);
        }
        b as u16
    }
}

impl ConstWidth for u32 {
    open spec fn spec_width() -> usize {
        32
    }

    open spec fn as_bits(self) -> u128 {
        self as u128
    }

    proof fn lemma_width() {
    }

    proof fn lemma_fits(self) {
        assert((self as u128) >> 32usize == 0) by (bit_vector);
    }

    fn width() -> (w: usize) {
        32
    }

    fn to_bits(self) -> (b: u128) {
        self as u128
    }

    fn from_bits(b: u128) -> (r: Self) {
        proof {
            assert(b >> 32usize == 0 ==> b <= 0xffff_ffff && ((b as u32) as u128) == b)
                by (bit_vector);
        }
        b as u32
    }
}

impl ConstWidth for u64 {
    open spec fn spec_width() -> usize {
        64
    }

    open spec fn as_bits(self) -> u128 {
        self as u128
    }

    proof fn lemma_width() {
    }

    proof fn lemma_fits(self) {
        assert((self as u128) >> 64usize == 0) by (bit_vector);
    }

    fn width() -> (w: usize) {
        64
    }

    fn to_bits(self) -> (b: u128) {
        self as u128
    }

    fn from_bits(b: u128) -> (r: Self) {
        proof {
            assert(b >> 64usize == 0 ==> b <= 0xffff_ffff_ffff_ffff && ((b as u64) as u128) == b)
                by (bit_vector);
        }
        b as u64
    }
}

impl ConstWidth for u128 {
    open spec fn spec_width() -> usize {
        128
    }

    open spec fn as_bits(self) -> u128 {
        self
    }

    proof fn lemma_width() {
    }

    proof fn lemma_fits(self) {
        assert(self >> 128usize == 0) by (bit_vector);
    }

    fn width() -> (w: usize) {
        128
    }

    fn to_bits(self) -> (b: u128) {
        self
    }

    fn from_bits(b: u128) -> (r: Self) {
        b
    }
}

impl ConstWidth for i8 {
    open spec fn spec_width() -> usize {
        8
    }

    open spec fn as_bits(self) -> u128 {
        (self as u8) as u128
    }

    proof fn lemma_width() {
    }

    proof fn lemma_fits(self) {
        assert(((self as u8) as u128) >> 8usize == 0) by (bit_vector);
    }

    fn width() -> (w: usize) {
        8
    }

    fn to_bits(self) -> (b: u128) {
        #[verifier::truncate] ((self as u8) as u128)
    }

    fn from_bits(b: u128) -> (r: Self) {
        proof {
            assert(b >> 8usize == 0 ==> b < 256 && ((((b as u8) as i8) as u8) as u128) == b)
                by (bit_vector);
        }
        #[verifier::truncate] ((b as u8) as i8)
    }
}

impl ConstWidth for i16 {
    open spec fn spec_width() -> usize {
        16
    }

    open spec fn as_bits(self) -> u128 {
        (self as u16) as u128
    }

    proof fn lemma_width() {
    }

    proof fn lemma_fits(self) {
        assert(((self as u16) as u128) >> 16usize == 0) by (bit_vector);
    }

    fn width() -> (w: usize) {
        16
    }

    fn to_bits(self) -> (b: u128) {
        #[verifier::truncate] ((self as u16) as u128)
    }

    fn from_bits(b: u128) -> (r: Self) {
        proof {
            assert(b >> 16usize == 0 ==> b < 65536 && ((((b as u16) as i16) as u16) as u128) == b)
                by (bit_vector);
        }
        #[verifier::truncate] ((b as u16) as i16)
    }
}

impl ConstWidth for i32 {
    open spec fn spec_width() -> usize {
        32
    }

    open spec fn as_bits(self) -> u128 {
        (self as u32) as u128
    }

    proof fn lemma_width() {
    }

    proof fn lemma_fits(self) {
        assert(((self as u32) as u128) >> 32usize == 0) by (bit_vector);
    }

    fn width() -> (w: usize) {
        32
    }

    fn to_bits(self) -> (b: u128) {
        #[verifier::truncate] ((self as u32) as u128)
    }

    fn from_bits(b: u128) -> (r: Self) {
        proof {
            assert(b >> 32usize == 0 ==> b <= 0xffff_ffff && ((((b as u32) as i32) as u32) as u128)
                == b) by (bit_vector);
        }
        #[verifier::truncate] ((b as u32) as i32)
    }
}

impl ConstWidth for i64 {
    open spec fn spec_width() -> usize {
        64
    }

    open spec fn as_bits(self) -> u128 {
        (self as u64) as u128
    }

    proof fn lemma_width() {
    }

    proof fn lemma_fits(self) {
        assert(((self as u64) as u128) >> 64usize == 0) by (bit_vector);
    }

    fn width() -> (w: usize) {
        64
    }

    fn to_bits(self) -> (b: u128) {
        #[verifier::truncate] ((self as u64) as u128)
    }

    fn from_bits(b: u128) -> (r: Self) {
        proof {
            assert(b >> 64usize == 0 ==> b <= 0xffff_ffff_ffff_ffff && ((((b as u64) as i64) as u64)
                as u128) == b) by (bit_vector);
        }
        #[verifier::truncate] ((b as u64) as i64)
    }
}

impl ConstWidth for i128 {
    open spec fn spec_width() -> usize {
        128
    }

    open spec fn as_bits(self) -> u128 {
        self as u128
    }

    proof fn lemma_width() {
    }

    proof fn lemma_fits(self) {
        assert((self as u128) >> 128usize == 0) by (bit_vector);
    }

    fn width() -> (w: usize) {
        128
    }

    fn to_bits(self) -> (b: u128) {
        #[verifier::truncate] (self as u128)
    }

    fn from_bits(b: u128) -> (r: Self) {
        proof {
            assert(((b as i128) as u128) == b) by (bit_vector);
        }
        #[verifier::truncate] (b as i128)
    }
}

} // verus!
