//! A bitmap backed by a single primitive integer.
//!
//! `BitMap<T>` wraps one value of a fixed-width integer type `T` and exposes
//! its bits individually: bit `i` is the `i`-th least-significant bit of the
//! backing integer. No array stands behind the bits; every operation is a few
//! machine instructions on that one integer. Bits can be read, set, cleared,
//! flipped and counted by index, and walked from both ends by the iterators
//! under [`iterators`].

pub mod bitops;
pub mod error;
pub mod iterators;
pub mod num_widths;
pub mod prelude;

use vstd::prelude::*;

verus! {

use crate::bitops::{bit_read, bits_of, count_false, count_true, fits_width};
use crate::error::IndexError;
use crate::num_widths::ConstWidth;

/// A bitmap with an integer type backend.
///
/// Type `T` is the integer used to store the bits. No arrays are used
/// internally: the bitmap is exactly one value of `T`, and bit `i` lives at
/// the `i`-th least-significant position of that value.
#[derive(Debug, Clone, Copy, PartialEq, Eq, PartialOrd, Ord, Hash, Default)]
pub struct BitMap<T: ConstWidth>(T);

impl<T: ConstWidth> BitMap<T> {
    /// The backing integer.
    pub closed spec fn spec_value(self) -> T {
        self.0
    }

    /// The bitmap's contents: its `T::spec_width()` bits, least significant
    /// first.
    pub open spec fn bits(self) -> Seq<bool> {
        bits_of(self.spec_value().as_bits(), T::spec_width())
    }

    /// Creates a new bitmap with all bits set to zero.
    pub fn new() -> (r: Self)
        ensures
            r.bits() == Seq::new(T::spec_width() as nat, |i: int| false),
            r.spec_value().as_bits() == 0,
    {
        proof {
            T::lemma_width();
            crate::bitops::lemma_bits_of_zero(T::spec_width());
        }
        BitMap(T::from_bits(0))
    }

    /// Returns the value of the bitmap. This is the integer that holds all
    /// the bits.
    pub fn value(self) -> (r: T)
        ensures
            r == self.spec_value(),
    {
        self.0
    }

    /// Replaces the value of the bitmap. This will change the integer that
    /// holds all the bits.
    pub fn replace(&mut self, another: T)
        ensures
            final(self).spec_value() == another,
    {
        self.0 = another;
    }

    /// Gets the nth bit of the bitmap, or nothing when the index is at or
    /// past the width.
    pub fn nth_bit(self, index: usize) -> (r: Option<bool>)
        ensures
            index < T::spec_width() ==> r == Some(self.bits()[index as int]),
            index >= T::spec_width() ==> r is None,
    {
        proof {
            T::lemma_width();
        }
        if index >= T::width() {
            None
        } else {
            Some(crate::bitops::read_bit(self.0.to_bits(), index))
        }
    }

    /// Sets the nth bit of the bitmap. With an index at or past the width it
    /// fails and leaves the bitmap untouched.
    pub fn set_nth(&mut self, index: usize, value: bool) -> (r: Result<(), IndexError>)
        ensures
            index < T::spec_width() ==> r is Ok && final(self).bits() == old(self).bits().update(
                index as int,
                value,
            ) && final(self).spec_value().as_bits() == (if value {
                old(self).spec_value().as_bits() | (1u128 << index)
            } else {
                old(self).spec_value().as_bits() & !(1u128 << index)
            }),
            index >= T::spec_width() ==> r is Err && final(self).spec_value() == old(
                self,
            ).spec_value(),
    {
        proof {
            T::lemma_width();
            self.0.lemma_fits();
        }
        if index >= T::width() {
            return Err(IndexError);
        }
        let nb = crate::bitops::write_bit(self.0.to_bits(), index, value);
        proof {
            crate::bitops::lemma_write_bit_bits(
                self.0.as_bits(),
                nb,
                index,
                value,
                T::spec_width(),
            );
        }
        self.0 = T::from_bits(nb);
        Ok(())
    }

    /// Flips the nth bit of the bitmap. With an index at or past the width it
    /// fails and leaves the bitmap untouched.
    pub fn flip_nth(&mut self, index: usize) -> (r: Result<(), IndexError>)
        ensures
            index < T::spec_width() ==> r is Ok && final(self).bits() == old(self).bits().update(
                index as int,
                !old(self).bits()[index as int],
            ) && final(self).spec_value().as_bits() == old(self).spec_value().as_bits() ^ (
            1u128 << index),
            index >= T::spec_width() ==> r is Err && final(self).spec_value() == old(
                self,
            ).spec_value(),
    {
        let current = match self.nth_bit(index) {
            Some(c) => c,
            None => {
                return Err(IndexError);
            },
        };
        if current {
            self.set_nth(index, false)?;
        } else {
            self.set_nth(index, true)?;
        }
        proof {
            T::lemma_width();
            let b = old(self).spec_value().as_bits();
            if current {
                assert((b & !(1u128 << index)) == (b ^ (1u128 << index))) by (bit_vector)
                    requires
                        index < 128usize,
                        (b >> index) & 1 == 1,
                ;
            } else {
                assert((b | (1u128 << index)) == (b ^ (1u128 << index))) by (bit_vector)
                    requires
                        index < 128usize,
                        (b >> index) & 1 != 1,
                ;
            }
        }
        Ok(())
    }

    /// Counts all ones in the bitmap, across the entire width of `T`.
    pub fn count_ones(&self) -> (n: usize)
        ensures
            n == count_true(self.bits()),
            n <= T::spec_width(),
    {
        proof {
            T::lemma_width();
        }
        crate::bitops::ones_below(self.0.to_bits(), T::width())
    }

    /// Counts all zeros in the bitmap, across the entire width of `T`.
    pub fn count_zeros(&self) -> (n: usize)
        ensures
            n == count_false(self.bits()),
            n + count_true(self.bits()) == T::spec_width(),
    {
        proof {
            crate::bitops::lemma_count_split(self.bits());
        }
        let ones = self.count_ones();
        T::width() - ones
    }

    /// Collects every bit by running the borrowing iterator forward to
    /// exhaustion: the result is exactly the bitmap's contents in `nth_bit`
    /// order.
    pub fn collect_bits(&self) -> (v: Vec<bool>)
        ensures
            v@ == self.bits(),
    {
        proof {
            T::lemma_width();
        }
        let w = T::width();
        let mut it = self.iter();
        let mut v: Vec<bool> = Vec::new();
        let mut i: usize = 0;
        proof {
            assert(self.bits().skip(0) =~= self.bits());
            assert(v@ =~= self.bits().take(0));
        }
        while i < w
            invariant
                i <= w,
                w == T::spec_width(),
                it.remaining() == self.bits().skip(i as int),
                v@ == self.bits().take(i as int),
            decreases w - i,
        {
            proof {
                assert(self.bits().skip(i as int).drop_first() =~= self.bits().skip(i as int + 1));
                assert(self.bits().take(i as int).push(self.bits()[i as int]) =~= self.bits().take(
                    i as int + 1,
                ));
            }
            let b = match it.next() {
                Some(b) => b,
                None => unreached(),
            };
            v.push(b);
            i = i + 1;
        }
        proof {
            assert(self.bits().take(w as int) =~= self.bits());
        }
        v
    }

    /// Collects every bit by running the borrowing iterator backward to
    /// exhaustion: the result is exactly the bitmap's contents reversed.
    pub fn collect_bits_rev(&self) -> (v: Vec<bool>)
        ensures
            v@ == self.bits().reverse(),
    {
        proof {
            T::lemma_width();
        }
        let w = T::width();
        let mut it = self.iter();
        let mut v: Vec<bool> = Vec::new();
        let mut i: usize = 0;
        proof {
            assert(self.bits().take(w as int) =~= self.bits());
            assert(v@ =~= self.bits().skip(w as int).reverse());
        }
        while i < w
            invariant
                i <= w,
                w == T::spec_width(),
                it.remaining() == self.bits().take((w - i) as int),
                v@ == self.bits().skip((w - i) as int).reverse(),
            decreases w - i,
        {
            proof {
                let k = (w - i) as int;
                assert(self.bits().take(k).drop_last() =~= self.bits().take(k - 1));
                assert(self.bits().skip(k - 1).reverse() =~= self.bits().skip(k).reverse().push(
                    self.bits()[k - 1],
                ));
            }
            let b = match it.next_back() {
                Some(b) => b,
                None => unreached(),
            };
            v.push(b);
            i = i + 1;
        }
        proof {
            assert(self.bits().skip(0).reverse() =~= self.bits().reverse());
        }
        v
    }
}

/// Setting a valid bit reads back as written, clearing it afterwards reads
/// back clear, and no other index is disturbed either time.
pub proof fn lemma_set_nth_reads_back<T: ConstWidth>(m: BitMap<T>, index: int, value: bool)
    requires
        0 <= index < T::spec_width(),
    ensures
        m.bits().update(index, value)[index] == value,
        m.bits().update(index, true).update(index, false)[index] == false,
        forall|j: int|
            0 <= j < T::spec_width() && j != index ==> m.bits().update(index, value)[j]
                == m.bits()[j] && m.bits().update(index, true).update(index, false)[j]
                == m.bits()[j],
{
}

/// Flipping the same valid bit twice restores the bitmap's contents exactly.
pub proof fn lemma_flip_nth_involution<T: ConstWidth>(m: BitMap<T>, index: int)
    requires
        0 <= index < T::spec_width(),
    ensures
        ({
            let once = m.bits().update(index, !m.bits()[index]);
            once.update(index, !once[index]) == m.bits()
        }),
{
    let once = m.bits().update(index, !m.bits()[index]);
    assert(once.update(index, !once[index]) =~= m.bits());
}

} // verus!
