//! The borrowing iterator: it walks a bitmap held by reference.

use vstd::prelude::*;

verus! {

use crate::num_widths::ConstWidth;
use crate::BitMap;

/// Walks the bits of a borrowed bitmap from both ends inward, least
/// significant bit first.
///
/// `pos` is the next position to read from the front; `pos_back` is one past
/// the next position to read from the back. The iterator is exhausted exactly
/// when the two cursors meet, and it stays exhausted: neither cursor ever
/// moves again, so no arithmetic can wrap.
pub struct BitMapIter<'b, T: ConstWidth> {
    bitmap: &'b BitMap<T>,
    pos: usize,
    pos_back: usize,
}

impl<'b, T: ConstWidth> BitMapIter<'b, T> {
    /// Both cursors stay inside the bitmap's width and never cross.
    #[verifier::type_invariant]
    spec fn cursors_in_order(self) -> bool {
        self.pos <= self.pos_back <= T::spec_width()
    }

    /// The bitmap the iterator borrows.
    pub closed spec fn source(self) -> BitMap<T> {
        *self.bitmap
    }

    /// The bits not yet yielded, in bit-index order.
    pub closed spec fn remaining(self) -> Seq<bool> {
        self.bitmap.bits().subrange(self.pos as int, self.pos_back as int)
    }

    /// Yields the lowest-indexed bit not yet yielded, or nothing once the
    /// cursors have met; once exhausted it answers nothing forever.
    pub fn next(&mut self) -> (r: Option<bool>)
        ensures
            final(self).source() == old(self).source(),
            old(self).remaining().len() > 0 ==> r == Some(old(self).remaining()[0]) && final(self).remaining() == old(self).remaining().drop_first(),
            old(self).remaining().len() == 0 ==> r is None && final(self).remaining() == old(
                self,
            ).remaining(),
    {
        proof {
            use_type_invariant(&*self);
            T::lemma_width();
        }
        if self.pos >= self.pos_back {
            return None;
        }
        let current = self.bitmap.nth_bit(self.pos)?;
        self.pos = self.pos + 1;
        proof {
            assert(self.remaining() =~= old(self).remaining().drop_first());
        }
        Some(current)
    }

    /// Yields the highest-indexed bit not yet yielded, or nothing once the
    /// cursors have met; once exhausted it answers nothing forever.
    pub fn next_back(&mut self) -> (r: Option<bool>)
        ensures
            final(self).source() == old(self).source(),
            old(self).remaining().len() > 0 ==> r == Some(old(self).remaining().last()) && final(self).remaining() == old(self).remaining().drop_last(),
            old(self).remaining().len() == 0 ==> r is None && final(self).remaining() == old(
                self,
            ).remaining(),
    {
        proof {
            use_type_invariant(&*self);
            T::lemma_width();
        }
        if self.pos_back <= self.pos {
            return None;
        }
        let current = self.bitmap.nth_bit(self.pos_back - 1)?;
        self.pos_back = self.pos_back - 1;
        proof {
            assert(self.remaining() =~= old(self).remaining().drop_last());
        }
        Some(current)
    }
}

impl<T: ConstWidth> BitMap<T> {
    /// Yields every bit of the bitmap, least significant first, from either
    /// end, leaving the bitmap with the caller.
    pub fn iter(&self) -> (it: BitMapIter<'_, T>)
        ensures
            it.source() == *self,
            it.remaining() == self.bits(),
    {
        proof {
            T::lemma_width();
        }
        let it = BitMapIter { bitmap: self, pos: 0, pos_back: T::width() };
        proof {
            assert(it.remaining() =~= self.bits());
        }
        it
    }
}

} // verus!
