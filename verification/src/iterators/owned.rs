//! The consuming iterator: it owns the bitmap it walks.

use vstd::prelude::*;

verus! {

use crate::num_widths::ConstWidth;
use crate::BitMap;

/// Walks the bits of an owned bitmap from both ends inward, least
/// significant bit first.
///
/// `pos` is the next position to read from the front; `pos_back` is one past
/// the next position to read from the back. The iterator is exhausted exactly
/// when the two cursors meet, and it stays exhausted: neither cursor ever
/// moves again, so no arithmetic can wrap.
pub struct IntoBitMapIter<T: ConstWidth> {
    bitmap: BitMap<T>,
    pos: usize,
    pos_back: usize,
}

impl<T: ConstWidth> IntoBitMapIter<T> {
    /// Both cursors stay inside the bitmap's width and never cross.
    #[verifier::type_invariant]
    spec fn cursors_in_order(self) -> bool {
        self.pos <= self.pos_back <= T::spec_width()
    }

    /// The bitmap the iterator owns.
    pub closed spec fn source(self) -> BitMap<T> {
        self.bitmap
    }

    /// The bits not yet yielded, in bit-index order.
    pub closed spec fn remaining(self) -> Seq<bool> {
        self.bitmap.bits().subrange(self.pos as int, self.pos_back as int)
    }

    /// Yields the lowest-indexed bit not yet yielded, or nothing once the
    /// cursors have met; once exhausted it answers nothing forever.
    pub fn next(&mut self) -> (r: Option<bool>)
        ensures
            final(self).source() == old(self).source(),
            old(self).remaining().len() > 0 ==> r == Some(old(self).remaining()[0]) && final(self).remaining() == old(self).remaining().drop_first(),
            old(self).remaining().len() == 0 ==> r is None && final(self).remaining() == old(
                self,
            ).remaining(),
    {
        proof {
            use_type_invariant(&*self);
            T::lemma_width();
        }
        if self.pos >= self.pos_back {
            return None;
        }
        let current = self.bitmap.nth_bit(self.pos)?;
        self.pos = self.pos + 1;
        proof {
            assert(self.remaining() =~= old(self).remaining().drop_first());
        }
        Some(current)
    }

    /// Yields the highest-indexed bit not yet yielded, or nothing once the
    /// cursors have met; once exhausted it answers nothing forever.
    pub fn next_back(&mut self) -> (r: Option<bool>)
        ensures
            final(self).source() == old(self).source(),
            old(self).remaining().len() > 0 ==> r == Some(old(self).remaining().last()) && final(self).remaining() == old(self).remaining().drop_last(),
            old(self).remaining().len() == 0 ==> r is None && final(self).remaining() == old(
                self,
            ).remaining(),
    {
        proof {
            use_type_invariant(&*self);
            T::lemma_width();
        }
        if self.pos_back <= self.pos {
            return None;
        }
        let current = self.bitmap.nth_bit(self.pos_back - 1)?;
        self.pos_back = self.pos_back - 1;
        proof {
            assert(self.remaining() =~= old(self).remaining().drop_last());
        }
        Some(current)
    }
}

/// Runs a fresh iterator over `m` dry, stepping from the front wherever
/// `from_front` says so (cycling through it; an empty pattern walks forward
/// only): whatever the interleaving of the two ends, the walk yields exactly
/// one value per bit of the bitmap's width before both ends are exhausted.
pub fn interleaved_drain<T: ConstWidth>(m: BitMap<T>, from_front: &Vec<bool>) -> (n: usize)
    ensures
        n == T::spec_width(),
{
    proof {
        T::lemma_width();
    }
    let w = T::width();
    let mut it = m.into_iter();
    let mut n: usize = 0;
    while n < w
        invariant
            n <= w,
            w == T::spec_width(),
            it.remaining().len() == w - n,
        decreases w - n,
    {
        let front = if from_front.len() == 0 {
            true
        } else {
            from_front[n % from_front.len()]
        };
        let stepped = if front {
            it.next()
        } else {
            it.next_back()
        };
        match stepped {
            Some(_) => {
                n = n + 1;
            },
            None => {
                unreached()
            },
        }
    }
    n
}

impl<T: ConstWidth> BitMap<T> {
    /// Takes the bitmap over and yields every one of its bits, least
    /// significant first, from either end.
    pub fn into_iter(self) -> (it: IntoBitMapIter<T>)
        ensures
            it.source() == self,
            it.remaining() == self.bits(),
    {
        proof {
            T::lemma_width();
        }
        let it = IntoBitMapIter { bitmap: self, pos: 0, pos_back: T::width() };
        proof {
            assert(it.remaining() =~= self.bits());
        }
        it
    }
}

} // verus!
