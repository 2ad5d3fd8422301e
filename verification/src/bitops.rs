//! Bit-level arithmetic on a 128-bit word.
//!
//! Every supported backing integer is at most 128 bits wide, so the bitmap
//! operations are implemented once on `u128` and proved here. A width `w`
//! selects the low `w` bits; the rest of the word is required to stay zero.

use vstd::prelude::*;

verus! {

/// Bit `i` of the word `b`, where bit 0 is the least significant.
pub open spec fn bit_read(b: u128, i: usize) -> bool {
    (b >> i) & 1 == 1
}

/// The word `b` uses only its low `w` bits.
pub open spec fn fits_width(b: u128, w: usize) -> bool {
    b >> w == 0
}

/// The low `w` bits of `b` as a sequence, least significant first.
pub open spec fn bits_of(b: u128, w: usize) -> Seq<bool> {
    Seq::new(w as nat, |i: int| bit_read(b, i as usize))
}

/// How many entries of `s` are set.
pub open spec fn count_true(s: Seq<bool>) -> nat
    decreases s.len(),
{
    if s.len() == 0 {
        0
    } else {
        count_true(s.drop_last()) + (if s.last() {
            1nat
        } else {
            0nat
        })
    }
}

/// How many entries of `s` are clear.
pub open spec fn count_false(s: Seq<bool>) -> nat
    decreases s.len(),
{
    if s.len() == 0 {
        0
    } else {
        count_false(s.drop_last()) + (if s.last() {
            0nat
        } else {
            1nat
        })
    }
}

/// The set and the clear entries of a sequence together account for every
/// entry: their two counts always sum to the sequence's length.
pub proof fn lemma_count_split(s: Seq<bool>)
    ensures
        count_true(s) + count_false(s) == s.len(),
    decreases s.len(),
{
    if s.len() > 0 {
        lemma_count_split(s.drop_last());
    }
}

/// Counting over one more entry adds that entry's contribution.
proof fn lemma_count_true_take_succ(s: Seq<bool>, i: int)
    requires
        0 <= i < s.len(),
    ensures
        count_true(s.take(i + 1)) == count_true(s.take(i)) + (if s[i] {
            1int
        } else {
            0int
        }),
{
    assert(s.take(i + 1).drop_last() =~= s.take(i));
    assert(s.take(i + 1).last() == s[i]);
}

/// The all-zero word has no set bit at any width.
pub proof fn lemma_bits_of_zero(w: usize)
    requires
        w <= 128,
    ensures
        bits_of(0u128, w) == Seq::new(w as nat, |i: int| false),
        fits_width(0u128, w),
{
    assert forall|j: int| 0 <= j < w implies bits_of(0u128, w)[j] == false by {
        let ju = j as usize;
        assert((0u128 >> ju) & 1 != 1) by (bit_vector);
    }
    assert(bits_of(0u128, w) =~= Seq::new(w as nat, |i: int| false));
    assert(0u128 >> w == 0) by (bit_vector);
}

/// Reads bit `i` of `b`.
pub fn read_bit(b: u128, i: usize) -> (r: bool)
    requires
        i < 128,
    ensures
        r == bit_read(b, i),
{
    (b >> i) & 1 == 1
}

/// Writes bit `i` of `b`, leaving every other bit alone and never touching
/// bits at or above any width that `b` already fits.
pub fn write_bit(b: u128, i: usize, v: bool) -> (r: u128)
    requires
        i < 128,
    ensures
        r == (if v {
            b | (1u128 << i)
        } else {
            b & !(1u128 << i)
        }),
        bit_read(r, i) == v,
        forall|j: usize| j < 128 && j != i ==> bit_read(r, j) == bit_read(b, j),
        forall|w: usize| i < w <= 128 && fits_width(b, w) ==> fits_width(r, w),
{
    let r = if v {
        b | (1u128 << i)
    } else {
        b & !(1u128 << i)
    };
    proof {
        if v {
            assert(bit_read(b | (1u128 << i), i)) by (bit_vector)
                requires
                    i < 128usize,
            ;
        } else {
            assert(!bit_read(b & !(1u128 << i), i)) by (bit_vector)
                requires
                    i < 128usize,
            ;
        }
        assert forall|j: usize| j < 128 && j != i implies bit_read(r, j) == bit_read(b, j) by {
            if v {
                assert(bit_read(b | (1u128 << i), j) == bit_read(b, j)) by (bit_vector)
                    requires
                        i < 128usize,
                        j < 128usize,
                        i != j,
                ;
            } else {
                assert(bit_read(b & !(1u128 << i), j) == bit_read(b, j)) by (bit_vector)
                    requires
                        i < 128usize,
                        j < 128usize,
                        i != j,
                ;
            }
        }
        assert forall|w: usize| i < w <= 128 && fits_width(b, w) implies fits_width(r, w) by {
            if v {
                assert((b | (1u128 << i)) >> w == 0) by (bit_vector)
                    requires
                        i < w,
                        w <= 128usize,
                        b >> w == 0,
                ;
            } else {
                assert((b & !(1u128 << i)) >> w == 0) by (bit_vector)
                    requires
                        b >> w == 0,
                ;
            }
        }
    }
    r
}

/// A written word reads back, bit for bit, as the old word with one entry
/// replaced.
pub proof fn lemma_write_bit_bits(b: u128, r: u128, i: usize, v: bool, w: usize)
    requires
        i < w <= 128,
        bit_read(r, i) == v,
        forall|j: usize| j < 128 && j != i ==> bit_read(r, j) == bit_read(b, j),
    ensures
        bits_of(r, w) == bits_of(b, w).update(i as int, v),
{
    assert forall|j: int|
        0 <= j < w implies bits_of(r, w)[j] == bits_of(b, w).update(i as int, v)[j] by {
        if j != i {
            assert(bit_read(r, j as usize) == bit_read(b, j as usize));
        }
    }
    assert(bits_of(r, w) =~= bits_of(b, w).update(i as int, v));
}

/// Counts the set bits among the low `w` bits of `b`.
pub fn ones_below(b: u128, w: usize) -> (n: usize)
    requires
        w <= 128,
    ensures
        n == count_true(bits_of(b, w)),
        n <= w,
{
    let mut n: usize = 0;
    let mut i: usize = 0;
    while i < w
        invariant
            i <= w <= 128,
            n <= i,
            n == count_true(bits_of(b, w).take(i as int)),
        decreases w - i,
    {
        proof {
            lemma_count_true_take_succ(bits_of(b, w), i as int);
        }
        if read_bit(b, i) {
            n = n + 1;
        }
        i = i + 1;
    }
    proof {
        assert(bits_of(b, w).take(w as int) =~= bits_of(b, w));
    }
    n
}

} // verus!
