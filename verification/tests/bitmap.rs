use easy_bitmap::error::IndexError;
use easy_bitmap::prelude::{BitMap, BitMap16, BitMap32, BitMap64, BitMap8};

#[test]
fn new_is_all_zero() {
    assert_eq!(BitMap8::new().value(), 0);
    assert_eq!(BitMap16::new().value(), 0);
    assert_eq!(BitMap32::new().value(), 0);
    assert_eq!(BitMap64::new().value(), 0);
    assert_eq!(BitMap::<u128>::new().value(), 0);
    for i in 0..8 {
        assert_eq!(BitMap8::new().nth_bit(i), Some(false));
    }
}

#[test]
fn replace_overwrites_value() {
    let mut m = BitMap8::new();
    m.replace(4);
    assert_eq!(m.value(), 4);
    m.replace(255);
    assert_eq!(m.value(), 255);
}

#[test]
fn value_four_reads_as_bit_two() {
    // An 8-bit bitmap holding 4 (0b00000100) has exactly bit 2 set.
    let mut m = BitMap8::new();
    m.replace(4);
    for i in 0..8 {
        assert_eq!(m.nth_bit(i), Some(i == 2));
    }
    assert_eq!(m.count_ones(), 1);
    assert_eq!(m.count_zeros(), 7);
}

#[test]
fn set_then_get_every_width() {
    // Setting a valid bit reads back as set, clearing it reads back as
    // clear, and no other index moves either time.
    for i in 0..8 {
        let mut m = BitMap8::new();
        m.set_nth(i, true).unwrap();
        assert_eq!(m.nth_bit(i), Some(true));
        for j in 0..8 {
            if j != i {
                assert_eq!(m.nth_bit(j), Some(false));
            }
        }
        m.set_nth(i, false).unwrap();
        for j in 0..8 {
            assert_eq!(m.nth_bit(j), Some(false));
        }
    }
    for i in 0..16 {
        let mut m = BitMap16::new();
        m.set_nth(i, true).unwrap();
        assert_eq!(m.nth_bit(i), Some(true));
        m.set_nth(i, false).unwrap();
        assert_eq!(m.nth_bit(i), Some(false));
    }
    for i in 0..32 {
        let mut m = BitMap32::new();
        m.set_nth(i, true).unwrap();
        assert_eq!(m.nth_bit(i), Some(true));
        assert_eq!(m.count_ones(), 1);
    }
    for i in 0..64 {
        let mut m = BitMap64::new();
        m.set_nth(i, true).unwrap();
        assert_eq!(m.value(), 1u64 << i);
    }
    for i in 0..128 {
        let mut m: BitMap<u128> = BitMap::new();
        m.set_nth(i, true).unwrap();
        assert_eq!(m.value(), 1u128 << i);
        for j in 0..128 {
            assert_eq!(m.nth_bit(j), Some(j == i));
        }
    }
}

#[test]
fn out_of_range_index_fails_and_mutates_nothing() {
    let mut m = BitMap8::new();
    m.replace(4);
    assert_eq!(m.nth_bit(8), None);
    assert_eq!(m.nth_bit(100), None);
    assert_eq!(m.set_nth(8, true), Err(IndexError));
    assert_eq!(m.set_nth(100, false), Err(IndexError));
    assert_eq!(m.flip_nth(8), Err(IndexError));
    assert_eq!(m.value(), 4);

    let mut wide: BitMap<u128> = BitMap::new();
    assert_eq!(wide.nth_bit(128), None);
    assert_eq!(wide.set_nth(128, true), Err(IndexError));
    assert_eq!(wide.flip_nth(128), Err(IndexError));
    assert_eq!(wide.value(), 0);
}

#[test]
fn flip_twice_restores() {
    let mut m = BitMap8::new();
    m.replace(0b0110_0101);
    for i in 0..8 {
        let before = m.value();
        m.flip_nth(i).unwrap();
        assert_ne!(m.value(), before);
        m.flip_nth(i).unwrap();
        assert_eq!(m.value(), before);
    }
}

#[test]
fn flip_from_zero_sets_bit_two_to_four() {
    let mut m = BitMap8::new();
    m.flip_nth(2).unwrap();
    assert_eq!(m.value(), 4);
}

#[test]
fn counts_sum_to_width() {
    let mut m8 = BitMap8::new();
    m8.replace(0b1010_0110);
    assert_eq!(m8.count_ones(), 4);
    assert_eq!(m8.count_zeros(), 4);
    assert_eq!(m8.count_ones() + m8.count_zeros(), 8);

    let mut m16 = BitMap16::new();
    m16.replace(u16::MAX);
    assert_eq!(m16.count_ones(), 16);
    assert_eq!(m16.count_zeros(), 0);

    let mut m32 = BitMap32::new();
    m32.replace(1);
    assert_eq!(m32.count_ones() + m32.count_zeros(), 32);

    let mut m64 = BitMap64::new();
    m64.replace(u64::MAX - 1);
    assert_eq!(m64.count_ones(), 63);
    assert_eq!(m64.count_ones() + m64.count_zeros(), 64);

    let mut m128: BitMap<u128> = BitMap::new();
    m128.replace(u128::MAX);
    assert_eq!(m128.count_ones(), 128);
    assert_eq!(m128.count_ones() + m128.count_zeros(), 128);
}

#[test]
fn signed_backends_hold_their_bit_patterns() {
    let mut m: BitMap<i8> = BitMap::new();
    m.set_nth(7, true).unwrap();
    assert_eq!(m.value(), i8::MIN);
    assert_eq!(m.nth_bit(7), Some(true));
    assert_eq!(m.count_ones(), 1);
    assert_eq!(m.count_zeros(), 7);
    m.flip_nth(7).unwrap();
    assert_eq!(m.value(), 0);

    let mut w: BitMap<i64> = BitMap::new();
    w.replace(-1);
    assert_eq!(w.count_ones(), 64);
    assert_eq!(w.nth_bit(0), Some(true));
    assert_eq!(w.nth_bit(63), Some(true));
    w.set_nth(63, false).unwrap();
    assert_eq!(w.value(), i64::MAX);
}

#[test]
fn forward_collection_matches_nth_bits() {
    let mut m = BitMap8::new();
    m.replace(0b0100_0111);
    let collected = m.collect_bits();
    let by_index: Vec<bool> = (0..8).map(|i| m.nth_bit(i).unwrap()).collect();
    assert_eq!(collected, by_index);

    let mut forward = Vec::new();
    let mut it = m.iter();
    while let Some(b) = it.next() {
        forward.push(b);
    }
    assert_eq!(forward, by_index);
}

#[test]
fn backward_collection_is_the_reverse() {
    let mut m = BitMap8::new();
    m.replace(0b0100_0111);
    let mut reversed: Vec<bool> = (0..8).map(|i| m.nth_bit(i).unwrap()).collect();
    reversed.reverse();
    assert_eq!(m.collect_bits_rev(), reversed);

    let mut backward = Vec::new();
    let mut it = m.iter();
    while let Some(b) = it.next_back() {
        backward.push(b);
    }
    assert_eq!(backward, reversed);
}

#[test]
fn any_interleaving_yields_exactly_width_values() {
    // All-forward, all-backward and alternating walks each yield exactly
    // eight values before both ends answer None forever.
    let mut m = BitMap8::new();
    m.replace(0b1001_1101);

    let mut it = m.into_iter();
    let mut count = 0;
    while it.next().is_some() {
        count += 1;
    }
    assert_eq!(count, 8);
    assert_eq!(it.next(), None);
    assert_eq!(it.next_back(), None);

    let mut it = m.into_iter();
    let mut count = 0;
    while it.next_back().is_some() {
        count += 1;
    }
    assert_eq!(count, 8);
    assert_eq!(it.next_back(), None);
    assert_eq!(it.next(), None);

    let mut it = m.into_iter();
    let mut count = 0;
    loop {
        let stepped_front = it.next().is_some();
        if stepped_front {
            count += 1;
        }
        let stepped_back = it.next_back().is_some();
        if stepped_back {
            count += 1;
        }
        if !stepped_front && !stepped_back {
            break;
        }
    }
    assert_eq!(count, 8);
}

#[test]
fn patterned_drains_always_yield_width_values() {
    let mut m = BitMap8::new();
    m.replace(0b1100_0011);
    let patterns: Vec<Vec<bool>> = vec![
        vec![],
        vec![true],
        vec![false],
        vec![true, false],
        vec![false, false, true],
        vec![true, true, false, true, false],
    ];
    for pattern in &patterns {
        assert_eq!(easy_bitmap::iterators::owned::interleaved_drain(m, pattern), 8);
    }
    let wide: BitMap<u128> = BitMap::new();
    assert_eq!(
        easy_bitmap::iterators::owned::interleaved_drain(wide, &vec![true, false]),
        128
    );
}

#[test]
fn alternating_walk_reorders_the_bits() {
    // Bits [true,true,true,false,false,false,true,false] walked with
    // alternating next/next_back calls come out as
    // true,false,true,true,true,false,false,false, then None from both ends.
    let mut m = BitMap8::new();
    for (i, b) in [true, true, true, false, false, false, true, false]
        .into_iter()
        .enumerate()
    {
        m.set_nth(i, b).unwrap();
    }

    let mut forward = m.into_iter();
    for expected in [true, true, true, false, false, false, true, false] {
        assert_eq!(forward.next(), Some(expected));
    }
    assert_eq!(forward.next(), None);
    assert_eq!(forward.next(), None);

    let mut both = m.into_iter();
    let mut seen = Vec::new();
    for _ in 0..4 {
        seen.push(both.next().unwrap());
        seen.push(both.next_back().unwrap());
    }
    assert_eq!(
        seen,
        vec![true, false, true, true, true, false, false, false]
    );
    assert_eq!(both.next(), None);
    assert_eq!(both.next_back(), None);
}

#[test]
fn borrowing_iterator_leaves_the_bitmap_usable() {
    let mut m = BitMap8::new();
    m.replace(0b0000_0101);
    let mut it = m.iter();
    assert_eq!(it.next(), Some(true));
    assert_eq!(it.next(), Some(false));
    assert_eq!(it.next_back(), Some(false));
    drop(it);
    assert_eq!(m.value(), 0b0000_0101);
    assert_eq!(m.count_ones(), 2);
}
