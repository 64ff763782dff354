//! The set of punctuation marks.

use sevseg::flags::{ALL_MARKS, RESERVED};
use sevseg::PunctuationFlags;

#[test]
fn each_mark_has_its_bit() {
    assert_eq!(PunctuationFlags::dot_between_1_and_2().bits(), 0b0000_0001);
    assert_eq!(PunctuationFlags::dot_between_2_and_3().bits(), 0b0000_0010);
    assert_eq!(PunctuationFlags::dot_between_3_and_4().bits(), 0b0000_0100);
    assert_eq!(PunctuationFlags::dot_right_of_4().bits(), 0b0000_1000);
    assert_eq!(PunctuationFlags::dots_colon().bits(), 0b0001_0000);
    assert_eq!(PunctuationFlags::apostrophe_between_3_and_4().bits(), 0b0010_0000);
    assert_eq!(PunctuationFlags::none().bits(), 0);
}

#[test]
fn empty_and_all_are_the_two_ends() {
    assert_eq!(PunctuationFlags::empty().bits(), 0x00);
    assert_eq!(PunctuationFlags::all().bits(), 0x3F);
    assert_eq!(ALL_MARKS, 0x3F);
    assert_eq!(RESERVED, 0xC0);
    assert!(PunctuationFlags::empty().is_empty());
    assert!(!PunctuationFlags::empty().is_all());
    assert!(PunctuationFlags::all().is_all());
    assert!(!PunctuationFlags::all().is_empty());
    assert_eq!(PunctuationFlags::none(), PunctuationFlags::empty());
}

#[test]
fn from_bits_takes_a_mask_without_reserved_bits() {
    for mask in 0u8..=255 {
        match PunctuationFlags::from_bits(mask) {
            Some(flags) => {
                assert!(mask <= 0x3F);
                assert_eq!(flags.bits(), mask);
            }
            None => assert!(mask > 0x3F),
        }
    }
}

#[test]
fn from_bits_truncate_drops_the_reserved_bits() {
    for mask in 0u8..=255 {
        assert_eq!(PunctuationFlags::from_bits_truncate(mask).bits(), mask & 0x3F);
    }
    assert_eq!(PunctuationFlags::from_bits_truncate(0xFF), PunctuationFlags::all());
    assert_eq!(PunctuationFlags::from_bits_truncate(0xD1).bits(), 0x11);
}

#[test]
fn union_intersection_and_difference_work_bit_by_bit() {
    let a = PunctuationFlags::from_bits(0b00_1100).unwrap();
    let b = PunctuationFlags::from_bits(0b01_0100).unwrap();
    assert_eq!(a.union(b).bits(), 0b01_1100);
    assert_eq!(a.intersection(b).bits(), 0b00_0100);
    assert_eq!(a.difference(b).bits(), 0b00_1000);
    assert_eq!(b.difference(a).bits(), 0b01_0000);
    assert_eq!(a.symmetric_difference(b).bits(), 0b01_1000);
}

#[test]
fn complement_stays_within_the_six_marks() {
    assert_eq!(PunctuationFlags::empty().complement(), PunctuationFlags::all());
    assert_eq!(PunctuationFlags::all().complement(), PunctuationFlags::empty());
    assert_eq!(PunctuationFlags::dots_colon().complement().bits(), 0b10_1111);
    for mask in 0u8..=0x3F {
        let flags = PunctuationFlags::from_bits(mask).unwrap();
        assert_eq!(flags.complement().bits() & 0xC0, 0);
        assert_eq!(flags.complement().complement(), flags);
    }
}

#[test]
fn the_operators_are_the_named_operations() {
    for x in 0u8..=0x3F {
        for y in 0u8..=0x3F {
            let a = PunctuationFlags::from_bits(x).unwrap();
            let b = PunctuationFlags::from_bits(y).unwrap();
            assert_eq!((a | b).bits(), x | y);
            assert_eq!((a & b).bits(), x & y);
            assert_eq!((a ^ b).bits(), x ^ y);
            assert_eq!((a - b).bits(), x & !y);
            assert_eq!(a | b, a.union(b));
            assert_eq!(a & b, a.intersection(b));
            assert_eq!(a ^ b, a.symmetric_difference(b));
            assert_eq!(a - b, a.difference(b));
        }
        let a = PunctuationFlags::from_bits(x).unwrap();
        assert_eq!((!a).bits(), !x & 0x3F);
        assert_eq!(!a, a.complement());
    }
}

#[test]
fn contains_and_intersects_tell_subsets_from_overlaps() {
    let colon = PunctuationFlags::dots_colon();
    let dot = PunctuationFlags::dot_between_1_and_2();
    let both = colon | dot;
    assert!(both.contains(colon));
    assert!(both.contains(dot));
    assert!(both.contains(both));
    assert!(!colon.contains(both));
    assert!(colon.contains(PunctuationFlags::empty()));
    assert!(both.intersects(colon));
    assert!(!colon.intersects(dot));
    assert!(!colon.intersects(PunctuationFlags::empty()));
}

#[test]
fn insert_remove_toggle_and_set_change_the_set_in_place() {
    let colon = PunctuationFlags::dots_colon();
    let dot = PunctuationFlags::dot_right_of_4();
    let mut flags = PunctuationFlags::empty();
    flags.insert(colon);
    assert_eq!(flags.bits(), 0x10);
    flags.insert(dot);
    assert_eq!(flags.bits(), 0x18);
    flags.remove(colon);
    assert_eq!(flags.bits(), 0x08);
    flags.remove(colon);
    assert_eq!(flags.bits(), 0x08);
    flags.toggle(colon | dot);
    assert_eq!(flags.bits(), 0x10);
    flags.set(dot, true);
    assert_eq!(flags.bits(), 0x18);
    flags.set(colon, false);
    assert_eq!(flags.bits(), 0x08);
}

#[test]
fn no_set_holds_a_reserved_bit() {
    for x in 0u8..=255 {
        let a = PunctuationFlags::from_bits_truncate(x);
        assert_eq!(a.bits() & 0xC0, 0);
        assert_eq!((!a).bits() & 0xC0, 0);
        assert_eq!((a ^ PunctuationFlags::all()).bits() & 0xC0, 0);
    }
}

#[test]
fn the_assigning_operators_change_the_left_side() {
    for x in 0u8..=0x3F {
        for y in 0u8..=0x3F {
            let a = PunctuationFlags::from_bits(x).unwrap();
            let b = PunctuationFlags::from_bits(y).unwrap();
            let mut c = a;
            c |= b;
            assert_eq!(c.bits(), x | y);
            let mut c = a;
            c &= b;
            assert_eq!(c.bits(), x & y);
            let mut c = a;
            c ^= b;
            assert_eq!(c.bits(), x ^ y);
            let mut c = a;
            c -= b;
            assert_eq!(c.bits(), x & !y);
        }
    }
}
