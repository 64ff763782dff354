//! The punctuation marks of the display as a set.

use vstd::prelude::*;

verus! {

/// The mask bits that stand for a punctuation mark.
pub const ALL_MARKS: u8 = 0x3F;

/// The mask bits that stand for nothing and are sent as zero.
pub const RESERVED: u8 = 0xC0;

/// A set of punctuation marks, packed into the mask byte that the display takes.
///
/// The view of a set is its mask byte: bit 0 is the dot between the first two
/// digits, bit 1 the dot between the second and the third, bit 2 the dot
/// between the last two, bit 3 the dot right of the last digit, bit 4 the
/// colon and bit 5 the apostrophe. No set holds a reserved bit.
#[derive(Clone, Copy, Debug, PartialEq, Eq, Structural, PartialOrd, Ord, Hash)]
pub struct PunctuationFlags {
    bits: u8,
}

impl View for PunctuationFlags {
    type V = u8;

    closed spec fn view(&self) -> u8 {
        self.bits
    }
}

impl PunctuationFlags {
    #[verifier::type_invariant]
    spec fn inv(self) -> bool {
        self.bits & RESERVED == 0
    }

    /// The set whose mask byte is `mask`.
    pub closed spec fn from_mask(mask: u8) -> Self {
        PunctuationFlags { bits: mask }
    }

    /// A set and its mask byte determine each other.
    pub proof fn lemma_mask_round_trip(self, mask: u8)
        ensures
            Self::from_mask(self@) == self,
            Self::from_mask(mask)@ == mask,
    {
    }

    fn known(bits: u8) -> (r: Self)
        requires
            bits & RESERVED == 0,
        ensures
            r == Self::from_mask(bits),
            r@ == bits,
    {
        PunctuationFlags { bits }
    }

    /// The dot between the first and the second digit.
    pub fn dot_between_1_and_2() -> (r: Self)
        ensures
            r@ == 0x01,
    {
        assert(0x01u8 & RESERVED == 0) by (bit_vector);
        Self::known(0x01)
    }

    /// The dot between the second and the third digit.
    pub fn dot_between_2_and_3() -> (r: Self)
        ensures
            r@ == 0x02,
    {
        assert(0x02u8 & RESERVED == 0) by (bit_vector);
        Self::known(0x02)
    }

    /// The dot between the third and the fourth digit.
    pub fn dot_between_3_and_4() -> (r: Self)
        ensures
            r@ == 0x04,
    {
        assert(0x04u8 & RESERVED == 0) by (bit_vector);
        Self::known(0x04)
    }

    /// The dot to the right of the fourth digit.
    pub fn dot_right_of_4() -> (r: Self)
        ensures
            r@ == 0x08,
    {
        assert(0x08u8 & RESERVED == 0) by (bit_vector);
        Self::known(0x08)
    }

    /// The colon in the middle of the display.
    pub fn dots_colon() -> (r: Self)
        ensures
            r@ == 0x10,
    {
        assert(0x10u8 & RESERVED == 0) by (bit_vector);
        Self::known(0x10)
    }

    /// The apostrophe between the third and the fourth digit.
    pub fn apostrophe_between_3_and_4() -> (r: Self)
        ensures
            r@ == 0x20,
    {
        assert(0x20u8 & RESERVED == 0) by (bit_vector);
        Self::known(0x20)
    }

    /// No mark at all: the same set as [`empty`](Self::empty).
    pub fn none() -> (r: Self)
        ensures
            r@ == 0,
    {
        Self::empty()
    }

    /// The set of no marks.
    pub fn empty() -> (r: Self)
        ensures
            r@ == 0,
    {
        assert(0u8 & RESERVED == 0) by (bit_vector);
        Self::known(0)
    }

    /// The set of all six marks.
    pub fn all() -> (r: Self)
        ensures
            r@ == ALL_MARKS,
    {
        assert(ALL_MARKS & RESERVED == 0) by (bit_vector);
        Self::known(ALL_MARKS)
    }

    /// The mask byte of this set.
    pub fn bits(&self) -> (r: u8)
        ensures
            r == self@,
            r & RESERVED == 0,
    {
        proof {
            use_type_invariant(self);
        }
        self.bits
    }

    /// The set with this mask byte, if the byte holds no reserved bit.
    pub fn from_bits(bits: u8) -> (r: Option<Self>)
        ensures
            bits & RESERVED == 0 ==> (r matches Some(f) && f@ == bits),
            bits & RESERVED != 0 ==> r is None,
    {
        if bits & !ALL_MARKS == 0 {
            assert(bits & RESERVED == 0) by (bit_vector)
                requires
                    bits & !ALL_MARKS == 0,
            ;
            Some(Self::known(bits))
        } else {
            assert(bits & RESERVED != 0) by (bit_vector)
                requires
                    bits & !ALL_MARKS != 0,
            ;
            None
        }
    }

    /// The set of the marks in this mask byte; reserved bits are dropped.
    pub fn from_bits_truncate(bits: u8) -> (r: Self)
        ensures
            r@ == bits & ALL_MARKS,
    {
        assert((bits & ALL_MARKS) & RESERVED == 0) by (bit_vector);
        Self::known(bits & ALL_MARKS)
    }

    /// Whether the set holds no mark.
    pub fn is_empty(&self) -> (r: bool)
        ensures
            r == (self@ == 0),
    {
        self.bits == 0
    }

    /// Whether the set holds all six marks.
    pub fn is_all(&self) -> (r: bool)
        ensures
            r == (self@ == ALL_MARKS),
    {
        proof {
            use_type_invariant(self);
        }
        let a: u8 = self.bits;
        assert((ALL_MARKS | a == a) == (a == ALL_MARKS)) by (bit_vector)
            requires
                a & RESERVED == 0,
        ;
        ALL_MARKS | a == a
    }

    /// Whether the two sets share a mark.
    pub fn intersects(&self, other: Self) -> (r: bool)
        ensures
            r == (self@ & other@ != 0),
    {
        self.bits & other.bits != 0
    }

    /// Whether every mark of `other` is in `self`.
    pub fn contains(&self, other: Self) -> (r: bool)
        ensures
            r == (self@ & other@ == other@),
    {
        self.bits & other.bits == other.bits
    }

    /// Adds the marks of `other`.
    pub fn insert(&mut self, other: Self)
        ensures
            final(self)@ == old(self)@ | other@,
    {
        *self = self.union(other);
    }

    /// Takes the marks of `other` away.
    pub fn remove(&mut self, other: Self)
        ensures
            final(self)@ == old(self)@ & !other@,
    {
        *self = self.difference(other);
    }

    /// Flips the marks of `other`.
    pub fn toggle(&mut self, other: Self)
        ensures
            final(self)@ == old(self)@ ^ other@,
    {
        *self = self.symmetric_difference(other);
    }

    /// Adds the marks of `other` if `value` is true, and takes them away if not.
    pub fn set(&mut self, other: Self, value: bool)
        ensures
            value ==> final(self)@ == old(self)@ | other@,
            !value ==> final(self)@ == old(self)@ & !other@,
    {
        if value {
            self.insert(other);
        } else {
            self.remove(other);
        }
    }

    /// The marks that are in both sets.
    pub fn intersection(self, other: Self) -> (r: Self)
        ensures
            r@ == self@ & other@,
            r == Self::from_mask(self@ & other@),
    {
        proof {
            use_type_invariant(self);
        }
        let a: u8 = self.bits;
        let b: u8 = other.bits;
        assert((a & b) & RESERVED == 0) by (bit_vector)
            requires
                a & RESERVED == 0,
        ;
        Self::known(a & b)
    }

    /// The marks that are in one of the sets or in both.
    pub fn union(self, other: Self) -> (r: Self)
        ensures
            r@ == self@ | other@,
            r == Self::from_mask(self@ | other@),
    {
        proof {
            use_type_invariant(self);
            use_type_invariant(other);
        }
        let a: u8 = self.bits;
        let b: u8 = other.bits;
        assert((a | b) & RESERVED == 0) by (bit_vector)
            requires
                a & RESERVED == 0,
                b & RESERVED == 0,
        ;
        Self::known(a | b)
    }

    /// The marks of `self` that are not in `other`.
    pub fn difference(self, other: Self) -> (r: Self)
        ensures
            r@ == self@ & !other@,
            r == Self::from_mask(self@ & !other@),
    {
        proof {
            use_type_invariant(self);
        }
        let a: u8 = self.bits;
        let b: u8 = other.bits;
        assert((a & !b) & RESERVED == 0) by (bit_vector)
            requires
                a & RESERVED == 0,
        ;
        Self::known(a & !b)
    }

    /// The marks that are in exactly one of the sets.
    pub fn symmetric_difference(self, other: Self) -> (r: Self)
        ensures
            r@ == self@ ^ other@,
            r == Self::from_mask(self@ ^ other@),
    {
        proof {
            use_type_invariant(self);
            use_type_invariant(other);
        }
        let a: u8 = self.bits;
        let b: u8 = other.bits;
        assert((a ^ b) & RESERVED == 0) by (bit_vector)
            requires
                a & RESERVED == 0,
                b & RESERVED == 0,
        ;
        Self::known(a ^ b)
    }

    /// The marks that are not in the set.
    pub fn complement(self) -> (r: Self)
        ensures
            r@ == !self@ & ALL_MARKS,
            r == Self::from_mask(!self@ & ALL_MARKS),
    {
        let a: u8 = self.bits;
        assert((!a & ALL_MARKS) & RESERVED == 0) by (bit_vector);
        Self::known(!a & ALL_MARKS)
    }
}

impl core::ops::BitOr for PunctuationFlags {
    type Output = PunctuationFlags;

    /// The union of the two sets.
    fn bitor(self, rhs: PunctuationFlags) -> (r: PunctuationFlags)
        ensures
            r@ == self@ | rhs@,
    {
        self.union(rhs)
    }
}

impl vstd::std_specs::ops::BitOrSpecImpl for PunctuationFlags {
    open spec fn obeys_bitor_spec() -> bool {
        true
    }

    open spec fn bitor_req(self, rhs: PunctuationFlags) -> bool {
        true
    }

    open spec fn bitor_spec(self, rhs: PunctuationFlags) -> PunctuationFlags {
        PunctuationFlags::from_mask(self@ | rhs@)
    }
}

impl core::ops::BitAnd for PunctuationFlags {
    type Output = PunctuationFlags;

    /// The intersection of the two sets.
    fn bitand(self, rhs: PunctuationFlags) -> (r: PunctuationFlags)
        ensures
            r@ == self@ & rhs@,
    {
        self.intersection(rhs)
    }
}

impl vstd::std_specs::ops::BitAndSpecImpl for PunctuationFlags {
    open spec fn obeys_bitand_spec() -> bool {
        true
    }

    open spec fn bitand_req(self, rhs: PunctuationFlags) -> bool {
        true
    }

    open spec fn bitand_spec(self, rhs: PunctuationFlags) -> PunctuationFlags {
        PunctuationFlags::from_mask(self@ & rhs@)
    }
}

impl core::ops::BitXor for PunctuationFlags {
    type Output = PunctuationFlags;

    /// The marks that are in exactly one of the two sets.
    fn bitxor(self, rhs: PunctuationFlags) -> (r: PunctuationFlags)
        ensures
            r@ == self@ ^ rhs@,
    {
        self.symmetric_difference(rhs)
    }
}

impl vstd::std_specs::ops::BitXorSpecImpl for PunctuationFlags {
    open spec fn obeys_bitxor_spec() -> bool {
        true
    }

    open spec fn bitxor_req(self, rhs: PunctuationFlags) -> bool {
        true
    }

    open spec fn bitxor_spec(self, rhs: PunctuationFlags) -> PunctuationFlags {
        PunctuationFlags::from_mask(self@ ^ rhs@)
    }
}

impl core::ops::Sub for PunctuationFlags {
    type Output = PunctuationFlags;

    /// The marks of the left set that are not in the right one.
    fn sub(self, rhs: PunctuationFlags) -> (r: PunctuationFlags)
        ensures
            r@ == self@ & !rhs@,
    {
        self.difference(rhs)
    }
}

impl vstd::std_specs::ops::SubSpecImpl for PunctuationFlags {
    open spec fn obeys_sub_spec() -> bool {
        true
    }

    open spec fn sub_req(self, rhs: PunctuationFlags) -> bool {
        true
    }

    open spec fn sub_spec(self, rhs: PunctuationFlags) -> PunctuationFlags {
        PunctuationFlags::from_mask(self@ & !rhs@)
    }
}

impl core::ops::Not for PunctuationFlags {
    type Output = PunctuationFlags;

    /// The marks that are not in the set.
    ///
    /// Verified code calls [`complement`](PunctuationFlags::complement) in
    /// place of `!`: Verus takes `!` on a `bool` or an integer only, and
    /// stops on any other operand.
    fn not(self) -> (r: PunctuationFlags)
        ensures
            r@ == !self@ & ALL_MARKS,
    {
        self.complement()
    }
}

impl vstd::std_specs::ops::NotSpecImpl for PunctuationFlags {
    open spec fn obeys_not_spec() -> bool {
        true
    }

    open spec fn not_req(self) -> bool {
        true
    }

    open spec fn not_spec(self) -> PunctuationFlags {
        PunctuationFlags::from_mask(!self@ & ALL_MARKS)
    }
}

impl core::ops::BitOrAssign for PunctuationFlags {
    /// Adds the marks of `rhs`.
    ///
    /// Verus takes no overloaded `|=` yet: verified code calls
    /// [`insert`](PunctuationFlags::insert).
    fn bitor_assign(&mut self, rhs: PunctuationFlags)
        ensures
            final(self)@ == old(self)@ | rhs@,
    {
        self.insert(rhs);
    }
}

impl core::ops::BitAndAssign for PunctuationFlags {
    /// Keeps the marks that are in `rhs` too.
    ///
    /// Verus takes no overloaded `&=` yet: verified code calls
    /// [`intersection`](PunctuationFlags::intersection).
    fn bitand_assign(&mut self, rhs: PunctuationFlags)
        ensures
            final(self)@ == old(self)@ & rhs@,
    {
        *self = self.intersection(rhs);
    }
}

impl core::ops::BitXorAssign for PunctuationFlags {
    /// Flips the marks of `rhs`.
    ///
    /// Verus takes no overloaded `^=` yet: verified code calls
    /// [`toggle`](PunctuationFlags::toggle).
    fn bitxor_assign(&mut self, rhs: PunctuationFlags)
        ensures
            final(self)@ == old(self)@ ^ rhs@,
    {
        self.toggle(rhs);
    }
}

impl core::ops::SubAssign for PunctuationFlags {
    /// Takes the marks of `rhs` away.
    ///
    /// Verus takes no overloaded `-=` yet: verified code calls
    /// [`remove`](PunctuationFlags::remove).
    fn sub_assign(&mut self, rhs: PunctuationFlags)
        ensures
            final(self)@ == old(self)@ & !rhs@,
    {
        self.remove(rhs);
    }
}

} // verus!
