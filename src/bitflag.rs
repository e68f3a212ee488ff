//! A fixed-width container of bit flags.
use vstd::prelude::*;

verus! {

/// An unsigned word that can hold flags.
pub trait FlagWord: Copy + Sized {
    /// The bitwise AND of two words.
    spec fn spec_and(self, o: Self) -> Self;

    /// The bitwise OR of two words.
    spec fn spec_or(self, o: Self) -> Self;

    /// The bitwise XOR of two words.
    spec fn spec_xor(self, o: Self) -> Self;

    /// Whether no bit of the word is set.
    spec fn spec_is_zero(self) -> bool;

    /// The word with no bit set.
    spec fn spec_zero() -> Self;

    fn zero() -> (r: Self)
        ensures
            r == Self::spec_zero(),
    ;

    fn and(self, o: Self) -> (r: Self)
        ensures
            r == self.spec_and(o),
    ;

    fn or(self, o: Self) -> (r: Self)
        ensures
            r == self.spec_or(o),
    ;

    fn xor(self, o: Self) -> (r: Self)
        ensures
            r == self.spec_xor(o),
    ;

    fn is_zero(self) -> (r: bool)
        ensures
            r == self.spec_is_zero(),
    ;
}

impl FlagWord for u8 {
    open spec fn spec_and(self, o: u8) -> u8 {
        self & o
    }

    open spec fn spec_or(self, o: u8) -> u8 {
        self | o
    }

    open spec fn spec_xor(self, o: u8) -> u8 {
        self ^ o
    }

    open spec fn spec_is_zero(self) -> bool {
        self == 0
    }

    open spec fn spec_zero() -> u8 {
        0
    }

    fn zero() -> (r: u8) {
        0
    }

    fn and(self, o: u8) -> (r: u8) {
        self & o
    }

    fn or(self, o: u8) -> (r: u8) {
        self | o
    }

    fn xor(self, o: u8) -> (r: u8) {
        self ^ o
    }

    fn is_zero(self) -> (r: bool) {
        self == 0
    }
}

/// A set of flags held in the bits of one word.
#[derive(Clone, Copy)]
pub struct Bitflag<T> {
    value: T,
}

impl<T: FlagWord> Bitflag<T> {
    /// The word that holds the flags.
    pub closed spec fn bits(&self) -> T {
        self.value
    }

    pub fn value(&self) -> (r: T)
        ensures
            r == self.bits(),
    {
        self.value
    }

    /// Whether any bit of `v` is set in the flags.
    pub fn contains(&self, v: T) -> (r: bool)
        ensures
            r == !self.bits().spec_and(v).spec_is_zero(),
    {
        !self.value.and(v).is_zero()
    }
}

impl<T: FlagWord> Default for Bitflag<T> {
    fn default() -> (r: Self)
        ensures
            r.bits() == T::spec_zero(),
    {
        Bitflag { value: T::zero() }
    }
}

impl<T: FlagWord> From<T> for Bitflag<T> {
    fn from(value: T) -> (r: Self)
        ensures
            r.bits() == value,
    {
        Bitflag { value }
    }
}

impl<T: FlagWord> vstd::std_specs::convert::FromSpecImpl<T> for Bitflag<T> {
    open spec fn obeys_from_spec() -> bool {
        true
    }

    closed spec fn from_spec(v: T) -> Self {
        Bitflag { value: v }
    }
}

impl<T: FlagWord> std::ops::BitOrAssign<T> for Bitflag<T> {
    fn bitor_assign(&mut self, rhs: T)
        ensures
            final(self).bits() == old(self).bits().spec_or(rhs),
    {
        self.value = self.value.or(rhs);
    }
}

impl<T: FlagWord> std::ops::BitAndAssign<T> for Bitflag<T> {
    fn bitand_assign(&mut self, rhs: T)
        ensures
            final(self).bits() == old(self).bits().spec_and(rhs),
    {
        self.value = self.value.and(rhs);
    }
}

impl<T: FlagWord> std::ops::BitXorAssign<T> for Bitflag<T> {
    fn bitxor_assign(&mut self, rhs: T)
        ensures
            final(self).bits() == old(self).bits().spec_xor(rhs),
    {
        self.value = self.value.xor(rhs);
    }
}

} // verus!
