//! Floating-point settings carried by their bit patterns.
//!
//! The library moves these values around and compares them; it never computes with them. A value
//! is held as the IEEE 754 pattern that `to_bits` gives, and compared as the number it stands for.

use vstd::prelude::*;

verus! {

/// Pattern of the single-precision infinity; larger magnitudes are NaN.
pub const SINGLE_INFINITY: u32 = 0x7f80_0000;

/// Pattern of the single-precision number one.
pub const SINGLE_ONE: u32 = 0x3f80_0000;

/// The sign bit of a single-precision number.
pub const SINGLE_SIGN: u32 = 0x8000_0000;

/// Pattern of the double-precision infinity; larger magnitudes are NaN.
pub const DOUBLE_INFINITY: u64 = 0x7ff0_0000_0000_0000;

/// Pattern of the double-precision number one.
pub const DOUBLE_ONE: u64 = 0x3ff0_0000_0000_0000;

/// The sign bit of a double-precision number.
pub const DOUBLE_SIGN: u64 = 0x8000_0000_0000_0000;

/// A single-precision number, by its bit pattern.
#[derive(Debug, Clone, Copy)]
pub struct SingleBits {
    pub bits: u32,
}

/// A double-precision number, by its bit pattern.
#[derive(Debug, Clone, Copy)]
pub struct DoubleBits {
    pub bits: u64,
}

impl SingleBits {
    /// Whether the sign bit is set.
    pub open spec fn is_negative(self) -> bool {
        self.bits >= SINGLE_SIGN
    }

    /// The pattern without its sign bit.
    pub open spec fn magnitude(self) -> int {
        if self.is_negative() {
            self.bits - SINGLE_SIGN
        } else {
            self.bits as int
        }
    }

    /// Whether the pattern stands for no number.
    pub open spec fn is_nan(self) -> bool {
        self.magnitude() > SINGLE_INFINITY
    }

    /// Numeric equality: the two zeros are equal, and NaN equals nothing.
    pub open spec fn same_number(self, other: SingleBits) -> bool {
        &&& !self.is_nan()
        &&& !other.is_nan()
        &&& self == other || (self.magnitude() == 0 && other.magnitude() == 0)
    }

    /// Whether the number lies below one.
    pub open spec fn below_one(self) -> bool {
        !self.is_nan() && (self.is_negative() || self.magnitude() < SINGLE_ONE)
    }

    fn magnitude_bits(self) -> (m: u32)
        ensures
            m == self.magnitude(),
    {
        if self.bits >= SINGLE_SIGN {
            self.bits - SINGLE_SIGN
        } else {
            self.bits
        }
    }

    /// Compares two numbers as numbers.
    pub fn is_same_number(self, other: SingleBits) -> (same: bool)
        ensures
            same == self.same_number(other),
    {
        let a: u32 = self.magnitude_bits();
        let b: u32 = other.magnitude_bits();
        a <= SINGLE_INFINITY && b <= SINGLE_INFINITY && (self.bits == other.bits || (a == 0 && b
            == 0))
    }

    /// Tells whether the number lies below one.
    pub fn is_below_one(self) -> (below: bool)
        ensures
            below == self.below_one(),
    {
        let m: u32 = self.magnitude_bits();
        m <= SINGLE_INFINITY && (self.bits >= SINGLE_SIGN || m < SINGLE_ONE)
    }
}

/// Numbers compare as numbers, so there is no `Eq`.
impl PartialEq for SingleBits {
    fn eq(&self, other: &SingleBits) -> (same: bool) {
        self.is_same_number(*other)
    }
}

impl vstd::std_specs::cmp::PartialEqSpecImpl for SingleBits {
    open spec fn obeys_eq_spec() -> bool {
        true
    }

    open spec fn eq_spec(&self, other: &SingleBits) -> bool {
        self.same_number(*other)
    }
}

impl DoubleBits {
    /// The pattern without its sign bit.
    pub open spec fn magnitude(self) -> int {
        if self.bits >= DOUBLE_SIGN {
            self.bits - DOUBLE_SIGN
        } else {
            self.bits as int
        }
    }

    /// Whether the pattern stands for no number.
    pub open spec fn is_nan(self) -> bool {
        self.magnitude() > DOUBLE_INFINITY
    }

    /// Numeric equality: the two zeros are equal, and NaN equals nothing.
    pub open spec fn same_number(self, other: DoubleBits) -> bool {
        &&& !self.is_nan()
        &&& !other.is_nan()
        &&& self == other || (self.magnitude() == 0 && other.magnitude() == 0)
    }

    fn magnitude_bits(self) -> (m: u64)
        ensures
            m == self.magnitude(),
    {
        if self.bits >= DOUBLE_SIGN {
            self.bits - DOUBLE_SIGN
        } else {
            self.bits
        }
    }

    /// Compares two numbers as numbers.
    pub fn is_same_number(self, other: DoubleBits) -> (same: bool)
        ensures
            same == self.same_number(other),
    {
        let a: u64 = self.magnitude_bits();
        let b: u64 = other.magnitude_bits();
        a <= DOUBLE_INFINITY && b <= DOUBLE_INFINITY && (self.bits == other.bits || (a == 0 && b
            == 0))
    }
}

/// Numbers compare as numbers, so there is no `Eq`.
impl PartialEq for DoubleBits {
    fn eq(&self, other: &DoubleBits) -> (same: bool) {
        self.is_same_number(*other)
    }
}

impl vstd::std_specs::cmp::PartialEqSpecImpl for DoubleBits {
    open spec fn obeys_eq_spec() -> bool {
        true
    }

    open spec fn eq_spec(&self, other: &DoubleBits) -> bool {
        self.same_number(*other)
    }
}

/// Whether a pattern is that of the number with the opposite sign.
pub open spec fn opposite_singles(a: SingleBits, b: SingleBits) -> bool {
    a.bits + SINGLE_SIGN == b.bits || b.bits + SINGLE_SIGN == a.bits
}

/// Whether a pattern is that of the number with the opposite sign.
pub open spec fn opposite_doubles(a: DoubleBits, b: DoubleBits) -> bool {
    a.bits + DOUBLE_SIGN == b.bits || b.bits + DOUBLE_SIGN == a.bits
}

/// A number is the same as itself and as no number with another pattern, except that the two zeros,
/// which are each other's opposites, are the same. What is no number is the same as nothing.
pub proof fn singles_are_the_same_as_numbers(a: SingleBits, b: SingleBits)
    ensures
        a.is_nan() ==> !a.same_number(b) && !b.same_number(a),
        !a.is_nan() ==> a.same_number(a),
        a.same_number(b) <==> b.same_number(a),
        a.same_number(b) && a.bits != b.bits ==> opposite_singles(a, b) && (a.bits == 0 || b.bits
            == 0),
        a.bits == 0 && opposite_singles(a, b) ==> a.same_number(b),
{
}

/// A number is the same as itself and as no number with another pattern, except that the two zeros,
/// which are each other's opposites, are the same. What is no number is the same as nothing.
pub proof fn doubles_are_the_same_as_numbers(a: DoubleBits, b: DoubleBits)
    ensures
        a.is_nan() ==> !a.same_number(b) && !b.same_number(a),
        !a.is_nan() ==> a.same_number(a),
        a.same_number(b) <==> b.same_number(a),
        a.same_number(b) && a.bits != b.bits ==> opposite_doubles(a, b) && (a.bits == 0 || b.bits
            == 0),
        a.bits == 0 && opposite_doubles(a, b) ==> a.same_number(b),
{
}

/// One does not lie below one and zero does; with a number everything between it and zero, and
/// everything negative, lies below one, and what is no number does not.
pub proof fn numbers_below_one(a: SingleBits, b: SingleBits)
    ensures
        a.bits == SINGLE_ONE ==> !a.below_one(),
        a.bits == 0 ==> a.below_one(),
        a.bits + 1 == SINGLE_ONE ==> a.below_one(),
        a.below_one() && b.bits <= a.bits && a.bits < SINGLE_SIGN ==> b.below_one(),
        a.is_nan() ==> !a.below_one(),
        a.is_negative() && !a.is_nan() ==> a.below_one(),
        a.same_number(b) ==> (a.below_one() <==> b.below_one()),
        a.is_negative() <==> a.bits >= SINGLE_SIGN,
{
}

} // verus!
