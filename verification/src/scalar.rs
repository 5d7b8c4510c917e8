//! Numbers as the library carries them.

use vstd::prelude::*;

verus! {

/// The sign bit of a binary64 pattern.
pub const SIGN: u64 = 0x8000_0000_0000_0000;

/// The magnitude of infinity; any larger magnitude is not a number.
pub const INFINITE: u64 = 0x7ff0_0000_0000_0000;

/// A number, kept as the 64 bits of its binary64 encoding.
///
/// Equality of two `Scalar`s is equality of their bits. The numeric order is
/// [`Scalar::below`].
#[derive(Clone, Copy, Debug, PartialEq, Eq, Structural)]
pub struct Scalar {
    pub bits: u64,
}

impl Scalar {
    /// The encoding without its sign bit.
    pub open spec fn magnitude(self) -> int {
        if self.bits >= SIGN {
            self.bits - SIGN
        } else {
            self.bits as int
        }
    }

    /// Whether the sign bit is set.
    pub open spec fn negative(self) -> bool {
        self.bits >= SIGN
    }

    /// Whether the pattern encodes no number.
    pub open spec fn nan(self) -> bool {
        self.magnitude() > INFINITE
    }

    /// The place of a number on the number line: numbers compare as their
    /// ranks do, and both zeros have rank zero.
    pub open spec fn rank(self) -> int {
        if self.negative() {
            -self.magnitude()
        } else {
            self.magnitude()
        }
    }

    /// `self < other` as binary64 defines it: false as soon as either side is
    /// not a number.
    pub open spec fn below(self, other: Scalar) -> bool {
        !self.nan() && !other.nan() && self.rank() < other.rank()
    }

    /// The pattern with its sign bit flipped.
    pub open spec fn opposite(self) -> Scalar {
        if self.bits >= SIGN {
            Scalar { bits: (self.bits - SIGN) as u64 }
        } else {
            Scalar { bits: (self.bits + SIGN) as u64 }
        }
    }

    /// The larger of two numbers, where a side that is not a number gives way
    /// to the other.
    pub open spec fn larger(self, other: Scalar) -> Scalar {
        if self.nan() || self.below(other) {
            other
        } else {
            self
        }
    }

    /// Zero, with a clear sign bit.
    pub open spec fn zero() -> Scalar {
        Scalar { bits: 0 }
    }

    /// One.
    pub open spec fn one() -> Scalar {
        Scalar { bits: 0x3ff0_0000_0000_0000 }
    }

    /// The number with the given encoding.
    pub fn from_bits(bits: u64) -> (r: Scalar)
        ensures
            r.bits == bits,
    {
        Scalar { bits }
    }

    /// The encoding of the number.
    pub fn to_bits(self) -> (r: u64)
        ensures
            r == self.bits,
    {
        self.bits
    }

    /// The encoding without its sign bit.
    fn size(self) -> (r: u64)
        ensures
            r == self.magnitude(),
    {
        if self.bits >= SIGN {
            self.bits - SIGN
        } else {
            self.bits
        }
    }

    /// Whether the pattern encodes no number.
    pub fn is_nan(self) -> (r: bool)
        ensures
            r == self.nan(),
    {
        self.size() > INFINITE
    }

    /// `self < other`.
    pub fn lt(self, other: Scalar) -> (r: bool)
        ensures
            r == self.below(other),
    {
        if self.is_nan() || other.is_nan() {
            false
        } else if self.bits >= SIGN {
            if other.bits >= SIGN {
                self.size() > other.size()
            } else {
                self.size() > 0 || other.size() > 0
            }
        } else {
            other.bits < SIGN && self.size() < other.size()
        }
    }

    /// `self > other`.
    pub fn gt(self, other: Scalar) -> (r: bool)
        ensures
            r == other.below(self),
    {
        other.lt(self)
    }

    /// The number with the opposite sign.
    pub fn neg(self) -> (r: Scalar)
        ensures
            r == self.opposite(),
    {
        if self.bits >= SIGN {
            Scalar { bits: self.bits - SIGN }
        } else {
            Scalar { bits: self.bits + SIGN }
        }
    }

    /// The larger of `self` and `other`; a side that is not a number is
    /// passed over.
    pub fn max(self, other: Scalar) -> (r: Scalar)
        ensures
            r == self.larger(other),
    {
        if self.is_nan() || self.lt(other) {
            other
        } else {
            self
        }
    }
}

/// Negating twice gives the pattern back, and negation mirrors the rank.
pub proof fn lemma_opposite(a: Scalar)
    ensures
        a.opposite().opposite() == a,
        a.opposite().nan() == a.nan(),
        a.opposite().rank() == -a.rank(),
{
}

/// Among numbers, `below` is a strict order that leaves no two ranks apart
/// unordered.
pub proof fn lemma_below_is_strict(a: Scalar, b: Scalar, c: Scalar)
    ensures
        !a.below(a),
        a.below(b) ==> !b.below(a),
        a.below(b) && b.below(c) ==> a.below(c),
        !a.nan() && !b.nan() ==> a.below(b) || b.below(a) || a.rank() == b.rank(),
{
}

/// The larger of two sides is one of them, is a number as soon as one side
/// is, and lies below neither side.
pub proof fn lemma_larger(a: Scalar, b: Scalar)
    ensures
        a.larger(b) == a || a.larger(b) == b,
        a.larger(b).nan() <==> a.nan() && b.nan(),
        !a.larger(b).below(a),
        !a.larger(b).below(b),
{
}

} // verus!
