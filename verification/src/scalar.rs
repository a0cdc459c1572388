//! Single-precision quantities, held by their IEEE 754 binary32 encoding.
//!
//! The light's state is carried, copied and compared, never computed with, so
//! a quantity is kept as the 32 bits that encode it. The spec functions here
//! say which number an encoding stands for.

use vstd::arithmetic::power2::{lemma2_to64, lemma_pow2_pos, pow2};
use vstd::prelude::*;

verus! {

/// A single-precision quantity, held as the 32 bits of its binary32 encoding:
/// one sign bit, eight exponent bits, twenty-three fraction bits.
///
/// Every bit pattern is a value of this type, the infinities and the NaNs
/// included. Two scalars are equal when their encodings are: a NaN equals
/// itself, and the two zeros differ.
#[derive(Clone, Copy, Debug, PartialEq, Eq, Structural)]
pub struct Scalar {
    pub bits: u32,
}

impl Scalar {
    /// The sign bit is set.
    pub open spec fn is_sign_negative(self) -> bool {
        self.bits >= 0x8000_0000
    }

    /// The eight exponent bits, as a number below 256.
    pub open spec fn exponent_field(self) -> int {
        (self.bits as int / 0x80_0000) % 0x100
    }

    /// The twenty-three fraction bits, as a number below 2^23.
    pub open spec fn fraction_field(self) -> int {
        self.bits as int % 0x80_0000
    }

    /// Neither an infinity nor a NaN.
    pub open spec fn is_finite(self) -> bool {
        self.exponent_field() < 0xff
    }

    /// The significand of a finite scalar as a whole number: the fraction
    /// bits, with the implicit leading one unless the scalar is subnormal.
    pub open spec fn significand(self) -> int {
        if self.exponent_field() == 0 {
            self.fraction_field()
        } else {
            0x80_0000 + self.fraction_field()
        }
    }

    /// The power of two by which the significand of a finite scalar is
    /// multiplied: its magnitude is `significand() * 2^scale()`.
    pub open spec fn scale(self) -> int {
        if self.exponent_field() == 0 {
            -149
        } else {
            self.exponent_field() - 150
        }
    }

    /// The scalar is finite and stands for exactly the whole number `n`.
    pub open spec fn denotes(self, n: int) -> bool {
        let magnitude = if self.is_sign_negative() {
            -n
        } else {
            n
        };
        &&& self.is_finite()
        &&& magnitude >= 0
        &&& if self.scale() >= 0 {
            magnitude == self.significand() * pow2(self.scale() as nat)
        } else {
            magnitude * pow2((-self.scale()) as nat) == self.significand()
        }
    }

    /// Positive zero.
    pub open spec fn spec_zero() -> Scalar {
        Scalar { bits: 0 }
    }

    /// One.
    pub open spec fn spec_one() -> Scalar {
        Scalar { bits: 0x3f80_0000 }
    }

    /// The scalar with the given encoding.
    pub fn from_bits(bits: u32) -> (scalar: Scalar)
        ensures
            scalar.bits == bits,
    {
        Scalar { bits }
    }

    /// The scalar's encoding.
    pub fn to_bits(self) -> (bits: u32)
        ensures
            bits == self.bits,
    {
        self.bits
    }

    /// Positive zero.
    #[verifier::when_used_as_spec(spec_zero)]
    pub fn zero() -> (scalar: Scalar)
        ensures
            scalar == Scalar::spec_zero(),
            scalar.denotes(0),
            !scalar.is_sign_negative(),
    {
        proof {
            Scalar::lemma_zero_and_one();
        }
        Scalar { bits: 0 }
    }

    /// One.
    #[verifier::when_used_as_spec(spec_one)]
    pub fn one() -> (scalar: Scalar)
        ensures
            scalar == Scalar::spec_one(),
            scalar.denotes(1),
    {
        proof {
            Scalar::lemma_zero_and_one();
        }
        Scalar { bits: 0x3f80_0000 }
    }

    /// The encodings of zero and one stand for zero and one, and the zero is
    /// the positive one.
    pub proof fn lemma_zero_and_one()
        ensures
            Scalar::spec_zero().denotes(0),
            !Scalar::spec_zero().is_sign_negative(),
            Scalar::spec_one().denotes(1),
    {
        lemma2_to64();
    }

    /// A scalar stands for at most one whole number.
    pub proof fn lemma_denotes_unique(self, n: int, m: int)
        requires
            self.denotes(n),
            self.denotes(m),
        ensures
            n == m,
    {
        if self.scale() < 0 {
            let power = pow2((-self.scale()) as nat) as int;
            let a = if self.is_sign_negative() {
                -n
            } else {
                n
            };
            let b = if self.is_sign_negative() {
                -m
            } else {
                m
            };
            lemma_pow2_pos((-self.scale()) as nat);
            assert(a == b) by (nonlinear_arith)
                requires
                    a * power == b * power,
                    power > 0,
            ;
        }
    }
}

} // verus!
