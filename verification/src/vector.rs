use vstd::prelude::*;

use crate::arith::{
    add_bits, add_single, div_bits, div_single, mul_bits, mul_single, sqrt_bits, sqrt_single,
    sub_bits, sub_single,
};
use crate::bits::{
    is_finite_bits, is_infinite_bits, is_nan_bits, is_nonneg_bits, is_zero_bits,
    lemma_neg_bits_involution, neg_bits, ONE_BITS, POS_INF_BITS,
};

verus! {

/// A three-component single-precision vector. Each field holds the IEEE 754
/// binary32 bit pattern of one component; any triple of patterns, finite or
/// not, is a valid vector, and no operation guards against NaN, infinity or
/// a zero divisor. Every operation copies the receiver and returns a new
/// vector.
#[derive(Clone, Copy, Debug, PartialEq, Eq, Structural)]
pub struct Vector3 {
    pub x: u32,
    pub y: u32,
    pub z: u32,
}

/// Componentwise negation at the bit level: each sign bit flipped.
pub open spec fn vneg_bits(v: Vector3) -> Vector3 {
    Vector3 { x: neg_bits(v.x), y: neg_bits(v.y), z: neg_bits(v.z) }
}

/// Componentwise sum of two vectors at the bit level.
pub open spec fn vadd_bits(a: Vector3, b: Vector3) -> Vector3 {
    Vector3 { x: add_bits(a.x, b.x), y: add_bits(a.y, b.y), z: add_bits(a.z, b.z) }
}

/// Componentwise difference of two vectors at the bit level.
pub open spec fn vsub_bits(a: Vector3, b: Vector3) -> Vector3 {
    Vector3 { x: sub_bits(a.x, b.x), y: sub_bits(a.y, b.y), z: sub_bits(a.z, b.z) }
}

/// The scalar pattern `s` summed onto each component of `v`.
pub open spec fn vadd_scalar_bits(v: Vector3, s: u32) -> Vector3 {
    Vector3 { x: add_bits(v.x, s), y: add_bits(v.y, s), z: add_bits(v.z, s) }
}

/// The scalar pattern `s` subtracted from each component of `v`.
pub open spec fn vsub_scalar_bits(v: Vector3, s: u32) -> Vector3 {
    Vector3 { x: sub_bits(v.x, s), y: sub_bits(v.y, s), z: sub_bits(v.z, s) }
}

/// Each component of `v` scaled by the scalar pattern `s`.
pub open spec fn vmul_scalar_bits(v: Vector3, s: u32) -> Vector3 {
    Vector3 { x: mul_bits(v.x, s), y: mul_bits(v.y, s), z: mul_bits(v.z, s) }
}

/// Each component of `v` divided by the scalar pattern `s`.
pub open spec fn vdiv_scalar_bits(v: Vector3, s: u32) -> Vector3 {
    Vector3 { x: div_bits(v.x, s), y: div_bits(v.y, s), z: div_bits(v.z, s) }
}

/// The Euclidean norm at the bit level: the rounded square root of the
/// rounded sum of the squared components, summed left to right.
pub open spec fn length_bits(x: u32, y: u32, z: u32) -> u32 {
    sqrt_bits(add_bits(add_bits(mul_bits(x, x), mul_bits(y, y)), mul_bits(z, z)))
}

/// Every component of `v` is a finite pattern.
pub open spec fn all_finite(v: Vector3) -> bool {
    is_finite_bits(v.x) && is_finite_bits(v.y) && is_finite_bits(v.z)
}

/// Some component of `v` is a NaN pattern.
pub open spec fn some_nan(v: Vector3) -> bool {
    is_nan_bits(v.x) || is_nan_bits(v.y) || is_nan_bits(v.z)
}

/// Law: negating a vector twice gives the original vector back, whatever
/// patterns its components hold, since negation flips exactly the sign bit
/// of each component.
pub proof fn lemma_invert_involution(v: Vector3)
    ensures
        vneg_bits(vneg_bits(v)) == v,
{
    lemma_neg_bits_involution(v.x);
    lemma_neg_bits_involution(v.y);
    lemma_neg_bits_involution(v.z);
}

impl Vector3 {
    /// Builds the vector whose components have the given bit patterns.
    pub fn new(x: u32, y: u32, z: u32) -> (v: Vector3)
        ensures
            v == (Vector3 { x, y, z }),
    {
        Vector3 { x, y, z }
    }

    /// Negates every component. IEEE 754 negation flips exactly the sign
    /// bit, so this is computed directly on the patterns.
    pub fn invert(self) -> (r: Vector3)
        ensures
            r == vneg_bits(self),
    {
        Vector3 {
            x: self.x ^ 0x8000_0000u32,
            y: self.y ^ 0x8000_0000u32,
            z: self.z ^ 0x8000_0000u32,
        }
    }

    /// Pure alias of `invert`: the two agree componentwise on every input,
    /// as both return exactly the componentwise negation.
    pub fn negate(self) -> (r: Vector3)
        ensures
            r == vneg_bits(self),
    {
        self.invert()
    }

    /// Euclidean norm: the square root of the sum of the squared
    /// components. On an all-finite vector the result is the rounded norm,
    /// never negative and never a NaN; on the zero vector it is positive
    /// zero; a NaN component makes it a NaN; an infinite component beside
    /// no NaN makes it positive infinity.
    pub fn length(self) -> (r: u32)
        ensures
            all_finite(self)
                ==> r == length_bits(self.x, self.y, self.z) && is_nonneg_bits(r)
                    && !is_nan_bits(r),
            self.x == 0u32 && self.y == 0u32 && self.z == 0u32 ==> r == 0u32,
            some_nan(self) ==> is_nan_bits(r),
            !some_nan(self)
                && (is_infinite_bits(self.x) || is_infinite_bits(self.y)
                    || is_infinite_bits(self.z)) ==> r == POS_INF_BITS,
    {
        let xx = mul_single(self.x, self.x);
        let yy = mul_single(self.y, self.y);
        let zz = mul_single(self.z, self.z);
        let s = add_single(add_single(xx, yy), zz);
        sqrt_single(s)
    }

    /// Scales the vector to unit length: each component divided by
    /// `length()`. There is no zero-length guard: each component of the
    /// zero vector becomes zero over zero, a NaN, per IEEE 754.
    pub fn norm(self) -> (r: Vector3)
        ensures
            all_finite(self)
                ==> r == vdiv_scalar_bits(self, length_bits(self.x, self.y, self.z)),
            self.x == 0u32 && self.y == 0u32 && self.z == 0u32
                ==> is_nan_bits(r.x) && is_nan_bits(r.y) && is_nan_bits(r.z),
            some_nan(self) ==> is_nan_bits(r.x) && is_nan_bits(r.y) && is_nan_bits(r.z),
    {
        let l = self.length();
        proof {
            // A pattern of all zero bits encodes positive zero.
            assert(0u32 & 0x7fff_ffffu32 == 0u32) by (bit_vector);
        }
        Vector3 { x: div_single(self.x, l), y: div_single(self.y, l), z: div_single(self.z, l) }
    }

    /// Componentwise vector sum. Law: on finite components addition is
    /// commutative, so the contract names the result in both operand
    /// orders.
    pub fn add(self, v: Vector3) -> (r: Vector3)
        ensures
            r == vadd_bits(self, v),
            all_finite(self) && all_finite(v) ==> r == vadd_bits(v, self),
            is_finite_bits(self.x) && is_finite_bits(v.x) ==> !is_nan_bits(r.x),
            is_finite_bits(self.y) && is_finite_bits(v.y) ==> !is_nan_bits(r.y),
            is_finite_bits(self.z) && is_finite_bits(v.z) ==> !is_nan_bits(r.z),
            is_nan_bits(self.x) || is_nan_bits(v.x) ==> is_nan_bits(r.x),
            is_nan_bits(self.y) || is_nan_bits(v.y) ==> is_nan_bits(r.y),
            is_nan_bits(self.z) || is_nan_bits(v.z) ==> is_nan_bits(r.z),
    {
        Vector3 {
            x: add_single(self.x, v.x),
            y: add_single(self.y, v.y),
            z: add_single(self.z, v.z),
        }
    }

    /// Componentwise vector difference, the receiver minus `v`.
    pub fn sub(self, v: Vector3) -> (r: Vector3)
        ensures
            r == vsub_bits(self, v),
            is_finite_bits(self.x) && is_finite_bits(v.x) ==> !is_nan_bits(r.x),
            is_finite_bits(self.y) && is_finite_bits(v.y) ==> !is_nan_bits(r.y),
            is_finite_bits(self.z) && is_finite_bits(v.z) ==> !is_nan_bits(r.z),
            is_nan_bits(self.x) || is_nan_bits(v.x) ==> is_nan_bits(r.x),
            is_nan_bits(self.y) || is_nan_bits(v.y) ==> is_nan_bits(r.y),
            is_nan_bits(self.z) || is_nan_bits(v.z) ==> is_nan_bits(r.z),
    {
        Vector3 {
            x: sub_single(self.x, v.x),
            y: sub_single(self.y, v.y),
            z: sub_single(self.z, v.z),
        }
    }

    /// The scalar with pattern `s` added to each component independently.
    pub fn add_scalar(self, s: u32) -> (r: Vector3)
        ensures
            r == vadd_scalar_bits(self, s),
            is_finite_bits(self.x) && is_finite_bits(s) ==> !is_nan_bits(r.x),
            is_finite_bits(self.y) && is_finite_bits(s) ==> !is_nan_bits(r.y),
            is_finite_bits(self.z) && is_finite_bits(s) ==> !is_nan_bits(r.z),
            is_nan_bits(self.x) || is_nan_bits(s) ==> is_nan_bits(r.x),
            is_nan_bits(self.y) || is_nan_bits(s) ==> is_nan_bits(r.y),
            is_nan_bits(self.z) || is_nan_bits(s) ==> is_nan_bits(r.z),
    {
        Vector3 {
            x: add_single(self.x, s),
            y: add_single(self.y, s),
            z: add_single(self.z, s),
        }
    }

    /// The scalar with pattern `s` subtracted from each component.
    pub fn sub_scalar(self, s: u32) -> (r: Vector3)
        ensures
            r == vsub_scalar_bits(self, s),
            is_finite_bits(self.x) && is_finite_bits(s) ==> !is_nan_bits(r.x),
            is_finite_bits(self.y) && is_finite_bits(s) ==> !is_nan_bits(r.y),
            is_finite_bits(self.z) && is_finite_bits(s) ==> !is_nan_bits(r.z),
            is_nan_bits(self.x) || is_nan_bits(s) ==> is_nan_bits(r.x),
            is_nan_bits(self.y) || is_nan_bits(s) ==> is_nan_bits(r.y),
            is_nan_bits(self.z) || is_nan_bits(s) ==> is_nan_bits(r.z),
    {
        Vector3 {
            x: sub_single(self.x, s),
            y: sub_single(self.y, s),
            z: sub_single(self.z, s),
        }
    }

    /// Each component scaled by the scalar with pattern `s`. Law: scaling
    /// by positive one gives the vector back exactly; law: scaling a
    /// finite vector by a zero gives a vector of zeros.
    pub fn mul(self, s: u32) -> (r: Vector3)
        ensures
            r == vmul_scalar_bits(self, s),
            !some_nan(self) && s == ONE_BITS ==> r == self,
            all_finite(self) && is_zero_bits(s)
                ==> is_zero_bits(r.x) && is_zero_bits(r.y) && is_zero_bits(r.z),
            is_finite_bits(self.x) && is_finite_bits(s) ==> !is_nan_bits(r.x),
            is_finite_bits(self.y) && is_finite_bits(s) ==> !is_nan_bits(r.y),
            is_finite_bits(self.z) && is_finite_bits(s) ==> !is_nan_bits(r.z),
            is_nan_bits(self.x) || is_nan_bits(s) ==> is_nan_bits(r.x),
            is_nan_bits(self.y) || is_nan_bits(s) ==> is_nan_bits(r.y),
            is_nan_bits(self.z) || is_nan_bits(s) ==> is_nan_bits(r.z),
    {
        Vector3 {
            x: mul_single(self.x, s),
            y: mul_single(self.y, s),
            z: mul_single(self.z, s),
        }
    }

    /// Each component divided by the scalar with pattern `s`. There is no
    /// divide-by-zero guard: per IEEE 754 a nonzero finite component over a
    /// zero is an infinity, and a zero component over a zero is a NaN.
    /// Law: dividing by positive one gives the vector back exactly.
    pub fn div(self, s: u32) -> (r: Vector3)
        ensures
            r == vdiv_scalar_bits(self, s),
            !some_nan(self) && s == ONE_BITS ==> r == self,
            is_finite_bits(self.x) && is_finite_bits(s) && !is_zero_bits(s)
                ==> !is_nan_bits(r.x),
            is_finite_bits(self.y) && is_finite_bits(s) && !is_zero_bits(s)
                ==> !is_nan_bits(r.y),
            is_finite_bits(self.z) && is_finite_bits(s) && !is_zero_bits(s)
                ==> !is_nan_bits(r.z),
            is_nan_bits(self.x) || is_nan_bits(s) ==> is_nan_bits(r.x),
            is_nan_bits(self.y) || is_nan_bits(s) ==> is_nan_bits(r.y),
            is_nan_bits(self.z) || is_nan_bits(s) ==> is_nan_bits(r.z),
            is_zero_bits(self.x) && is_zero_bits(s) ==> is_nan_bits(r.x),
            is_zero_bits(self.y) && is_zero_bits(s) ==> is_nan_bits(r.y),
            is_zero_bits(self.z) && is_zero_bits(s) ==> is_nan_bits(r.z),
            is_finite_bits(self.x) && !is_zero_bits(self.x) && is_zero_bits(s)
                ==> is_infinite_bits(r.x),
            is_finite_bits(self.y) && !is_zero_bits(self.y) && is_zero_bits(s)
                ==> is_infinite_bits(r.y),
            is_finite_bits(self.z) && !is_zero_bits(self.z) && is_zero_bits(s)
                ==> is_infinite_bits(r.z),
    {
        Vector3 {
            x: div_single(self.x, s),
            y: div_single(self.y, s),
            z: div_single(self.z, s),
        }
    }
}

} // verus!
