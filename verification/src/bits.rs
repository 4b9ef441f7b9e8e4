use vstd::prelude::*;

verus! {

// An IEEE 754 binary32 bit pattern splits into one sign bit, eight biased
// exponent bits and twenty-three fraction bits. The predicates below read
// those fields, so that contracts can speak of the class of a component
// (finite, infinite, NaN, zero) without leaving the bit level.

/// Sign bit of a binary32 bit pattern.
pub open spec fn sign_of(a: u32) -> bool {
    a & 0x8000_0000u32 != 0u32
}

/// Biased exponent field of a binary32 bit pattern.
pub open spec fn exp_of(a: u32) -> u32 {
    (a >> 23u32) & 0xffu32
}

/// Fraction field of a binary32 bit pattern.
pub open spec fn frac_of(a: u32) -> u32 {
    a & 0x007f_ffffu32
}

/// The pattern encodes a NaN: exponent all ones and a nonzero fraction.
pub open spec fn is_nan_bits(a: u32) -> bool {
    exp_of(a) == 0xffu32 && frac_of(a) != 0u32
}

/// The pattern encodes an infinity: exponent all ones and a zero fraction.
pub open spec fn is_infinite_bits(a: u32) -> bool {
    exp_of(a) == 0xffu32 && frac_of(a) == 0u32
}

/// The pattern encodes a finite number: zero, subnormal or normal.
pub open spec fn is_finite_bits(a: u32) -> bool {
    exp_of(a) != 0xffu32
}

/// The pattern encodes a zero of either sign.
pub open spec fn is_zero_bits(a: u32) -> bool {
    a & 0x7fff_ffffu32 == 0u32
}

/// The sign bit is clear: the pattern does not encode a negative number.
pub open spec fn is_nonneg_bits(a: u32) -> bool {
    !sign_of(a)
}

/// IEEE 754 negation: the same pattern with only the sign bit flipped.
pub open spec fn neg_bits(a: u32) -> u32 {
    a ^ 0x8000_0000u32
}

/// Bit pattern of positive infinity.
pub const POS_INF_BITS: u32 = 0x7f80_0000;

/// Bit pattern of positive one.
pub const ONE_BITS: u32 = 0x3f80_0000;

/// Negation flips exactly the sign bit, so applying it twice gives the
/// original pattern back, whatever class the pattern encodes.
pub proof fn lemma_neg_bits_involution(a: u32)
    ensures
        neg_bits(neg_bits(a)) == a,
{
    assert(((a ^ 0x8000_0000u32) ^ 0x8000_0000u32) == a) by (bit_vector);
}

} // verus!
