//! Floating-point numbers by their IEEE 754 bit patterns.
use vstd::prelude::*;

verus! {

/// The pattern of one.
pub const ONE_F32: u32 = 0x3F80_0000;

/// The pattern of positive infinity.
pub const INFINITY_F32: u32 = 0x7F80_0000;

/// Whether the pattern is that of a number above zero: the sign bit is clear
/// and it is neither zero nor undefined.
pub open spec fn is_positive_f32(bits: u32) -> bool {
    0 < bits <= INFINITY_F32
}

/// Whether the single-precision number with this pattern is above zero.
pub fn positive_f32(bits: u32) -> (r: bool)
    ensures
        r == is_positive_f32(bits),
{
    0 < bits && bits <= INFINITY_F32
}

/// The scale itself where it is above zero, and one otherwise.
pub open spec fn scale_or_one(bits: u32) -> u32 {
    if is_positive_f32(bits) {
        bits
    } else {
        ONE_F32
    }
}

/// Replaces a scale that is not above zero by one.
pub fn positive_scale(bits: u32) -> (r: u32)
    ensures
        r == scale_or_one(bits),
        is_positive_f32(r),
{
    if positive_f32(bits) {
        bits
    } else {
        ONE_F32
    }
}

/// Whether the double with this pattern is above zero.
pub open spec fn is_positive_f64(bits: u64) -> bool {
    0 < bits <= 0x7FF0_0000_0000_0000
}

/// Whether the double with this pattern is above zero.
pub fn positive_f64(bits: u64) -> (r: bool)
    ensures
        r == is_positive_f64(bits),
{
    0 < bits && bits <= 0x7FF0_0000_0000_0000
}

} // verus!
