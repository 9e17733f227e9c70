//! Single-bit access to register bytes.

use bit_field::BitField;
use vstd::prelude::*;

verus! {

/// Whether bit `index` of `value` is set; bit 0 is the least significant.
pub open spec fn bit_set(value: u8, index: usize) -> bool {
    value & (1u8 << index) != 0
}

/// `value` with bit `index` set (`on`) or cleared, every other bit kept.
pub open spec fn bit_assigned(value: u8, index: usize, on: bool) -> u8 {
    if on {
        value | (1u8 << index)
    } else {
        value & !(1u8 << index)
    }
}

/// Calls `bit_field::BitField::get_bit` on a byte. Trusted: the result is
/// whether the bit at `index` is set. The crate panics on an index outside
/// the byte, which the precondition leaves out.
#[verifier::external_body]
pub(crate) fn get_bit(value: u8, index: usize) -> (on: bool)
    requires
        index < 8,
    ensures
        on == bit_set(value, index),
{
    value.get_bit(index)
}

/// Calls `bit_field::BitField::set_bit` on a copy of a byte. Trusted: the
/// result is `value` with the bit at `index` set or cleared and the others
/// unchanged. The crate panics on an index outside the byte, which the
/// precondition leaves out.
#[verifier::external_body]
pub(crate) fn set_bit(value: u8, index: usize, on: bool) -> (out: u8)
    requires
        index < 8,
    ensures
        out == bit_assigned(value, index, on),
{
    let mut out: u8 = value;
    out.set_bit(index, on);
    out
}

} // verus!
