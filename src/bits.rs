use vstd::prelude::*;

use crate::registers::{
    Gain, Ldo, SamplesPerSecond, GAIN_MASK, GAIN_START_BIT, LDO_MASK, LDO_START_BIT, SPS_MASK,
    SPS_START_BIT,
};

verus! {

/// `v` with bit `bit` set.
pub open spec fn bit_set(v: u8, bit: u8) -> u8 {
    v | (1u8 << bit)
}

/// `v` with bit `bit` cleared.
pub open spec fn bit_cleared(v: u8, bit: u8) -> u8 {
    v & !(1u8 << bit)
}

/// Whether bit `bit` of `v` is one.
pub open spec fn bit_of(v: u8, bit: u8) -> bool {
    v & (1u8 << bit) != 0
}

/// `v` with the bits that `mask` clears replaced by `value << shift`.
pub open spec fn field_written(v: u8, mask: u8, shift: u8, value: u8) -> u8 {
    (v & mask) | (value << shift)
}

/// Sets one bit of a register value.
pub fn with_bit_set(v: u8, bit: u8) -> (r: u8)
    requires
        bit < 8,
    ensures
        r == bit_set(v, bit),
{
    v | (1u8 << bit)
}

/// Clears one bit of a register value.
pub fn with_bit_cleared(v: u8, bit: u8) -> (r: u8)
    requires
        bit < 8,
    ensures
        r == bit_cleared(v, bit),
{
    v & !(1u8 << bit)
}

/// Reads one bit of a register value.
pub fn is_bit_set(v: u8, bit: u8) -> (r: bool)
    requires
        bit < 8,
    ensures
        r == bit_of(v, bit),
{
    v & (1u8 << bit) != 0
}

/// Replaces a field of a register value: keeps the bits that `mask` keeps
/// and ORs in `value` shifted to the field's first bit.
pub fn with_field(v: u8, mask: u8, shift: u8, value: u8) -> (r: u8)
    requires
        shift < 8,
    ensures
        r == field_written(v, mask, shift, value),
{
    (v & mask) | (value << shift)
}

/// A field write is exactly `(v & mask) | (value << shift)`; when the shifted
/// value lies inside the field (the bits that `mask` clears), every bit that
/// `mask` keeps is unchanged and the field holds the shifted value.
pub proof fn field_write_keeps_other_bits(v: u8, mask: u8, shift: u8, value: u8)
    requires
        shift < 8,
    ensures
        field_written(v, mask, shift, value) == (v & mask) | (value << shift),
        (value << shift) & mask == 0 ==> field_written(v, mask, shift, value) & mask == v & mask,
        (value << shift) & mask == 0 ==> field_written(v, mask, shift, value) & !mask == value
            << shift,
{
    assert((value << shift) & mask == 0 ==> ((v & mask) | (value << shift)) & mask == v & mask)
        by (bit_vector);
    assert((value << shift) & mask == 0 ==> ((v & mask) | (value << shift)) & !mask == value
        << shift) by (bit_vector);
}

/// Writing the gain field leaves the other bits of the register unchanged
/// and puts the gain's code in the field.
pub proof fn gain_write_keeps_other_bits(v: u8, gain: Gain)
    ensures
        field_written(v, GAIN_MASK, GAIN_START_BIT, gain.spec_code()) & GAIN_MASK == v & GAIN_MASK,
        field_written(v, GAIN_MASK, GAIN_START_BIT, gain.spec_code()) & !GAIN_MASK
            == gain.spec_code(),
{
    let c = gain.spec_code();
    assert(((v & 0xF8u8) | (c << 0u8)) & 0xF8u8 == v & 0xF8u8 && ((v & 0xF8u8) | (c << 0u8))
        & !0xF8u8 == c) by (bit_vector)
        requires
            c <= 7,
    ;
}

/// Writing the sample-rate field leaves the other bits of the register
/// unchanged and puts the rate's code in the field.
pub proof fn sample_rate_write_keeps_other_bits(v: u8, sps: SamplesPerSecond)
    ensures
        field_written(v, SPS_MASK, SPS_START_BIT, sps.spec_code()) & SPS_MASK == v & SPS_MASK,
        field_written(v, SPS_MASK, SPS_START_BIT, sps.spec_code()) & !SPS_MASK == sps.spec_code()
            << SPS_START_BIT,
{
    let c = sps.spec_code();
    assert(((v & 0x8Fu8) | (c << 4u8)) & 0x8Fu8 == v & 0x8Fu8 && ((v & 0x8Fu8) | (c << 4u8))
        & !0x8Fu8 == c << 4u8) by (bit_vector)
        requires
            c <= 7,
    ;
}

/// Writing the LDO field leaves the other bits of the register unchanged
/// and puts the voltage's code in the field.
pub proof fn ldo_write_keeps_other_bits(v: u8, ldo: Ldo)
    ensures
        field_written(v, LDO_MASK, LDO_START_BIT, ldo.spec_code()) & LDO_MASK == v & LDO_MASK,
        field_written(v, LDO_MASK, LDO_START_BIT, ldo.spec_code()) & !LDO_MASK == ldo.spec_code()
            << LDO_START_BIT,
{
    let c = ldo.spec_code();
    assert(((v & 0xC7u8) | (c << 3u8)) & 0xC7u8 == v & 0xC7u8 && ((v & 0xC7u8) | (c << 3u8))
        & !0xC7u8 == c << 3u8) by (bit_vector)
        requires
            c <= 7,
    ;
}

/// A bit reads as set right after it is set, and as clear right after it is cleared.
pub proof fn bit_reads_back(v: u8, bit: u8)
    by (bit_vector)
    requires
        bit < 8,
    ensures
        bit_of(bit_set(v, bit), bit),
        !bit_of(bit_cleared(v, bit), bit),
{
}

/// Setting or clearing one bit leaves every other bit as it was.
pub proof fn other_bits_unaffected(v: u8, bit: u8, other: u8)
    by (bit_vector)
    requires
        bit < 8,
        other < 8,
        bit != other,
    ensures
        bit_of(bit_set(v, other), bit) == bit_of(v, bit),
        bit_of(bit_cleared(v, other), bit) == bit_of(v, bit),
{
}

} // verus!
