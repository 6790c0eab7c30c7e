//! Bit fields inside a byte: a field is given by the position of its lowest
//! bit and by a mask of its width, and is read and replaced by shift and mask.

use vstd::prelude::*;

verus! {

/// A field is well placed when it lies wholly inside the byte: shifting the
/// mask up to the field's position and back down loses nothing.
pub open spec fn placed(shift: u8, mask: u8) -> bool {
    shift < 8 && ((mask << shift) >> shift) == mask
}

/// The bits of the byte that the field occupies.
pub open spec fn reach(shift: u8, mask: u8) -> u8 {
    mask << shift
}

/// The value of the field, moved down to bit 0.
pub open spec fn field(byte: u8, shift: u8, mask: u8) -> u8 {
    (byte >> shift) & mask
}

/// The byte with the field replaced by `value`, cut to the field's width.
pub open spec fn with_field(byte: u8, shift: u8, mask: u8, value: u8) -> u8 {
    (byte & !(mask << shift)) | ((value & mask) << shift)
}

/// Two bytes agree on every bit outside `region`.
pub open spec fn same_outside(a: u8, b: u8, region: u8) -> bool {
    a & !region == b & !region
}

/// A mask of the lowest one to eight bits.
pub open spec fn narrow(mask: u8) -> bool {
    mask == 0x01 || mask == 0x03 || mask == 0x07 || mask == 0x0F || mask == 0x1F || mask == 0x3F
        || mask == 0x7F || mask == 0xFF
}

/// A flag as the one-bit value that stands for it.
pub open spec fn spec_flag(on: bool) -> u8 {
    if on {
        1
    } else {
        0
    }
}

/// A flag as the one-bit value that stands for it.
pub fn flag(on: bool) -> (bit: u8)
    ensures
        bit == spec_flag(on),
{
    if on {
        1
    } else {
        0
    }
}

/// Reads a field.
pub fn get_field(byte: u8, shift: u8, mask: u8) -> (value: u8)
    requires
        shift < 8,
    ensures
        value == field(byte, shift, mask),
        value <= mask,
{
    assert(((byte >> shift) & mask) <= mask) by (bit_vector);
    (byte >> shift) & mask
}

/// Replaces a field, leaving every other bit as it was.
pub fn set_field(byte: u8, shift: u8, mask: u8, value: u8) -> (out: u8)
    requires
        placed(shift, mask),
    ensures
        out == with_field(byte, shift, mask, value),
        field(out, shift, mask) == value & mask,
        narrow(mask) && value <= mask ==> field(out, shift, mask) == value,
        same_outside(byte, out, reach(shift, mask)),
{
    proof {
        lemma_set_field(byte, shift, mask, value);
    }
    (byte & !(mask << shift)) | ((value & mask) << shift)
}

/// What replacing a field does: the field then holds the value, cut to its
/// width, and no bit outside the field has changed.
pub proof fn lemma_set_field(byte: u8, shift: u8, mask: u8, value: u8)
    requires
        placed(shift, mask),
    ensures
        field(with_field(byte, shift, mask, value), shift, mask) == value & mask,
        narrow(mask) && value <= mask ==> field(with_field(byte, shift, mask, value), shift, mask)
            == value,
        same_outside(byte, with_field(byte, shift, mask, value), reach(shift, mask)),
{
    lemma_read_back(byte, shift, mask, value);
    lemma_isolated(byte, shift, mask, value);
    if narrow(mask) && value <= mask {
        lemma_fits(mask, value);
    }
}

/// A field that was written reads back as the value written, cut to the
/// field's width.
pub proof fn lemma_read_back(byte: u8, shift: u8, mask: u8, value: u8)
    by (bit_vector)
    requires
        shift < 8 && ((mask << shift) >> shift) == mask,
    ensures
        ((((byte & !(mask << shift)) | ((value & mask) << shift)) >> shift) & mask) == value & mask,
{
}

/// A value that fits the field's width is not cut.
pub proof fn lemma_fits(mask: u8, value: u8)
    by (bit_vector)
    requires
        mask == 0x01 || mask == 0x03 || mask == 0x07 || mask == 0x0F || mask == 0x1F || mask
            == 0x3F || mask == 0x7F || mask == 0xFF,
        value <= mask,
    ensures
        value & mask == value,
{
}

/// Writing a field changes no bit outside it.
pub proof fn lemma_isolated(byte: u8, shift: u8, mask: u8, value: u8)
    by (bit_vector)
    requires
        shift < 8,
    ensures
        ((byte & !(mask << shift)) | ((value & mask) << shift)) & !(mask << shift) == byte & !(mask
            << shift),
{
}

/// Writing a field back with the value it holds gives the same byte.
pub proof fn lemma_rewrite(byte: u8, shift: u8, mask: u8)
    by (bit_vector)
    requires
        shift < 8 && ((mask << shift) >> shift) == mask,
    ensures
        ((byte & !(mask << shift)) | ((((byte >> shift) & mask) & mask) << shift)) == byte,
{
}

/// Writing a one-bit field back as the flag it reads as gives the same byte.
pub proof fn lemma_rewrite_flag(byte: u8, shift: u8)
    by (bit_vector)
    requires
        shift < 8,
    ensures
        ((byte & !(1u8 << shift)) | (((if ((byte >> shift) & 1u8) == 1u8 {
            1u8
        } else {
            0u8
        }) & 1u8) << shift)) == byte,
{
}

/// A field that does not overlap the one written keeps its value.
pub proof fn lemma_apart(byte: u8, shift: u8, mask: u8, value: u8, other_shift: u8, other_mask: u8)
    by (bit_vector)
    requires
        shift < 8,
        other_shift < 8,
        ((mask << shift) & (other_mask << other_shift)) == 0,
        ((other_mask << other_shift) >> other_shift) == other_mask,
    ensures
        ((((byte & !(mask << shift)) | ((value & mask) << shift)) >> other_shift) & other_mask) == (
        byte >> other_shift) & other_mask,
{
}

/// Every field of the register map lies inside its byte, and covers the bits
/// given here.
pub proof fn lemma_layout()
    by (bit_vector)
    ensures
        placed(0, 0x01) && reach(0, 0x01) == 0x01,
        placed(0, 0x03) && reach(0, 0x03) == 0x03,
        placed(0, 0x07) && reach(0, 0x07) == 0x07,
        placed(0, 0x1F) && reach(0, 0x1F) == 0x1F,
        placed(0, 0x7F) && reach(0, 0x7F) == 0x7F,
        placed(1, 0x01) && reach(1, 0x01) == 0x02,
        placed(2, 0x01) && reach(2, 0x01) == 0x04,
        placed(2, 0x03) && reach(2, 0x03) == 0x0C,
        placed(3, 0x01) && reach(3, 0x01) == 0x08,
        placed(4, 0x01) && reach(4, 0x01) == 0x10,
        placed(4, 0x03) && reach(4, 0x03) == 0x30,
        placed(4, 0x07) && reach(4, 0x07) == 0x70,
        placed(5, 0x01) && reach(5, 0x01) == 0x20,
        placed(5, 0x07) && reach(5, 0x07) == 0xE0,
        placed(6, 0x01) && reach(6, 0x01) == 0x40,
        placed(6, 0x03) && reach(6, 0x03) == 0xC0,
        placed(7, 0x01) && reach(7, 0x01) == 0x80,
{
}

} // verus!
