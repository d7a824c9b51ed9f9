//! Bit fields of 32-bit memory-mapped registers.
use vstd::prelude::*;

verus! {

/// Mask of the `width` low bits of a word.
pub open spec fn low_mask(width: u32) -> u32 {
    ((1u64 << width) - 1) as u32
}

/// The word `value` with the field of `mask` at `offset` replaced by `field`:
/// the bits outside the field are kept, the field's bits come from `field`.
pub open spec fn with_field(value: u32, offset: u32, mask: u32, field: u32) -> u32 {
    (value & !(mask << offset)) | ((field & mask) << offset)
}

/// The field of `mask` at `offset` in `value`.
pub open spec fn field_of(value: u32, offset: u32, mask: u32) -> u32 {
    (value >> offset) & mask
}

/// Replaces a field of a register value, as a field writer of a register does.
pub fn set_field(value: u32, offset: u32, mask: u32, field: u32) -> (r: u32)
    requires
        offset < 32,
    ensures
        r == with_field(value, offset, mask, field),
{
    (value & !(mask << offset)) | ((field & mask) << offset)
}

/// Reads a field of a register value.
pub fn get_field(value: u32, offset: u32, mask: u32) -> (r: u32)
    requires
        offset < 32,
    ensures
        r == field_of(value, offset, mask),
{
    (value >> offset) & mask
}

/// A field reads back what was written to it.
pub proof fn lemma_field_read_back(value: u32, offset: u32, width: u32, field: u32)
    requires
        0 < width,
        offset + width <= 32,
    ensures
        field_of(with_field(value, offset, low_mask(width), field), offset, low_mask(width))
            == field & low_mask(width),
{
    let m = low_mask(width);
    assert(m == ((1u64 << width) - 1) as u32);
    assert(((((value & !(m << offset)) | ((field & m) << offset)) >> offset) & m) == field & m)
        by (bit_vector)
        requires
            0 < width,
            offset + width <= 32,
            m == ((1u64 << width) - 1) as u32,
    ;
}

/// Writing one field leaves every field that does not overlap it as it was.
pub proof fn lemma_other_field_kept(value: u32, offset: u32, width: u32, field: u32, other_offset: u32, other_width: u32)
    requires
        0 < width,
        offset + width <= 32,
        0 < other_width,
        other_offset + other_width <= 32,
        offset + width <= other_offset || other_offset + other_width <= offset,
    ensures
        field_of(with_field(value, offset, low_mask(width), field), other_offset, low_mask(other_width))
            == field_of(value, other_offset, low_mask(other_width)),
{
    let m = low_mask(width);
    let n = low_mask(other_width);
    assert(((((value & !(m << offset)) | ((field & m) << offset)) >> other_offset) & n) == ((value >> other_offset) & n))
        by (bit_vector)
        requires
            0 < width,
            offset + width <= 32,
            0 < other_width,
            other_offset + other_width <= 32,
            offset + width <= other_offset || other_offset + other_width <= offset,
            m == ((1u64 << width) - 1) as u32,
            n == ((1u64 << other_width) - 1) as u32,
    ;
}

} // verus!
