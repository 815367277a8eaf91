//! Flags kept as single bits of a byte.

use vstd::prelude::*;

verus! {

/// Every bit of `mask` is set in `bits`.
pub open spec fn has_flag(bits: u8, mask: u8) -> bool {
    bits & mask == mask
}

/// `bits` with the bits of `mask` set (`on`) or cleared.
pub open spec fn with_flag(bits: u8, mask: u8, on: bool) -> u8 {
    if on {
        bits | mask
    } else {
        bits & !mask
    }
}

pub fn test_flag(bits: u8, mask: u8) -> (r: bool)
    ensures
        r == has_flag(bits, mask),
{
    bits & mask == mask
}

pub fn set_flag(bits: u8, mask: u8, on: bool) -> (r: u8)
    ensures
        r == with_flag(bits, mask, on),
{
    if on {
        bits | mask
    } else {
        bits & !mask
    }
}

/// A flag reads back as it was written.
pub proof fn lemma_flag_written(bits: u8, mask: u8, on: bool)
    requires
        mask != 0,
    ensures
        has_flag(with_flag(bits, mask, on), mask) == on,
{
    assert((bits | mask) & mask == mask) by (bit_vector);
    assert(mask != 0 ==> (bits & !mask) & mask != mask) by (bit_vector);
}

/// Writing one flag leaves the flags outside its mask as they were.
pub proof fn lemma_flag_kept(bits: u8, mask: u8, on: bool, other: u8)
    requires
        mask & other == 0,
    ensures
        with_flag(bits, mask, on) & other == bits & other,
        has_flag(with_flag(bits, mask, on), other) == has_flag(bits, other),
{
    assert(mask & other == 0 ==> (bits | mask) & other == bits & other) by (bit_vector);
    assert(mask & other == 0 ==> (bits & !mask) & other == bits & other) by (bit_vector);
}

/// Bit 7 of a byte is set if and only if the byte is 128 or more.
pub proof fn lemma_bit7(value: u8)
    ensures
        (value & 0x80 != 0) == (value >= 0x80),
        (value & 0x80 == 0x80) == (value >= 0x80),
{
    assert((value & 0x80 != 0) == (value >= 0x80)) by (bit_vector);
    assert((value & 0x80 == 0x80) == (value >= 0x80)) by (bit_vector);
}

/// No two of the eight single bits of a byte overlap.
pub proof fn lemma_single_bits_apart()
    by (bit_vector)
    ensures
        0x01u8 & 0x02u8 == 0,
        0x01u8 & 0x04u8 == 0,
        0x01u8 & 0x08u8 == 0,
        0x01u8 & 0x10u8 == 0,
        0x01u8 & 0x20u8 == 0,
        0x01u8 & 0x40u8 == 0,
        0x01u8 & 0x80u8 == 0,
        0x02u8 & 0x01u8 == 0,
        0x02u8 & 0x04u8 == 0,
        0x02u8 & 0x08u8 == 0,
        0x02u8 & 0x10u8 == 0,
        0x02u8 & 0x20u8 == 0,
        0x02u8 & 0x40u8 == 0,
        0x02u8 & 0x80u8 == 0,
        0x04u8 & 0x01u8 == 0,
        0x04u8 & 0x02u8 == 0,
        0x04u8 & 0x08u8 == 0,
        0x04u8 & 0x10u8 == 0,
        0x04u8 & 0x20u8 == 0,
        0x04u8 & 0x40u8 == 0,
        0x04u8 & 0x80u8 == 0,
        0x08u8 & 0x01u8 == 0,
        0x08u8 & 0x02u8 == 0,
        0x08u8 & 0x04u8 == 0,
        0x08u8 & 0x10u8 == 0,
        0x08u8 & 0x20u8 == 0,
        0x08u8 & 0x40u8 == 0,
        0x08u8 & 0x80u8 == 0,
        0x10u8 & 0x01u8 == 0,
        0x10u8 & 0x02u8 == 0,
        0x10u8 & 0x04u8 == 0,
        0x10u8 & 0x08u8 == 0,
        0x10u8 & 0x20u8 == 0,
        0x10u8 & 0x40u8 == 0,
        0x10u8 & 0x80u8 == 0,
        0x20u8 & 0x01u8 == 0,
        0x20u8 & 0x02u8 == 0,
        0x20u8 & 0x04u8 == 0,
        0x20u8 & 0x08u8 == 0,
        0x20u8 & 0x10u8 == 0,
        0x20u8 & 0x40u8 == 0,
        0x20u8 & 0x80u8 == 0,
        0x40u8 & 0x01u8 == 0,
        0x40u8 & 0x02u8 == 0,
        0x40u8 & 0x04u8 == 0,
        0x40u8 & 0x08u8 == 0,
        0x40u8 & 0x10u8 == 0,
        0x40u8 & 0x20u8 == 0,
        0x40u8 & 0x80u8 == 0,
        0x80u8 & 0x01u8 == 0,
        0x80u8 & 0x02u8 == 0,
        0x80u8 & 0x04u8 == 0,
        0x80u8 & 0x08u8 == 0,
        0x80u8 & 0x10u8 == 0,
        0x80u8 & 0x20u8 == 0,
        0x80u8 & 0x40u8 == 0,
{
}

} // verus!
