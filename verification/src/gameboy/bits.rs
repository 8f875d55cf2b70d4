//! Facts about the bits of a byte, proved once for the register types.

use vstd::prelude::*;

verus! {

/// The weight of bit `index` of `value`: zero while the bit is clear.
pub open spec fn bit_weight(value: u8, index: int) -> int {
    if index == 0 {
        if value % 2 == 1 { 1 } else { 0 }
    } else if index == 1 {
        if (value / 2) % 2 == 1 { 2 } else { 0 }
    } else if index == 2 {
        if (value / 4) % 2 == 1 { 4 } else { 0 }
    } else if index == 3 {
        if (value / 8) % 2 == 1 { 8 } else { 0 }
    } else if index == 4 {
        if (value / 16) % 2 == 1 { 16 } else { 0 }
    } else if index == 5 {
        if (value / 32) % 2 == 1 { 32 } else { 0 }
    } else if index == 6 {
        if (value / 64) % 2 == 1 { 64 } else { 0 }
    } else {
        if value >= 128 { 128 } else { 0 }
    }
}

/// A byte is the sum of the weights of its bits.
pub proof fn lemma_byte_is_sum_of_bits(value: u8)
    ensures
        value == bit_weight(value, 0) + bit_weight(value, 1) + bit_weight(value, 2) + bit_weight(
            value,
            3,
        ) + bit_weight(value, 4) + bit_weight(value, 5) + bit_weight(value, 6) + bit_weight(
            value,
            7,
        ),
{
    let b0: u8 = if value % 2 == 1 { 1 } else { 0 };
    let b1: u8 = if (value / 2) % 2 == 1 { 2 } else { 0 };
    let b2: u8 = if (value / 4) % 2 == 1 { 4 } else { 0 };
    let b3: u8 = if (value / 8) % 2 == 1 { 8 } else { 0 };
    let b4: u8 = if (value / 16) % 2 == 1 { 16 } else { 0 };
    let b5: u8 = if (value / 32) % 2 == 1 { 32 } else { 0 };
    let b6: u8 = if (value / 64) % 2 == 1 { 64 } else { 0 };
    let b7: u8 = if value >= 128 { 128 } else { 0 };
    assert(value == b0 + b1 + b2 + b3 + b4 + b5 + b6 + b7) by (bit_vector)
        requires
            b0 == (if value % 2 == 1 { 1u8 } else { 0u8 }),
            b1 == (if (value / 2) % 2 == 1 { 2u8 } else { 0u8 }),
            b2 == (if (value / 4) % 2 == 1 { 4u8 } else { 0u8 }),
            b3 == (if (value / 8) % 2 == 1 { 8u8 } else { 0u8 }),
            b4 == (if (value / 16) % 2 == 1 { 16u8 } else { 0u8 }),
            b5 == (if (value / 32) % 2 == 1 { 32u8 } else { 0u8 }),
            b6 == (if (value / 64) % 2 == 1 { 64u8 } else { 0u8 }),
            b7 == (if value >= 128 { 128u8 } else { 0u8 }),
    ;
}


/// Masking a byte makes it no larger.
pub proof fn lemma_and_is_smaller(a: u8, b: u8)
    by (bit_vector)
    ensures
        a & b <= a,
        a & b <= b,
{
}

} // verus!
