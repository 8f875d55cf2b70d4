//! The arithmetic and logic of the processor as functions of register
//! values: what each operation computes and how it leaves the flags.

use super::registers::Flags;
use vstd::prelude::*;

verus! {

/// A byte result with the flags it leaves.
#[derive(Clone, Copy, Debug, PartialEq, Eq)]
pub struct Alu {
    pub value: u8,
    pub flags: Flags,
}

/// A word result with the flags it leaves.
#[derive(Clone, Copy, Debug, PartialEq, Eq)]
pub struct Alu16 {
    pub value: u16,
    pub flags: Flags,
}

/// One for a set carry, zero for a clear one.
pub open spec fn carry_in(carry: bool) -> int {
    if carry { 1 } else { 0 }
}

/// The weight of bit `index` of a byte.
pub open spec fn weight(index: u8) -> int {
    if index == 0 {
        1
    } else if index == 1 {
        2
    } else if index == 2 {
        4
    } else if index == 3 {
        8
    } else if index == 4 {
        16
    } else if index == 5 {
        32
    } else if index == 6 {
        64
    } else {
        128
    }
}

/// Whether bit `index` of `value` is set.
pub open spec fn bit_set(value: u8, index: u8) -> bool {
    (value as int / weight(index)) % 2 == 1
}

/// The offset that a byte means as a signed number.
pub open spec fn signed(offset: u8) -> int {
    if offset < 128 {
        offset as int
    } else {
        offset - 256
    }
}

/// An address moved by a signed offset, modulo 2^16.
pub open spec fn displaced(address: u16, offset: u8) -> u16 {
    ((address + signed(offset)) % 0x1_0000) as u16
}

/// Sum with carry in: Z on a zero result, N clear, H on a carry out of
/// bit 3, C on a carry out of bit 7.
pub open spec fn added(a: u8, b: u8, carry: bool) -> Alu {
    let sum = a + b + carry_in(carry);
    Alu {
        value: (sum % 256) as u8,
        flags: Flags {
            zero: sum % 256 == 0,
            negative: false,
            half_carry: a % 16 + b % 16 + carry_in(carry) > 0xF,
            carry: sum > 0xFF,
        },
    }
}

/// Difference with borrow in: Z on a zero result, N set, H on a borrow
/// into bit 3, C on a borrow into bit 7.
pub open spec fn subtracted(a: u8, b: u8, carry: bool) -> Alu {
    let difference = a - b - carry_in(carry);
    Alu {
        value: (difference % 256) as u8,
        flags: Flags {
            zero: difference % 256 == 0,
            negative: true,
            half_carry: a % 16 < b % 16 + carry_in(carry),
            carry: a < b + carry_in(carry),
        },
    }
}

pub open spec fn anded(a: u8, b: u8) -> Alu {
    Alu {
        value: a & b,
        flags: Flags { zero: a & b == 0, negative: false, half_carry: true, carry: false },
    }
}

pub open spec fn ored(a: u8, b: u8) -> Alu {
    Alu { value: a | b, flags: Flags { zero: a | b == 0, ..Flags::none() } }
}

pub open spec fn xored(a: u8, b: u8) -> Alu {
    Alu { value: a ^ b, flags: Flags { zero: a ^ b == 0, ..Flags::none() } }
}

/// Increment: C stays, H on a carry out of bit 3.
pub open spec fn incremented(value: u8, flags: Flags) -> Alu {
    Alu {
        value: ((value + 1) % 256) as u8,
        flags: Flags {
            zero: value == 255,
            negative: false,
            half_carry: value % 16 == 15,
            carry: flags.carry,
        },
    }
}

/// Decrement: C stays, H on a borrow into bit 3.
pub open spec fn decremented(value: u8, flags: Flags) -> Alu {
    Alu {
        value: ((value - 1) % 256) as u8,
        flags: Flags {
            zero: value == 1,
            negative: true,
            half_carry: value % 16 == 0,
            carry: flags.carry,
        },
    }
}

/// Sum of two words: Z stays, N clear, H on a carry out of bit 11, C
/// on a carry out of bit 15.
pub open spec fn added_words(a: u16, b: u16, flags: Flags) -> Alu16 {
    Alu16 {
        value: ((a + b) % 0x1_0000) as u16,
        flags: Flags {
            zero: flags.zero,
            negative: false,
            half_carry: a % 0x1000 + b % 0x1000 > 0xFFF,
            carry: a + b > 0xFFFF,
        },
    }
}

/// The stack pointer moved by a signed offset: Z and N clear, H and C
/// from adding the offset as an unsigned byte to the low byte.
pub open spec fn added_offset(sp: u16, offset: u8) -> Alu16 {
    Alu16 {
        value: displaced(sp, offset),
        flags: Flags {
            zero: false,
            negative: false,
            half_carry: sp % 16 + offset % 16 > 0xF,
            carry: sp % 256 + offset > 0xFF,
        },
    }
}

/// The flags of a shift or rotate: Z on a zero result, C the bit that
/// left.
pub open spec fn shifted(value: int, out: bool) -> Alu {
    Alu { value: value as u8, flags: Flags { zero: value == 0, carry: out, ..Flags::none() } }
}

pub open spec fn rotated_left(value: u8) -> Alu {
    shifted((value * 2) % 256 + value / 128, value >= 128)
}

pub open spec fn rotated_right(value: u8) -> Alu {
    shifted(value / 2 + (value % 2) * 128, value % 2 == 1)
}

pub open spec fn rotated_left_through(value: u8, carry: bool) -> Alu {
    shifted((value * 2) % 256 + carry_in(carry), value >= 128)
}

pub open spec fn rotated_right_through(value: u8, carry: bool) -> Alu {
    shifted(value / 2 + carry_in(carry) * 128, value % 2 == 1)
}

pub open spec fn shifted_left(value: u8) -> Alu {
    shifted((value * 2) % 256, value >= 128)
}

/// Bit 7 stays as it is.
pub open spec fn shifted_right_signed(value: u8) -> Alu {
    shifted(value / 2 + (value / 128) * 128, value % 2 == 1)
}

pub open spec fn shifted_right(value: u8) -> Alu {
    shifted(value as int / 2, value % 2 == 1)
}

pub open spec fn swapped(value: u8) -> Alu {
    shifted((value % 16) * 16 + value / 16, false)
}

/// A rotate of the accumulator by the short opcodes leaves Z clear.
pub open spec fn without_zero(result: Alu) -> Alu {
    Alu { flags: Flags { zero: false, ..result.flags }, ..result }
}

/// The flags after a bit test: Z where the bit is clear, N clear, H
/// set, C as it was.
pub open spec fn bit_tested(value: u8, index: u8, flags: Flags) -> Flags {
    Flags { zero: !bit_set(value, index), negative: false, half_carry: true, carry: flags.carry }
}

pub open spec fn bit_cleared(value: u8, index: u8) -> u8 {
    if bit_set(value, index) {
        (value - weight(index)) as u8
    } else {
        value
    }
}

pub open spec fn bit_raised(value: u8, index: u8) -> u8 {
    if bit_set(value, index) {
        value
    } else {
        (value + weight(index)) as u8
    }
}

/// The decimal correction of the accumulator after an addition or a
/// subtraction of two packed decimal numbers. After an addition, 6 is
/// added where the low digit is past 9 or H is set, and 0x60 where the
/// value is past 0x99 or C is set, which sets C. After a subtraction,
/// 6 is taken off where H is set and 0x60 where C is set. Z is on a
/// zero result, H is cleared, N stays.
pub open spec fn decimal_adjusted(a: u8, flags: Flags) -> Alu {
    let low: int = if flags.half_carry || (!flags.negative && a % 16 > 9) { 6 } else { 0 };
    let high: int = if flags.carry || (!flags.negative && a > 0x99) { 0x60 } else { 0 };
    let value = if flags.negative { (a - low - high) % 256 } else { (a + low + high) % 256 };
    Alu {
        value: value as u8,
        flags: Flags {
            zero: value == 0,
            negative: flags.negative,
            half_carry: false,
            carry: flags.carry || (!flags.negative && a > 0x99),
        },
    }
}

pub open spec fn complemented(a: u8, flags: Flags) -> Alu {
    Alu { value: (255 - a) as u8, flags: Flags { negative: true, half_carry: true, ..flags } }
}

pub fn add_with_carry(a: u8, b: u8, carry: bool) -> (r: Alu)
    ensures
        r == added(a, b, carry),
{
    let c: u16 = if carry { 1 } else { 0 };
    let sum: u16 = a as u16 + b as u16 + c;
    Alu {
        value: (sum % 256) as u8,
        flags: Flags {
            zero: sum % 256 == 0,
            negative: false,
            half_carry: (a % 16) as u16 + (b % 16) as u16 + c > 0xF,
            carry: sum > 0xFF,
        },
    }
}

pub fn sub_with_borrow(a: u8, b: u8, carry: bool) -> (r: Alu)
    ensures
        r == subtracted(a, b, carry),
{
    let c: u16 = if carry { 1 } else { 0 };
    let value: u16 = (a as u16 + 512 - b as u16 - c) % 256;
    Alu {
        value: value as u8,
        flags: Flags {
            zero: value == 0,
            negative: true,
            half_carry: ((a % 16) as u16) < (b % 16) as u16 + c,
            carry: (a as u16) < b as u16 + c,
        },
    }
}

pub fn and(a: u8, b: u8) -> (r: Alu)
    ensures
        r == anded(a, b),
{
    let value = a & b;
    Alu { value, flags: Flags { zero: value == 0, negative: false, half_carry: true, carry: false } }
}

pub fn or(a: u8, b: u8) -> (r: Alu)
    ensures
        r == ored(a, b),
{
    let value = a | b;
    Alu { value, flags: Flags { zero: value == 0, negative: false, half_carry: false, carry: false } }
}

pub fn xor(a: u8, b: u8) -> (r: Alu)
    ensures
        r == xored(a, b),
{
    let value = a ^ b;
    Alu { value, flags: Flags { zero: value == 0, negative: false, half_carry: false, carry: false } }
}

pub fn inc(value: u8, flags: Flags) -> (r: Alu)
    ensures
        r == incremented(value, flags),
{
    Alu {
        value: value.wrapping_add(1),
        flags: Flags {
            zero: value == 255,
            negative: false,
            half_carry: value % 16 == 15,
            carry: flags.carry,
        },
    }
}

pub fn dec(value: u8, flags: Flags) -> (r: Alu)
    ensures
        r == decremented(value, flags),
{
    Alu {
        value: value.wrapping_sub(1),
        flags: Flags {
            zero: value == 1,
            negative: true,
            half_carry: value % 16 == 0,
            carry: flags.carry,
        },
    }
}

pub fn add_words(a: u16, b: u16, flags: Flags) -> (r: Alu16)
    ensures
        r == added_words(a, b, flags),
{
    let sum: u32 = a as u32 + b as u32;
    Alu16 {
        value: (sum % 0x1_0000) as u16,
        flags: Flags {
            zero: flags.zero,
            negative: false,
            half_carry: (a % 0x1000) as u32 + (b % 0x1000) as u32 > 0xFFF,
            carry: sum > 0xFFFF,
        },
    }
}

/// Moves an address by a signed offset.
pub fn displace(address: u16, offset: u8) -> (r: u16)
    ensures
        r == displaced(address, offset),
{
    let moved: u32 = if offset < 128 {
        address as u32 + offset as u32
    } else {
        address as u32 + 0x1_0000 + offset as u32 - 256
    };
    (moved % 0x1_0000) as u16
}

pub fn add_offset(sp: u16, offset: u8) -> (r: Alu16)
    ensures
        r == added_offset(sp, offset),
{
    Alu16 {
        value: displace(sp, offset),
        flags: Flags {
            zero: false,
            negative: false,
            half_carry: sp % 16 + (offset % 16) as u16 > 0xF,
            carry: sp % 256 + offset as u16 > 0xFF,
        },
    }
}

fn shift_result(value: u8, out: bool) -> (r: Alu)
    ensures
        r == shifted(value as int, out),
{
    Alu { value, flags: Flags { zero: value == 0, negative: false, half_carry: false, carry: out } }
}

pub fn rotate_left(value: u8) -> (r: Alu)
    ensures
        r == rotated_left(value),
{
    shift_result(((value as u16 * 2) % 256) as u8 + value / 128, value >= 128)
}

pub fn rotate_right(value: u8) -> (r: Alu)
    ensures
        r == rotated_right(value),
{
    shift_result(value / 2 + (value % 2) * 128, value % 2 == 1)
}

pub fn rotate_left_through(value: u8, carry: bool) -> (r: Alu)
    ensures
        r == rotated_left_through(value, carry),
{
    let c: u8 = if carry { 1 } else { 0 };
    shift_result(((value as u16 * 2) % 256) as u8 + c, value >= 128)
}

pub fn rotate_right_through(value: u8, carry: bool) -> (r: Alu)
    ensures
        r == rotated_right_through(value, carry),
{
    let c: u8 = if carry { 128 } else { 0 };
    shift_result(value / 2 + c, value % 2 == 1)
}

pub fn shift_left(value: u8) -> (r: Alu)
    ensures
        r == shifted_left(value),
{
    shift_result(((value as u16 * 2) % 256) as u8, value >= 128)
}

pub fn shift_right_signed(value: u8) -> (r: Alu)
    ensures
        r == shifted_right_signed(value),
{
    shift_result(value / 2 + (value / 128) * 128, value % 2 == 1)
}

pub fn shift_right(value: u8) -> (r: Alu)
    ensures
        r == shifted_right(value),
{
    shift_result(value / 2, value % 2 == 1)
}

pub fn swap(value: u8) -> (r: Alu)
    ensures
        r == swapped(value),
{
    shift_result((value % 16) * 16 + value / 16, false)
}

pub fn clear_zero(result: Alu) -> (r: Alu)
    ensures
        r == without_zero(result),
{
    Alu {
        value: result.value,
        flags: Flags {
            zero: false,
            negative: result.flags.negative,
            half_carry: result.flags.half_carry,
            carry: result.flags.carry,
        },
    }
}

fn bit_weight(index: u8) -> (r: u8)
    requires
        index < 8,
    ensures
        r as int == weight(index),
{
    match index {
        0 => 1,
        1 => 2,
        2 => 4,
        3 => 8,
        4 => 16,
        5 => 32,
        6 => 64,
        _ => 128,
    }
}

pub fn test_bit(value: u8, index: u8) -> (r: bool)
    requires
        index < 8,
    ensures
        r == bit_set(value, index),
{
    match index {
        0 => value % 2 == 1,
        1 => (value / 2) % 2 == 1,
        2 => (value / 4) % 2 == 1,
        3 => (value / 8) % 2 == 1,
        4 => (value / 16) % 2 == 1,
        5 => (value / 32) % 2 == 1,
        6 => (value / 64) % 2 == 1,
        _ => (value / 128) % 2 == 1,
    }
}

pub fn bit(value: u8, index: u8, flags: Flags) -> (r: Flags)
    requires
        index < 8,
    ensures
        r == bit_tested(value, index, flags),
{
    Flags {
        zero: !test_bit(value, index),
        negative: false,
        half_carry: true,
        carry: flags.carry,
    }
}

pub fn res(value: u8, index: u8) -> (r: u8)
    requires
        index < 8,
    ensures
        r == bit_cleared(value, index),
{
    match index {
        0 => if value % 2 == 1 { value - 1 } else { value },
        1 => if (value / 2) % 2 == 1 { value - 2 } else { value },
        2 => if (value / 4) % 2 == 1 { value - 4 } else { value },
        3 => if (value / 8) % 2 == 1 { value - 8 } else { value },
        4 => if (value / 16) % 2 == 1 { value - 16 } else { value },
        5 => if (value / 32) % 2 == 1 { value - 32 } else { value },
        6 => if (value / 64) % 2 == 1 { value - 64 } else { value },
        _ => if (value / 128) % 2 == 1 { value - 128 } else { value },
    }
}

pub fn set(value: u8, index: u8) -> (r: u8)
    requires
        index < 8,
    ensures
        r == bit_raised(value, index),
{
    match index {
        0 => if value % 2 == 1 { value } else { value + 1 },
        1 => if (value / 2) % 2 == 1 { value } else { value + 2 },
        2 => if (value / 4) % 2 == 1 { value } else { value + 4 },
        3 => if (value / 8) % 2 == 1 { value } else { value + 8 },
        4 => if (value / 16) % 2 == 1 { value } else { value + 16 },
        5 => if (value / 32) % 2 == 1 { value } else { value + 32 },
        6 => if (value / 64) % 2 == 1 { value } else { value + 64 },
        _ => if (value / 128) % 2 == 1 { value } else { value + 128 },
    }
}

pub fn daa(a: u8, flags: Flags) -> (r: Alu)
    ensures
        r == decimal_adjusted(a, flags),
{
    let low: u16 = if flags.half_carry || (!flags.negative && a % 16 > 9) { 6 } else { 0 };
    let high: u16 = if flags.carry || (!flags.negative && a > 0x99) { 0x60 } else { 0 };
    let value: u16 = if flags.negative {
        (a as u16 + 256 - low - high) % 256
    } else {
        (a as u16 + low + high) % 256
    };
    Alu {
        value: value as u8,
        flags: Flags {
            zero: value == 0,
            negative: flags.negative,
            half_carry: false,
            carry: flags.carry || (!flags.negative && a > 0x99),
        },
    }
}

pub fn cpl(a: u8, flags: Flags) -> (r: Alu)
    ensures
        r == complemented(a, flags),
{
    Alu {
        value: 255 - a,
        flags: Flags { zero: flags.zero, negative: true, half_carry: true, carry: flags.carry },
    }
}

/// The flags that any operation leaves name a byte whose lower nibble
/// is zero.
pub proof fn lemma_flags_low_nibble(result: Alu)
    ensures
        result.flags.byte() % 16 == 0,
{
}

} // verus!
