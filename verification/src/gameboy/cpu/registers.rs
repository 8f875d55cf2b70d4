//! The register file and the indices by which opcodes name registers.

use vstd::prelude::*;

verus! {

/// A three-bit register field of an opcode. Fields 0 to 5 name B, C,
/// D, E, H and L, field 7 names A, and field 6 stands for the byte in
/// memory that HL points to.
#[derive(Clone, Copy, Debug, PartialEq, Eq)]
pub struct RegisterIndex(pub u8);

impl RegisterIndex {
    pub open spec fn wf(self) -> bool {
        self.0 < 8
    }

    /// Whether the field stands for memory at HL.
    pub open spec fn indirect(self) -> bool {
        self.0 == 6
    }

    /// The field in bits 5 to 3.
    pub open spec fn first_of(opcode: u8) -> Self {
        RegisterIndex((opcode / 8) % 8)
    }

    /// The field in bits 2 to 0.
    pub open spec fn second_of(opcode: u8) -> Self {
        RegisterIndex(opcode % 8)
    }

    pub fn from_opcode_first(opcode: u8) -> (r: Self)
        ensures
            r == Self::first_of(opcode),
            r.wf(),
    {
        RegisterIndex((opcode / 8) % 8)
    }

    pub fn from_opcode_second(opcode: u8) -> (r: Self)
        ensures
            r == Self::second_of(opcode),
            r.wf(),
    {
        RegisterIndex(opcode % 8)
    }

    pub fn value(&self) -> (r: u8)
        ensures
            r == self.0,
    {
        self.0
    }
}

/// A two-bit register pair field of an opcode: BC, DE, HL and SP.
#[derive(Clone, Copy, Debug, PartialEq, Eq)]
pub struct DoubleRegisterIndex(pub u8);

impl DoubleRegisterIndex {
    pub open spec fn wf(self) -> bool {
        self.0 < 4
    }

    /// The field in bits 5 and 4.
    pub open spec fn of(opcode: u8) -> Self {
        DoubleRegisterIndex((opcode / 16) % 4)
    }

    pub fn from_opcode(opcode: u8) -> (r: Self)
        ensures
            r == Self::of(opcode),
            r.wf(),
    {
        DoubleRegisterIndex((opcode / 16) % 4)
    }
}

/// Whether a flag records a carry out of an addition or a borrow into
/// a subtraction.
#[derive(Clone, Copy, Debug, PartialEq, Eq)]
pub enum FlagOp {
    Carry,
    Borrow,
}

/// The four flags. As a register they are the upper nibble of F, whose
/// lower nibble is always zero.
#[derive(Clone, Copy, Debug, PartialEq, Eq)]
pub struct Flags {
    pub zero: bool,
    pub negative: bool,
    pub half_carry: bool,
    pub carry: bool,
}

impl Flags {
    pub open spec fn none() -> Self {
        Flags { zero: false, negative: false, half_carry: false, carry: false }
    }

    /// The flags as register F: Z in bit 7, N in bit 6, H in bit 5 and
    /// C in bit 4.
    pub open spec fn byte(self) -> int {
        (if self.zero { 128int } else { 0 }) + (if self.negative { 64int } else { 0 }) + (
        if self.half_carry { 32int } else { 0 }) + (if self.carry { 16int } else { 0 })
    }

    /// The flags that a byte names; its lower nibble is dropped.
    pub open spec fn of_byte(value: u8) -> Self {
        Flags {
            zero: value >= 128,
            negative: (value / 64) % 2 == 1,
            half_carry: (value / 32) % 2 == 1,
            carry: (value / 16) % 2 == 1,
        }
    }

    /// Whether adding or subtracting two bytes, with the carry flag or
    /// without, carries out of bit 7 or borrows into it.
    pub open spec fn carry_u8(self, lhs: u8, rhs: u8, with_carry: bool, flag_op: FlagOp) -> bool {
        let carry: int = if with_carry && self.carry { 1 } else { 0 };
        match flag_op {
            FlagOp::Carry => lhs + rhs + carry > 0xFF,
            FlagOp::Borrow => lhs < rhs + carry,
        }
    }

    /// The same for bit 3.
    pub open spec fn half_carry_u8(self, lhs: u8, rhs: u8, with_carry: bool, flag_op: FlagOp) -> bool {
        let carry: int = if with_carry && self.carry { 1 } else { 0 };
        match flag_op {
            FlagOp::Carry => lhs % 16 + rhs % 16 + carry > 0xF,
            FlagOp::Borrow => lhs % 16 < rhs % 16 + carry,
        }
    }

    /// Whether adding or subtracting two words carries out of bit 15
    /// or borrows into it.
    pub open spec fn carry_u16(lhs: u16, rhs: u16, flag_op: FlagOp) -> bool {
        match flag_op {
            FlagOp::Carry => lhs + rhs > 0xFFFF,
            FlagOp::Borrow => lhs < rhs,
        }
    }

    /// The same for bit 11.
    pub open spec fn half_carry_u16(lhs: u16, rhs: u16, flag_op: FlagOp) -> bool {
        match flag_op {
            FlagOp::Carry => lhs % 0x1000 + rhs % 0x1000 > 0xFFF,
            FlagOp::Borrow => lhs % 0x1000 < rhs % 0x1000,
        }
    }

    pub fn new() -> (r: Self)
        ensures
            r == Self::none(),
    {
        Flags { zero: false, negative: false, half_carry: false, carry: false }
    }

    pub fn value(&self) -> (r: u8)
        ensures
            r as int == self.byte(),
            r % 16 == 0,
    {
        let z: u8 = if self.zero { 128 } else { 0 };
        let n: u8 = if self.negative { 64 } else { 0 };
        let h: u8 = if self.half_carry { 32 } else { 0 };
        let c: u8 = if self.carry { 16 } else { 0 };
        z + n + h + c
    }

    pub fn set_value(&mut self, value: u8)
        ensures
            *final(self) == Self::of_byte(value),
    {
        self.zero = value >= 128;
        self.negative = (value / 64) % 2 == 1;
        self.half_carry = (value / 32) % 2 == 1;
        self.carry = (value / 16) % 2 == 1;
    }

    pub fn update_carry_u8(&mut self, lhs: u8, rhs: u8, with_carry: bool, flag_op: FlagOp)
        ensures
            *final(self) == (Flags {
                carry: old(self).carry_u8(lhs, rhs, with_carry, flag_op),
                ..*old(self)
            }),
    {
        let carry: u16 = if with_carry && self.carry { 1 } else { 0 };
        self.carry = match flag_op {
            FlagOp::Carry => lhs as u16 + rhs as u16 + carry > 0xFF,
            FlagOp::Borrow => (lhs as u16) < rhs as u16 + carry,
        };
    }

    pub fn update_carry_u16(&mut self, lhs: u16, rhs: u16, flag_op: FlagOp)
        ensures
            *final(self) == (Flags { carry: Self::carry_u16(lhs, rhs, flag_op), ..*old(self) }),
    {
        self.carry = match flag_op {
            FlagOp::Carry => lhs as u32 + rhs as u32 > 0xFFFF,
            FlagOp::Borrow => lhs < rhs,
        };
    }

    pub fn update_half_carry_u8(&mut self, lhs: u8, rhs: u8, with_carry: bool, flag_op: FlagOp)
        ensures
            *final(self) == (Flags {
                half_carry: old(self).half_carry_u8(lhs, rhs, with_carry, flag_op),
                ..*old(self)
            }),
    {
        let carry: u8 = if with_carry && self.carry { 1 } else { 0 };
        self.half_carry = match flag_op {
            FlagOp::Carry => lhs % 16 + rhs % 16 + carry > 0xF,
            FlagOp::Borrow => lhs % 16 < rhs % 16 + carry,
        };
    }

    pub fn update_half_carry_u16(&mut self, lhs: u16, rhs: u16, flag_op: FlagOp)
        ensures
            *final(self) == (Flags {
                half_carry: Self::half_carry_u16(lhs, rhs, flag_op),
                ..*old(self)
            }),
    {
        self.half_carry = match flag_op {
            FlagOp::Carry => lhs % 0x1000 + rhs % 0x1000 > 0xFFF,
            FlagOp::Borrow => lhs % 0x1000 < rhs % 0x1000,
        };
    }

    pub fn update_zero(&mut self, value: u8)
        ensures
            *final(self) == (Flags { zero: value == 0, ..*old(self) }),
    {
        self.zero = value == 0;
    }

    pub fn zero(&self) -> (r: bool)
        ensures
            r == self.zero,
    {
        self.zero
    }

    pub fn negative(&self) -> (r: bool)
        ensures
            r == self.negative,
    {
        self.negative
    }

    pub fn set_negative(&mut self, set: bool)
        ensures
            *final(self) == (Flags { negative: set, ..*old(self) }),
    {
        self.negative = set;
    }

    pub fn half_carry(&self) -> (r: bool)
        ensures
            r == self.half_carry,
    {
        self.half_carry
    }

    pub fn set_half_carry(&mut self, set: bool)
        ensures
            *final(self) == (Flags { half_carry: set, ..*old(self) }),
    {
        self.half_carry = set;
    }

    pub fn carry(&self) -> (r: bool)
        ensures
            r == self.carry,
    {
        self.carry
    }

    pub fn set_carry(&mut self, set: bool)
        ensures
            *final(self) == (Flags { carry: set, ..*old(self) }),
    {
        self.carry = set;
    }

    pub fn clear(&mut self)
        ensures
            *final(self) == Self::none(),
    {
        *self = Flags::new();
    }

    /// Whatever the flags are, the lower nibble of F is zero, and a
    /// byte stored in F is read back without its lower nibble.
    pub proof fn lemma_low_nibble_is_zero(self, value: u8)
        ensures
            self.byte() % 16 == 0,
            0 <= self.byte() < 256,
            Self::of_byte(value).byte() == value - value % 16,
            Self::of_byte(self.byte() as u8) == self,
    {
        crate::gameboy::bits::lemma_byte_is_sum_of_bits(value);
    }
}

/// A word from its high and its low byte.
pub open spec fn word(high: u8, low: u8) -> u16 {
    (high * 256 + low) as u16
}

/// The registers of the processor.
#[derive(Clone, Copy, Debug, PartialEq, Eq)]
pub struct Registers {
    pub b: u8,
    pub c: u8,
    pub d: u8,
    pub e: u8,
    pub h: u8,
    pub l: u8,
    pub flags: Flags,
    pub a: u8,
    pub sp: u16,
    pub pc: u16,
    pub ime: bool,
}

impl Registers {
    /// The registers as the boot program finds them.
    pub open spec fn zeroed() -> Self {
        Registers {
            b: 0,
            c: 0,
            d: 0,
            e: 0,
            h: 0,
            l: 0,
            flags: Flags::none(),
            a: 0,
            sp: 0,
            pc: 0,
            ime: false,
        }
    }

    /// The registers as the boot program leaves them.
    pub open spec fn post_bootrom() -> Self {
        Registers {
            b: 0x00,
            c: 0x13,
            d: 0x00,
            e: 0xD8,
            h: 0x01,
            l: 0x4D,
            flags: Flags { zero: true, negative: false, half_carry: true, carry: true },
            a: 0x01,
            sp: 0xFFFE,
            pc: 0x100,
            ime: true,
        }
    }

    /// The register that a field names; field 6 names none and stands
    /// here for A.
    pub open spec fn reg(self, index: RegisterIndex) -> u8 {
        if index.0 == 0 {
            self.b
        } else if index.0 == 1 {
            self.c
        } else if index.0 == 2 {
            self.d
        } else if index.0 == 3 {
            self.e
        } else if index.0 == 4 {
            self.h
        } else if index.0 == 5 {
            self.l
        } else {
            self.a
        }
    }

    pub open spec fn with_reg(self, index: RegisterIndex, value: u8) -> Self {
        if index.0 == 0 {
            Registers { b: value, ..self }
        } else if index.0 == 1 {
            Registers { c: value, ..self }
        } else if index.0 == 2 {
            Registers { d: value, ..self }
        } else if index.0 == 3 {
            Registers { e: value, ..self }
        } else if index.0 == 4 {
            Registers { h: value, ..self }
        } else if index.0 == 5 {
            Registers { l: value, ..self }
        } else {
            Registers { a: value, ..self }
        }
    }

    /// The register pair that a field names.
    pub open spec fn pair(self, index: DoubleRegisterIndex) -> u16 {
        if index.0 == 0 {
            word(self.b, self.c)
        } else if index.0 == 1 {
            word(self.d, self.e)
        } else if index.0 == 2 {
            word(self.h, self.l)
        } else {
            self.sp
        }
    }

    pub open spec fn with_pair(self, index: DoubleRegisterIndex, value: u16) -> Self {
        let high = (value / 256) as u8;
        let low = (value % 256) as u8;
        if index.0 == 0 {
            Registers { b: high, c: low, ..self }
        } else if index.0 == 1 {
            Registers { d: high, e: low, ..self }
        } else if index.0 == 2 {
            Registers { h: high, l: low, ..self }
        } else {
            Registers { sp: value, ..self }
        }
    }

    pub open spec fn hl_word(self) -> u16 {
        word(self.h, self.l)
    }

    pub open spec fn with_hl(self, value: u16) -> Self {
        Registers { h: (value / 256) as u8, l: (value % 256) as u8, ..self }
    }

    pub open spec fn af_word(self) -> u16 {
        (self.a * 256 + self.flags.byte()) as u16
    }

    pub open spec fn with_af(self, value: u16) -> Self {
        Registers { a: (value / 256) as u8, flags: Flags::of_byte((value % 256) as u8), ..self }
    }

    pub fn new() -> (r: Self)
        ensures
            r == Self::zeroed(),
    {
        Registers {
            b: 0,
            c: 0,
            d: 0,
            e: 0,
            h: 0,
            l: 0,
            flags: Flags::new(),
            a: 0,
            sp: 0,
            pc: 0,
            ime: false,
        }
    }

    pub fn new_post_bootrom() -> (r: Self)
        ensures
            r == Self::post_bootrom(),
    {
        Registers {
            b: 0x00,
            c: 0x13,
            d: 0x00,
            e: 0xD8,
            h: 0x01,
            l: 0x4D,
            flags: Flags { zero: true, negative: false, half_carry: true, carry: true },
            a: 0x01,
            sp: 0xFFFE,
            pc: 0x100,
            ime: true,
        }
    }

    pub fn r(&self, index: RegisterIndex) -> (r: u8)
        requires
            index.wf(),
            !index.indirect(),
        ensures
            r == self.reg(index),
    {
        match index.0 {
            0 => self.b,
            1 => self.c,
            2 => self.d,
            3 => self.e,
            4 => self.h,
            5 => self.l,
            _ => self.a,
        }
    }

    pub fn set_r(&mut self, index: RegisterIndex, value: u8)
        requires
            index.wf(),
            !index.indirect(),
        ensures
            *final(self) == old(self).with_reg(index, value),
    {
        match index.0 {
            0 => self.b = value,
            1 => self.c = value,
            2 => self.d = value,
            3 => self.e = value,
            4 => self.h = value,
            5 => self.l = value,
            _ => self.a = value,
        }
    }

    pub fn rr(&self, index: DoubleRegisterIndex) -> (r: u16)
        requires
            index.wf(),
        ensures
            r == self.pair(index),
    {
        match index.0 {
            0 => self.b as u16 * 256 + self.c as u16,
            1 => self.d as u16 * 256 + self.e as u16,
            2 => self.h as u16 * 256 + self.l as u16,
            _ => self.sp,
        }
    }

    pub fn set_rr(&mut self, index: DoubleRegisterIndex, value: u16)
        requires
            index.wf(),
        ensures
            *final(self) == old(self).with_pair(index, value),
    {
        let high = (value / 256) as u8;
        let low = (value % 256) as u8;
        match index.0 {
            0 => {
                self.b = high;
                self.c = low;
            },
            1 => {
                self.d = high;
                self.e = low;
            },
            2 => {
                self.h = high;
                self.l = low;
            },
            _ => self.sp = value,
        }
    }

    pub fn hl(&self) -> (r: u16)
        ensures
            r == self.hl_word(),
    {
        self.h as u16 * 256 + self.l as u16
    }

    pub fn set_hl(&mut self, value: u16)
        ensures
            *final(self) == old(self).with_hl(value),
    {
        self.h = (value / 256) as u8;
        self.l = (value % 256) as u8;
    }

    pub fn af(&self) -> (r: u16)
        ensures
            r == self.af_word(),
            r % 16 == 0,
    {
        self.a as u16 * 256 + self.flags.value() as u16
    }

    pub fn set_af(&mut self, value: u16)
        ensures
            *final(self) == old(self).with_af(value),
    {
        self.a = (value / 256) as u8;
        let mut flags = self.flags;
        flags.set_value((value % 256) as u8);
        self.flags = flags;
    }
}

} // verus!
