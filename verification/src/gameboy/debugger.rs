//! The debugger's side of the machine: breakpoints, the commands of
//! the prompt and what each of them answers.

use super::cpu::registers::Registers;
use super::cpu::ExecutionState;
use super::{Gameboy, GameboyView};
use vstd::prelude::*;
use vstd::string::StringSliceAdditionalSpecFns;

verus! {

/// Breakpoints and whether the debugger was asked for.
#[derive(Clone, Debug, PartialEq, Eq)]
pub struct DebugStatus {
    pub breakpoints: Vec<u16>,
    pub should_break: bool,
}

/// A command of the debugger's prompt.
#[derive(Clone, Copy, Debug, PartialEq, Eq)]
pub enum DebugCommand {
    /// Set a breakpoint at an address.
    Breakpoint { address: u16 },
    /// Delete the breakpoint at an address.
    Delete { address: u16 },
    /// Show the byte at an address.
    Read { address: u16 },
    /// List the breakpoints.
    List,
    /// Show the registers.
    Registers,
    /// Take one step.
    Step,
    /// Leave the prompt.
    Continue,
}

/// What the prompt is to show after a command, and whether it is to
/// go on.
#[derive(Clone, Debug, PartialEq, Eq)]
pub enum DebugReply {
    /// Nothing to show.
    Done,
    /// The breakpoints.
    Breakpoints(Vec<u16>),
    /// The byte at an address.
    Value { address: u16, value: u8 },
    /// The registers, the interrupt registers and the state.
    State {
        registers: Registers,
        interrupt_enable: u8,
        interrupt_flags: u8,
        execution_state: ExecutionState,
    },
    /// A step was taken.
    Stepped,
    /// The prompt is left and the machine runs on.
    Resume,
}

/// An address that could not be read.
#[derive(Clone, Copy, Debug, PartialEq, Eq)]
pub struct InvalidAddress;

/// What a digit is worth in a number written to base 10 or 16.
pub open spec fn digit_value(byte: u8, hex: bool) -> Option<int> {
    if 0x30 <= byte <= 0x39 {
        Some(byte - 0x30)
    } else if hex && 0x61 <= byte <= 0x66 {
        Some(byte - 0x61 + 10)
    } else if hex && 0x41 <= byte <= 0x46 {
        Some(byte - 0x41 + 10)
    } else {
        None
    }
}

/// What a run of digits is worth, if all of them are digits.
pub open spec fn number_value(digits: Seq<u8>, hex: bool) -> Option<int>
    decreases digits.len(),
{
    if digits.len() == 0 {
        Some(0)
    } else {
        let front = number_value(digits.drop_last(), hex);
        let last = digit_value(digits.last(), hex);
        if front is Some && last is Some {
            Some(front->0 * (if hex { 16int } else { 10int }) + last->0)
        } else {
            None
        }
    }
}

/// Whether a text starts with `0x`.
pub open spec fn has_hex_prefix(text: Seq<u8>) -> bool {
    text.len() >= 2 && text[0] == 0x30 && text[1] == 0x78
}

/// Where the digits of an address start: after `0x`, if the text
/// starts with that, and after one `+`, if one follows.
pub open spec fn digits_start(text: Seq<u8>) -> int {
    let prefix: int = if has_hex_prefix(text) { 2 } else { 0 };
    if text.len() > prefix && text[prefix] == 0x2B {
        prefix + 1
    } else {
        prefix
    }
}

/// The address that a text names: a decimal number, or a hexadecimal
/// one after `0x`, of at least one digit and at most 65535. One `+`
/// may stand before the digits.
pub open spec fn address_of(text: Seq<u8>) -> Option<u16> {
    let hex = has_hex_prefix(text);
    let digits = text.skip(digits_start(text));
    let value = number_value(digits, hex);
    if digits.len() > 0 && value is Some && value->0 <= 0xFFFF {
        Some(value->0 as u16)
    } else {
        None
    }
}

fn digit(byte: u8, hex: bool) -> (r: Option<u32>)
    ensures
        r is Some <==> digit_value(byte, hex) is Some,
        r matches Some(v) ==> digit_value(byte, hex) == Some(v as int) && v < 16,
{
    if 0x30 <= byte && byte <= 0x39 {
        Some((byte - 0x30) as u32)
    } else if hex && 0x61 <= byte && byte <= 0x66 {
        Some((byte - 0x61 + 10) as u32)
    } else if hex && 0x41 <= byte && byte <= 0x46 {
        Some((byte - 0x41 + 10) as u32)
    } else {
        None
    }
}

/// Reads an address as the debugger's prompt takes it.
pub fn parse_address(address: &str) -> (r: Result<u16, InvalidAddress>)
    ensures
        r is Ok <==> address_of(address.spec_bytes()) is Some,
        r matches Ok(value) ==> address_of(address.spec_bytes()) == Some(value),
{
    let text = address.as_bytes();
    let hex = text.len() >= 2 && text[0] == 0x30 && text[1] == 0x78;
    let prefix: usize = if hex { 2 } else { 0 };
    let start: usize = if text.len() > prefix && text[prefix] == 0x2B { prefix + 1 } else { prefix };
    if text.len() == start {
        return Err(InvalidAddress);
    }
    let ghost digits = text@.skip(start as int);
    let mut value: u32 = 0;
    let mut i: usize = start;
    proof {
        assert(digits.take(0) =~= Seq::<u8>::empty());
    }
    while i < text.len()
        invariant
            start <= i <= text.len(),
            text@ == address.spec_bytes(),
            hex == has_hex_prefix(text@),
            start == digits_start(text@),
            start < text.len(),
            digits == text@.skip(start as int),
            value <= 0xFFFF,
            number_value(digits.take(i - start), hex) == Some(value as int),
        decreases text.len() - i,
    {
        proof {
            assert(digits.take(i - start + 1).drop_last() =~= digits.take(i - start));
            assert(digits.take(i - start + 1).last() == text@[i as int]);
        }
        let next = match digit(text[i], hex) {
            Some(d) => if hex { value * 16 + d } else { value * 10 + d },
            None => {
                proof {
                    assert(digits[i - start] == text@[i as int]);
                    lemma_bad_digit(digits, hex, i - start);
                }
                return Err(InvalidAddress);
            },
        };
        if next > 0xFFFF {
            proof {
                assert(number_value(digits.take(i - start + 1), hex) == Some(next as int));
                lemma_too_large(digits, hex, i - start + 1);
            }
            return Err(InvalidAddress);
        }
        assert(number_value(digits.take(i - start + 1), hex) == Some(next as int));
        value = next;
        i += 1;
    }
    proof {
        assert(digits.take(i - start) =~= digits);
    }
    Ok(value as u16)
}

/// A run with something that is no digit is worth nothing.
proof fn lemma_bad_digit(digits: Seq<u8>, hex: bool, at: int)
    requires
        0 <= at < digits.len(),
        digit_value(digits[at], hex) is None,
    ensures
        number_value(digits, hex) is None,
    decreases digits.len(),
{
    if at < digits.len() - 1 {
        lemma_bad_digit(digits.drop_last(), hex, at);
    }
}

/// A run whose start is worth more than 65535 is not worth less.
proof fn lemma_too_large(digits: Seq<u8>, hex: bool, upto: int)
    requires
        0 <= upto <= digits.len(),
        number_value(digits.take(upto), hex) is Some,
        number_value(digits.take(upto), hex)->0 > 0xFFFF,
    ensures
        number_value(digits, hex) is Some ==> number_value(digits, hex)->0 > 0xFFFF,
    decreases digits.len(),
{
    if upto == digits.len() {
        assert(digits.take(upto) =~= digits);
    } else {
        assert(digits.drop_last().take(upto) =~= digits.take(upto));
        lemma_too_large(digits.drop_last(), hex, upto);
    }
}

impl GameboyView {
    /// Whether the debugger is due before the next step: it was asked
    /// for, or the program counter is at a breakpoint.
    pub open spec fn debugger_due(self) -> bool {
        self.should_break || self.breakpoints.contains(self.cpu.registers.pc)
    }

    /// The breakpoints after a command.
    pub open spec fn breakpoints_after(self, command: DebugCommand) -> Seq<u16> {
        match command {
            DebugCommand::Breakpoint { address } => if self.breakpoints.contains(address) {
                self.breakpoints
            } else {
                self.breakpoints.push(address)
            },
            DebugCommand::Delete { address } => self.breakpoints.filter(|a: u16| a != address),
            _ => self.breakpoints,
        }
    }
}

impl Gameboy {
    fn has_breakpoint(&self, address: u16) -> (r: bool)
        ensures
            r == self@.breakpoints.contains(address),
    {
        let mut i: usize = 0;
        while i < self.debug_status.breakpoints.len()
            invariant
                i <= self.debug_status.breakpoints@.len(),
                forall|j: int| 0 <= j < i ==> self.debug_status.breakpoints@[j] != address,
            decreases self.debug_status.breakpoints.len() - i,
        {
            if self.debug_status.breakpoints[i] == address {
                return true;
            }
            i += 1;
        }
        false
    }

    /// Whether the debugger is due before the next step.
    pub fn debugger_due(&self) -> (r: bool)
        ensures
            r == self@.debugger_due(),
    {
        self.debug_status.should_break || self.has_breakpoint(self.cpu.registers.pc)
    }

    /// Takes note that the debugger was entered.
    pub fn debugger_entered(&mut self)
        ensures
            final(self)@ == (GameboyView { should_break: false, ..old(self)@ }),
            old(self).wf() ==> final(self).wf(),
    {
        self.debug_status.should_break = false;
    }

    /// The byte at `address`, read without a tick of the bus.
    pub fn peek(&self, address: u16) -> (r: u8)
        requires
            self.wf(),
        ensures
            r == self@.cpu.mmu.read(address),
    {
        self.cpu.mmu.read_byte_no_conflict(address)
    }

    fn delete_breakpoint(&mut self, address: u16)
        ensures
            final(self).debug_status.breakpoints@ == old(self).debug_status.breakpoints@.filter(
                |a: u16| a != address,
            ),
            final(self).cpu == old(self).cpu,
            final(self).debug_status.should_break == old(self).debug_status.should_break,
    {
        let ghost keep = |a: u16| a != address;
        let mut kept: Vec<u16> = Vec::new();
        let mut i: usize = 0;
        proof {
            assert(self.debug_status.breakpoints@.take(0) =~= Seq::<u16>::empty());
            assert(Seq::<u16>::empty().filter(keep) =~= Seq::<u16>::empty()) by {
                reveal(Seq::filter);
            }
        }
        while i < self.debug_status.breakpoints.len()
            invariant
                i <= self.debug_status.breakpoints@.len(),
                *self == *old(self),
                keep == (|a: u16| a != address),
                kept@ == self.debug_status.breakpoints@.take(i as int).filter(keep),
            decreases self.debug_status.breakpoints.len() - i,
        {
            let a = self.debug_status.breakpoints[i];
            proof {
                let all = self.debug_status.breakpoints@;
                assert(all.take(i + 1) =~= all.take(i as int).push(a));
                all.take(i as int).lemma_filter_push(a, keep);
            }
            if a != address {
                kept.push(a);
            }
            i += 1;
        }
        proof {
            let all = self.debug_status.breakpoints@;
            assert(all.take(i as int) =~= all);
        }
        self.debug_status.breakpoints = kept;
    }

    /// Carries out a command of the debugger's prompt and says what
    /// the prompt is to show.
    pub fn debug_command(&mut self, command: DebugCommand) -> (r: DebugReply)
        requires
            old(self).wf(),
        ensures
            final(self).wf(),
            final(self)@.breakpoints == old(self)@.breakpoints_after(command),
            final(self)@.should_break == old(self)@.should_break,
            final(self)@.cpu == (if command is Step {
                old(self)@.cpu.stepped()
            } else {
                old(self)@.cpu
            }),
            match command {
                DebugCommand::Breakpoint { .. } | DebugCommand::Delete { .. } => r is Done,
                DebugCommand::Read { address } => r == (DebugReply::Value {
                    address,
                    value: old(self)@.cpu.mmu.read(address),
                }),
                DebugCommand::List => r matches DebugReply::Breakpoints(list) && list@ == old(
                    self,
                )@.breakpoints,
                DebugCommand::Registers => r == (DebugReply::State {
                    registers: old(self).cpu.registers,
                    interrupt_enable: old(self).cpu.mmu.interrupt_enable.low_bits() as u8,
                    interrupt_flags: old(self).cpu.mmu.interrupt_flags.low_bits() as u8,
                    execution_state: old(self).cpu.execution_state,
                }),
                DebugCommand::Step => r is Stepped,
                DebugCommand::Continue => r is Resume,
            },
    {
        match command {
            DebugCommand::Breakpoint { address } => {
                if !self.has_breakpoint(address) {
                    self.debug_status.breakpoints.push(address);
                }
                DebugReply::Done
            },
            DebugCommand::Delete { address } => {
                self.delete_breakpoint(address);
                DebugReply::Done
            },
            DebugCommand::Read { address } => DebugReply::Value { address, value: self.peek(address) },
            DebugCommand::List => {
                let list = self.debug_status.breakpoints.clone();
                assert(list@ =~= self.debug_status.breakpoints@);
                DebugReply::Breakpoints(list)
            },
            DebugCommand::Registers => DebugReply::State {
                registers: self.cpu.registers,
                interrupt_enable: self.cpu.mmu.interrupt_enable.bits(),
                interrupt_flags: self.cpu.mmu.interrupt_flags.bits(),
                execution_state: self.cpu.execution_state,
            },
            DebugCommand::Step => {
                self.cpu.next_instruction();
                DebugReply::Stepped
            },
            DebugCommand::Continue => DebugReply::Resume,
        }
    }
}

} // verus!
