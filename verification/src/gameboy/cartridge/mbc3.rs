//! The third mapper: 128 ROM banks, four RAM banks and a real-time
//! clock whose registers share the RAM window.

use super::{
    byte_at, read_image, with_byte_at, write_image, MapperOps, HIGH_BANK_START, RAM_BANK_SIZE,
    ROM_BANK_SIZE,
};
use crate::error::Error;
use vstd::prelude::*;

verus! {

/// Master cycles per second.
pub const CYCLES_PER_SECOND: u32 = 4_194_304;

/// Length of the clock data that follows the RAM in a save.
pub const RTC_DATA_SIZE: usize = 48;

pub const RTC_SECONDS_REG: u8 = 0x08;

pub const RTC_MINUTES_REG: u8 = 0x09;

pub const RTC_HOURS_REG: u8 = 0x0A;

pub const RTC_DAY_LOW_REG: u8 = 0x0B;

pub const RTC_DAY_HIGH_REG: u8 = 0x0C;

pub const MAX_RAM_BANK_SELECT: u8 = 3;

/// The clock registers.
#[derive(Clone, Copy, Debug, PartialEq, Eq)]
pub struct RtcRegisters {
    pub seconds: u8,
    pub minutes: u8,
    pub hours: u8,
    pub days: u16,
    pub carry: bool,
    pub halt: bool,
}

impl RtcRegisters {
    /// The registers hold as many bits as the chip has.
    pub open spec fn wf(self) -> bool {
        self.seconds < 64 && self.minutes < 64 && self.hours < 32 && self.days < 512
    }

    /// The registers show a time of day.
    pub open spec fn in_range(self) -> bool {
        self.seconds < 60 && self.minutes < 60 && self.hours < 24 && self.days < 512
    }

    pub open spec fn zero() -> Self {
        RtcRegisters { seconds: 0, minutes: 0, hours: 0, days: 0, carry: false, halt: false }
    }

    /// The upper day register: day bit 8 in bit 0, halt in bit 6, the
    /// day overflow in bit 7.
    pub open spec fn days_high(self) -> int {
        (self.days / 256) % 2 + (if self.halt { 64int } else { 0 }) + (if self.carry {
            128int
        } else {
            0
        })
    }

    pub open spec fn with_days_high(self, value: u8) -> Self {
        RtcRegisters {
            days: (self.days % 256 + (value % 2) * 256) as u16,
            carry: value >= 128,
            halt: (value / 64) % 2 == 1,
            ..self
        }
    }

    /// The registers one second later. A register that was set past
    /// its range runs on to the end of its bits and restarts without a
    /// carry; the day counter restarts past 511 and sets the overflow.
    pub open spec fn second_later(self) -> Self {
        if self.seconds + 1 == 60 {
            if self.minutes + 1 == 60 {
                if self.hours + 1 == 24 {
                    if self.days + 1 > 511 {
                        RtcRegisters { seconds: 0, minutes: 0, hours: 0, days: 0, carry: true, ..self }
                    } else {
                        RtcRegisters {
                            seconds: 0,
                            minutes: 0,
                            hours: 0,
                            days: (self.days + 1) as u16,
                            ..self
                        }
                    }
                } else {
                    RtcRegisters {
                        seconds: 0,
                        minutes: 0,
                        hours: if self.hours + 1 == 32 { 0 } else { (self.hours + 1) as u8 },
                        ..self
                    }
                }
            } else {
                RtcRegisters {
                    seconds: 0,
                    minutes: if self.minutes + 1 == 64 { 0 } else { (self.minutes + 1) as u8 },
                    ..self
                }
            }
        } else {
            RtcRegisters {
                seconds: if self.seconds + 1 == 64 { 0 } else { (self.seconds + 1) as u8 },
                ..self
            }
        }
    }

    /// Seconds since midnight that the registers show.
    pub open spec fn time_of_day(self) -> int {
        self.seconds + 60 * self.minutes + 3600 * self.hours
    }

    /// The registers `elapsed` seconds later, by the calendar: whole
    /// days go to the day counter, which counts modulo 512 and sets the
    /// overflow when it wraps.
    pub open spec fn later(self, elapsed: u64) -> Self {
        let clock = self.time_of_day() + elapsed % 86400;
        let days = self.days + elapsed / 86400 + clock / 86400;
        RtcRegisters {
            seconds: (clock % 60) as u8,
            minutes: ((clock / 60) % 60) as u8,
            hours: ((clock / 3600) % 24) as u8,
            days: (days % 512) as u16,
            carry: self.carry || days >= 512,
            halt: self.halt,
        }
    }

    /// The registers as twenty bytes of a save: seconds, minutes,
    /// hours, lower and upper day register, each as four bytes with
    /// the lowest first.
    pub open spec fn bytes(self) -> Seq<u8> {
        seq![
            self.seconds,
            0u8,
            0u8,
            0u8,
            self.minutes,
            0u8,
            0u8,
            0u8,
            self.hours,
            0u8,
            0u8,
            0u8,
            (self.days % 256) as u8,
            0u8,
            0u8,
            0u8,
            self.days_high() as u8,
            0u8,
            0u8,
            0u8,
        ]
    }

    /// The registers that twenty bytes of a save hold from offset
    /// `at` on. Of each value the bits that the chip has are kept.
    pub open spec fn parsed(input: Seq<u8>, at: int) -> Self {
        RtcRegisters {
            seconds: input[at] % 64,
            minutes: input[at + 4] % 64,
            hours: input[at + 8] % 32,
            days: input[at + 12] as u16,
            carry: false,
            halt: false,
        }.with_days_high(input[at + 16])
    }

    pub fn new() -> (r: Self)
        ensures
            r == Self::zero(),
    {
        RtcRegisters { seconds: 0, minutes: 0, hours: 0, days: 0, carry: false, halt: false }
    }

    pub fn days_high_byte(&self) -> (r: u8)
        ensures
            r as int == self.days_high(),
    {
        let day: u8 = ((self.days / 256) % 2) as u8;
        let halt: u8 = if self.halt { 64 } else { 0 };
        let carry: u8 = if self.carry { 128 } else { 0 };
        day + halt + carry
    }

    pub fn set_days_high_byte(&mut self, value: u8)
        ensures
            *final(self) == old(self).with_days_high(value),
            old(self).wf() ==> final(self).wf(),
    {
        self.days = self.days % 256 + (value % 2) as u16 * 256;
        self.carry = value >= 128;
        self.halt = (value / 64) % 2 == 1;
    }

    /// Moves the registers on by one second.
    pub fn tick_second(&mut self)
        requires
            old(self).wf(),
        ensures
            *final(self) == old(self).second_later(),
            final(self).wf(),
    {
        self.seconds += 1;
        if self.seconds == 60 {
            self.seconds = 0;
            self.minutes += 1;
            if self.minutes == 60 {
                self.minutes = 0;
                self.hours += 1;
                if self.hours == 24 {
                    self.hours = 0;
                    self.days += 1;
                    if self.days > 511 {
                        self.days = 0;
                        self.carry = true;
                    }
                } else if self.hours == 32 {
                    self.hours = 0;
                }
            } else if self.minutes == 64 {
                self.minutes = 0;
            }
        } else if self.seconds == 64 {
            self.seconds = 0;
        }
    }

    /// Moves the registers on by `elapsed` seconds.
    pub fn advance(&mut self, elapsed: u64)
        requires
            old(self).wf(),
        ensures
            *final(self) == old(self).later(elapsed),
            final(self).wf(),
    {
        let clock: u64 = self.seconds as u64 + 60 * self.minutes as u64 + 3600 * self.hours as u64
            + elapsed % 86400;
        let days: u64 = self.days as u64 + elapsed / 86400 + clock / 86400;
        self.seconds = (clock % 60) as u8;
        self.minutes = ((clock / 60) % 60) as u8;
        self.hours = ((clock / 3600) % 24) as u8;
        self.days = (days % 512) as u16;
        self.carry = self.carry || days >= 512;
    }

    /// Reads the registers from twenty bytes of a save.
    pub fn parse(input: &[u8], at: usize) -> (r: Self)
        requires
            at + 20 <= input@.len(),
        ensures
            r == Self::parsed(input@, at as int),
            r.wf(),
    {
        let mut r = RtcRegisters {
            seconds: input[at] % 64,
            minutes: input[at + 4] % 64,
            hours: input[at + 8] % 32,
            days: input[at + 12] as u16,
            carry: false,
            halt: false,
        };
        r.set_days_high_byte(input[at + 16]);
        r
    }

    /// Appends the registers to a save as twenty bytes.
    pub fn serialize(&self, out: &mut Vec<u8>)
        requires
            self.wf(),
        ensures
            final(out)@ == old(out)@ + self.bytes(),
    {
        let values: [u8; 5] = [
            self.seconds,
            self.minutes,
            self.hours,
            (self.days % 256) as u8,
            self.days_high_byte(),
        ];
        let mut i: usize = 0;
        while i < 5
            invariant
                i <= 5,
                self.wf(),
                values[0] == self.seconds,
                values[1] == self.minutes,
                values[2] == self.hours,
                values[3] == (self.days % 256) as u8,
                values[4] == self.days_high() as u8,
                out@ == old(out)@ + self.bytes().take(4 * i as int),
            decreases 5 - i,
        {
            out.push(values[i]);
            out.push(0);
            out.push(0);
            out.push(0);
            i += 1;
            assert(out@ =~= old(out)@ + self.bytes().take(4 * i as int));
        }
        assert(self.bytes().take(20) =~= self.bytes());
    }

    /// Registers written to a save are read back as they were.
    pub proof fn lemma_round_trip(self)
        requires
            self.wf(),
        ensures
            Self::parsed(self.bytes(), 0) == self,
    {
    }

    /// For registers that show a time of day, one second by the
    /// calendar is one step of the clock.
    pub proof fn lemma_later_one_is_second_later(self)
        requires
            self.in_range(),
        ensures
            self.later(1) == self.second_later(),
    {
    }
}

/// The number that eight bytes from offset `at` on spell, lowest
/// first.
pub open spec fn le_u64_at(input: Seq<u8>, at: int) -> int {
    input[at] + input[at + 1] * 0x100 + input[at + 2] * 0x1_0000 + input[at + 3] * 0x100_0000
        + input[at + 4] * 0x1_0000_0000 + input[at + 5] * 0x100_0000_0000 + input[at + 6]
        * 0x1_0000_0000_0000 + input[at + 7] * 0x100_0000_0000_0000
}

/// A number as eight bytes, lowest first.
pub open spec fn le_u64_bytes(value: u64) -> Seq<u8> {
    seq![
        (value % 256) as u8,
        ((value / 0x100) % 256) as u8,
        ((value / 0x1_0000) % 256) as u8,
        ((value / 0x100_0000) % 256) as u8,
        ((value / 0x1_0000_0000) % 256) as u8,
        ((value / 0x100_0000_0000) % 256) as u8,
        ((value / 0x1_0000_0000_0000) % 256) as u8,
        ((value / 0x100_0000_0000_0000) % 256) as u8,
    ]
}

/// Reads a number from eight bytes, lowest first.
pub fn read_le_u64(input: &[u8], at: usize) -> (r: u64)
    requires
        at + 8 <= input@.len(),
    ensures
        r as int == le_u64_at(input@, at as int),
{
    input[at] as u64 + input[at + 1] as u64 * 0x100 + input[at + 2] as u64 * 0x1_0000 + input[at
        + 3] as u64 * 0x100_0000 + input[at + 4] as u64 * 0x1_0000_0000 + input[at + 5] as u64
        * 0x100_0000_0000 + input[at + 6] as u64 * 0x1_0000_0000_0000 + input[at + 7] as u64
        * 0x100_0000_0000_0000
}

/// Appends a number as eight bytes, lowest first.
pub fn write_le_u64(out: &mut Vec<u8>, value: u64)
    ensures
        final(out)@ == old(out)@ + le_u64_bytes(value),
{
    out.push((value % 256) as u8);
    out.push(((value / 0x100) % 256) as u8);
    out.push(((value / 0x1_0000) % 256) as u8);
    out.push(((value / 0x100_0000) % 256) as u8);
    out.push(((value / 0x1_0000_0000) % 256) as u8);
    out.push(((value / 0x100_0000_0000) % 256) as u8);
    out.push(((value / 0x1_0000_0000_0000) % 256) as u8);
    out.push(((value / 0x100_0000_0000_0000) % 256) as u8);
    assert(out@ =~= old(out)@ + le_u64_bytes(value));
}

/// A number written as eight bytes is read back as it was.
pub proof fn lemma_le_u64_round_trip(value: u64)
    ensures
        le_u64_at(le_u64_bytes(value), 0) == value,
{
    assert(value == (value % 256) + ((value / 0x100) % 256) * 0x100 + ((value / 0x1_0000) % 256)
        * 0x1_0000 + ((value / 0x100_0000) % 256) * 0x100_0000 + ((value / 0x1_0000_0000) % 256)
        * 0x1_0000_0000 + ((value / 0x100_0000_0000) % 256) * 0x100_0000_0000 + ((value
        / 0x1_0000_0000_0000) % 256) * 0x1_0000_0000_0000 + ((value / 0x100_0000_0000_0000) % 256)
        * 0x100_0000_0000_0000) by (bit_vector);
}

/// A point in time by the system clock, of which nothing is known
/// here.
#[verifier::external_type_specification]
#[verifier::external_body]
pub struct ExSystemTime(std::time::SystemTime);

/// What `SystemTime::duration_since` hands back for a time before the
/// one it is measured from.
#[verifier::external_type_specification]
#[verifier::external_body]
pub struct ExSystemTimeError(std::time::SystemTimeError);

/// The time by the system clock. Wraps `SystemTime::now`; nothing is
/// claimed of what it returns.
#[verifier::external_body]
fn clock_now() -> std::time::SystemTime {
    std::time::SystemTime::now()
}

/// The span from the start of 1970 to `time`, or the error for a time
/// before that. Wraps `SystemTime::duration_since`; nothing is claimed
/// of what it returns.
#[verifier::external_body]
fn since_epoch(time: &std::time::SystemTime) -> Result<
    std::time::Duration,
    std::time::SystemTimeError,
> {
    time.duration_since(std::time::UNIX_EPOCH)
}

/// The whole seconds of a span. Wraps `Duration::as_secs`; nothing is
/// claimed of what it returns.
#[verifier::external_body]
fn whole_seconds(span: &std::time::Duration) -> u64 {
    span.as_secs()
}

/// The system clock in seconds since the start of 1970. A clock that
/// stands before 1970 counts as standing at its start.
pub(crate) fn system_time() -> u64 {
    let now = clock_now();
    match since_epoch(&now) {
        Ok(span) => whole_seconds(&span),
        Err(_) => 0,
    }
}

#[derive(Clone, Copy, Debug, PartialEq, Eq)]
pub struct Mbc3 {
    pub has_rtc: bool,
    pub has_ram: bool,
    pub has_battery: bool,
    pub rom_bank: u8,
    pub ram_bank_rtc_select: u8,
    pub ram_rtc_enabled: bool,
    pub current_time: RtcRegisters,
    pub latched_time: RtcRegisters,
    pub latch_toggle: bool,
    pub cycles: u32,
}

impl Mbc3 {
    pub open spec fn fresh(has_rtc: bool, has_ram: bool, has_battery: bool) -> Self {
        Mbc3 {
            has_rtc,
            has_ram,
            has_battery,
            rom_bank: 1,
            ram_bank_rtc_select: 0,
            ram_rtc_enabled: false,
            current_time: RtcRegisters::zero(),
            latched_time: RtcRegisters::zero(),
            latch_toggle: false,
            cycles: 0,
        }
    }

    /// Whether the RAM window shows RAM.
    pub open spec fn ram_selected(self) -> bool {
        self.ram_rtc_enabled && self.has_ram && self.ram_bank_rtc_select <= MAX_RAM_BANK_SELECT
    }

    /// Whether the RAM window shows a clock register.
    pub open spec fn rtc_selected(self) -> bool {
        self.ram_rtc_enabled && self.has_rtc && RTC_SECONDS_REG <= self.ram_bank_rtc_select
            <= RTC_DAY_HIGH_REG
    }

    pub open spec fn ram_offset(self, address: u16) -> int {
        address + self.ram_bank_rtc_select * RAM_BANK_SIZE
    }

    /// The selected register of the latched time.
    pub open spec fn latched_value(self) -> int {
        if self.ram_bank_rtc_select == RTC_SECONDS_REG {
            self.latched_time.seconds as int
        } else if self.ram_bank_rtc_select == RTC_MINUTES_REG {
            self.latched_time.minutes as int
        } else if self.ram_bank_rtc_select == RTC_HOURS_REG {
            self.latched_time.hours as int
        } else if self.ram_bank_rtc_select == RTC_DAY_LOW_REG {
            self.latched_time.days as int % 256
        } else {
            self.latched_time.days_high()
        }
    }

    /// The running time after `value` was written to the selected
    /// register.
    pub open spec fn time_written(self, value: u8) -> RtcRegisters {
        let time = self.current_time;
        if self.ram_bank_rtc_select == RTC_SECONDS_REG {
            RtcRegisters { seconds: value % 64, ..time }
        } else if self.ram_bank_rtc_select == RTC_MINUTES_REG {
            RtcRegisters { minutes: value % 64, ..time }
        } else if self.ram_bank_rtc_select == RTC_HOURS_REG {
            RtcRegisters { hours: value % 32, ..time }
        } else if self.ram_bank_rtc_select == RTC_DAY_LOW_REG {
            RtcRegisters { days: ((time.days / 256) * 256 + value) as u16, ..time }
        } else {
            time.with_days_high(value)
        }
    }

    /// The clock data of a save made at time `now`: the running time,
    /// the latched time, and `now` as eight bytes.
    pub open spec fn rtc_bytes(self, now: u64) -> Seq<u8> {
        self.current_time.bytes() + self.latched_time.bytes() + le_u64_bytes(now)
    }

    /// The mapper after the clock data of a save was loaded at time
    /// `now`: both times are taken from the data, and a running clock
    /// is moved on by the seconds that passed since the save.
    pub open spec fn with_rtc_data(self, rtc_data: Seq<u8>, now: u64) -> Self {
        let current = RtcRegisters::parsed(rtc_data, 0);
        let saved_at = le_u64_at(rtc_data, 40);
        Mbc3 {
            current_time: if now > saved_at && !current.halt {
                current.later((now - saved_at) as u64)
            } else {
                current
            },
            latched_time: RtcRegisters::parsed(rtc_data, 20),
            ..self
        }
    }

    pub fn new(has_rtc: bool, has_ram: bool, has_battery: bool) -> (r: Self)
        ensures
            r == Self::fresh(has_rtc, has_ram, has_battery),
            r.wf(),
    {
        Mbc3 {
            has_rtc,
            has_ram,
            has_battery,
            rom_bank: 1,
            ram_bank_rtc_select: 0,
            ram_rtc_enabled: false,
            current_time: RtcRegisters::new(),
            latched_time: RtcRegisters::new(),
            latch_toggle: false,
            cycles: 0,
        }
    }

    pub fn has_rtc(&self) -> (r: bool)
        ensures
            r == self.has_rtc,
    {
        self.has_rtc
    }

    /// Loads the clock data of a save, taking `now` as the current
    /// time in seconds since 1970. A mapper without a clock takes
    /// nothing; data shorter than 48 bytes is refused.
    pub fn set_rtc_data_at(&mut self, rtc_data: &[u8], now: u64) -> (r: Result<(), Error>)
        requires
            old(self).wf(),
        ensures
            final(self).wf(),
            r is Err <==> old(self).has_rtc && rtc_data@.len() < RTC_DATA_SIZE,
            r is Err ==> r == Err::<(), Error>(Error::InvalidRtcData) && *final(self) == *old(self),
            r is Ok && !old(self).has_rtc ==> *final(self) == *old(self),
            r is Ok && old(self).has_rtc ==> *final(self) == old(self).with_rtc_data(rtc_data@, now),
    {
        if !self.has_rtc {
            return Ok(());
        }
        if rtc_data.len() < RTC_DATA_SIZE {
            return Err(Error::InvalidRtcData);
        }
        let mut current = RtcRegisters::parse(rtc_data, 0);
        let latched = RtcRegisters::parse(rtc_data, 20);
        let saved_at = read_le_u64(rtc_data, 40);
        if now > saved_at && !current.halt {
            current.advance(now - saved_at);
        }
        self.current_time = current;
        self.latched_time = latched;
        Ok(())
    }

    /// Loads the clock data of a save and moves a running clock on to
    /// the system's time.
    pub fn set_rtc_data(&mut self, rtc_data: &[u8]) -> (r: Result<(), Error>)
        requires
            old(self).wf(),
        ensures
            final(self).wf(),
            r is Err <==> old(self).has_rtc && rtc_data@.len() < RTC_DATA_SIZE,
            r is Err ==> r == Err::<(), Error>(Error::InvalidRtcData) && *final(self) == *old(self),
            r is Ok && !old(self).has_rtc ==> *final(self) == *old(self),
            r is Ok && old(self).has_rtc ==> exists|now: u64|
                *final(self) == old(self).with_rtc_data(rtc_data@, now),
    {
        let now = system_time();
        self.set_rtc_data_at(rtc_data, now)
    }

    /// The clock data for a save made at time `now`, for a mapper with
    /// a clock.
    pub fn rtc_data_at(&self, now: u64) -> (r: Option<Vec<u8>>)
        requires
            self.wf(),
        ensures
            r is Some <==> self.has_rtc,
            r matches Some(data) ==> data@ == self.rtc_bytes(now),
    {
        if !self.has_rtc {
            return None;
        }
        let mut data: Vec<u8> = Vec::new();
        self.current_time.serialize(&mut data);
        self.latched_time.serialize(&mut data);
        write_le_u64(&mut data, now);
        assert(data@ =~= self.rtc_bytes(now));
        Some(data)
    }

    /// The clock data for a save made now, by the system's time.
    pub fn rtc_data(&self) -> (r: Option<Vec<u8>>)
        requires
            self.wf(),
        ensures
            r is Some <==> self.has_rtc,
            r matches Some(data) ==> exists|now: u64| data@ == self.rtc_bytes(now),
    {
        let now = system_time();
        self.rtc_data_at(now)
    }
}

impl MapperOps for Mbc3 {
    open spec fn wf(&self) -> bool {
        &&& self.cycles < CYCLES_PER_SECOND
        &&& self.cycles % 4 == 0
        &&& self.current_time.wf()
        &&& self.latched_time.wf()
    }

    open spec fn rom_offset(&self, address: u16) -> int {
        if address < HIGH_BANK_START {
            address as int
        } else {
            address - ROM_BANK_SIZE + self.rom_bank * ROM_BANK_SIZE
        }
    }

    /// Writes below 0x2000 switch RAM and clock on where the low
    /// nibble is ten; up to 0x3FFF they select the ROM bank by seven
    /// bits, zero meaning one; up to 0x5FFF the RAM bank or clock
    /// register; up to 0x7FFF a one after a zero latches the time.
    open spec fn after_write_rom(self, address: u16, value: u8) -> Self {
        if address < 0x2000 {
            Mbc3 { ram_rtc_enabled: value % 16 == 0xA, ..self }
        } else if address < 0x4000 {
            Mbc3 { rom_bank: if value % 128 == 0 { 1 } else { value % 128 }, ..self }
        } else if address < 0x6000 {
            Mbc3 { ram_bank_rtc_select: value % 16, ..self }
        } else if address < 0x8000 {
            Mbc3 {
                latched_time: if !self.latch_toggle && value % 2 == 1 {
                    self.current_time
                } else {
                    self.latched_time
                },
                latch_toggle: value % 2 == 1,
                ..self
            }
        } else {
            self
        }
    }

    open spec fn ram_value(&self, ram: Seq<u8>, address: u16) -> u8 {
        if self.ram_selected() {
            byte_at(ram, self.ram_offset(address))
        } else if self.rtc_selected() {
            self.latched_value() as u8
        } else {
            0xFF
        }
    }

    open spec fn ram_after_write(&self, ram: Seq<u8>, address: u16, value: u8) -> Seq<u8> {
        if self.ram_selected() {
            with_byte_at(ram, self.ram_offset(address), value)
        } else {
            ram
        }
    }

    open spec fn after_write_ram(self, address: u16, value: u8) -> Self {
        if self.rtc_selected() {
            Mbc3 { current_time: self.time_written(value), ..self }
        } else {
            self
        }
    }

    /// A mapper without a clock, or with the clock halted, holds its
    /// cycle count at zero. Else four master cycles are counted, and a
    /// full second of them moves the running time on.
    open spec fn after_tick(self) -> Self {
        if !self.has_rtc || self.current_time.halt {
            Mbc3 { cycles: 0, ..self }
        } else if self.cycles + 4 == CYCLES_PER_SECOND {
            Mbc3 { cycles: 0, current_time: self.current_time.second_later(), ..self }
        } else {
            Mbc3 { cycles: (self.cycles + 4) as u32, ..self }
        }
    }

    open spec fn battery(&self) -> bool {
        self.has_battery
    }

    fn read_rom(&self, rom: &[u8], address: u16) -> (r: u8) {
        if address < HIGH_BANK_START {
            read_image(rom, address as usize)
        } else {
            read_image(
                rom,
                address as usize - ROM_BANK_SIZE + self.rom_bank as usize * ROM_BANK_SIZE,
            )
        }
    }

    fn write_rom(&mut self, address: u16, value: u8) {
        if address < 0x2000 {
            self.ram_rtc_enabled = value % 16 == 0xA;
        } else if address < 0x4000 {
            self.rom_bank = if value % 128 == 0 { 1 } else { value % 128 };
        } else if address < 0x6000 {
            self.ram_bank_rtc_select = value % 16;
        } else if address < 0x8000 {
            let set = value % 2 == 1;
            if !self.latch_toggle && set {
                self.latched_time = self.current_time;
            }
            self.latch_toggle = set;
        }
    }

    fn read_ram(&self, ram: &[u8], address: u16) -> (r: u8) {
        if !self.ram_rtc_enabled {
            return 0xFF;
        }
        let select = self.ram_bank_rtc_select;
        if select <= MAX_RAM_BANK_SELECT && self.has_ram {
            read_image(ram, address as usize + select as usize * RAM_BANK_SIZE)
        } else if self.has_rtc && select == RTC_SECONDS_REG {
            self.latched_time.seconds
        } else if self.has_rtc && select == RTC_MINUTES_REG {
            self.latched_time.minutes
        } else if self.has_rtc && select == RTC_HOURS_REG {
            self.latched_time.hours
        } else if self.has_rtc && select == RTC_DAY_LOW_REG {
            (self.latched_time.days % 256) as u8
        } else if self.has_rtc && select == RTC_DAY_HIGH_REG {
            self.latched_time.days_high_byte()
        } else {
            0xFF
        }
    }

    fn write_ram(&mut self, ram: &mut Vec<u8>, address: u16, value: u8) {
        if !self.ram_rtc_enabled {
            return ;
        }
        let select = self.ram_bank_rtc_select;
        if select <= MAX_RAM_BANK_SELECT {
            if self.has_ram {
                write_image(ram, address as usize + select as usize * RAM_BANK_SIZE, value);
            }
        } else if self.has_rtc {
            let mut time = self.current_time;
            if select == RTC_SECONDS_REG {
                time.seconds = value % 64;
            } else if select == RTC_MINUTES_REG {
                time.minutes = value % 64;
            } else if select == RTC_HOURS_REG {
                time.hours = value % 32;
            } else if select == RTC_DAY_LOW_REG {
                time.days = (time.days / 256) * 256 + value as u16;
            } else if select == RTC_DAY_HIGH_REG {
                time.set_days_high_byte(value);
            }
            self.current_time = time;
        }
    }

    fn tick(&mut self) {
        if !self.has_rtc || self.current_time.halt {
            self.cycles = 0;
        } else {
            self.cycles += 4;
            if self.cycles == CYCLES_PER_SECOND {
                self.cycles = 0;
                let mut time = self.current_time;
                time.tick_second();
                self.current_time = time;
            }
        }
    }

    fn has_battery(&self) -> (r: bool) {
        self.has_battery
    }
}

impl Mbc3 {
    /// The mapper `count` machine cycles later.
    pub open spec fn ticks(self, count: nat) -> Self
        decreases count,
    {
        if count == 0 {
            self
        } else {
            self.after_tick().ticks((count - 1) as nat)
        }
    }

    /// While the clock is halted, ticks change neither the running nor
    /// the latched time, so repeated reads of the clock registers
    /// return the same values, with or without a new latch between
    /// them.
    pub proof fn lemma_halted_rtc_stands_still(self, count: nat, ram: Seq<u8>, address: u16)
        requires
            self.current_time.halt,
        ensures
            self.ticks(count).current_time == self.current_time,
            self.ticks(count).latched_time == self.latched_time,
            self.ticks(count).ram_value(ram, address) == self.ram_value(ram, address),
            self.ticks(count).after_write_rom(0x6000, 0).after_write_rom(0x6000, 1).latched_time
                == self.after_write_rom(0x6000, 0).after_write_rom(0x6000, 1).latched_time,
        decreases count,
    {
        if count > 0 {
            self.after_tick().lemma_halted_rtc_stands_still((count - 1) as nat, ram, address);
        }
    }

    /// Clock data written to a save is read back as it was, where the
    /// save is loaded no later than it was made or with the clock
    /// halted.
    pub proof fn lemma_rtc_data_round_trip(self, now: u64)
        requires
            self.wf(),
            self.has_rtc,
        ensures
            self.rtc_bytes(now).len() == RTC_DATA_SIZE,
            self.with_rtc_data(self.rtc_bytes(now), now) == self,
    {
        let data = self.rtc_bytes(now);
        self.current_time.lemma_round_trip();
        self.latched_time.lemma_round_trip();
        lemma_le_u64_round_trip(now);
        assert(RtcRegisters::parsed(data, 0) == RtcRegisters::parsed(self.current_time.bytes(), 0));
        assert(RtcRegisters::parsed(data, 20) == RtcRegisters::parsed(self.latched_time.bytes(), 0));
        assert(le_u64_at(data, 40) == le_u64_at(le_u64_bytes(now), 0));
    }
}

} // verus!
