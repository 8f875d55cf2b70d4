//! The sound unit: four channels, the DIV-driven sequencer that paces
//! length, sweep and envelope, and the mixer that emits amplitude deltas.

use vstd::prelude::*;

verus! {

/// `1` for a set flag, `0` for a clear one.
pub open spec fn flag(b: bool) -> int {
    if b { 1 } else { 0 }
}

fn bit(b: bool) -> (r: u8)
    ensures
        r as int == flag(b),
{
    if b { 1 } else { 0 }
}

/// One on/off switch per channel, as found in the low nibble of the
/// status register and in each half of the panning register.
#[derive(Clone, Copy, Debug, PartialEq, Eq)]
pub struct ChannelToggles {
    pub ch_1: bool,
    pub ch_2: bool,
    pub ch_3: bool,
    pub ch_4: bool,
}

impl ChannelToggles {
    pub open spec fn none() -> Self {
        ChannelToggles { ch_1: false, ch_2: false, ch_3: false, ch_4: false }
    }

    pub open spec fn nibble(self) -> int {
        flag(self.ch_4) * 8 + flag(self.ch_3) * 4 + flag(self.ch_2) * 2 + flag(self.ch_1)
    }

    pub open spec fn of_nibble(nibble: u8) -> Self {
        ChannelToggles {
            ch_1: nibble % 2 == 1,
            ch_2: (nibble / 2) % 2 == 1,
            ch_3: (nibble / 4) % 2 == 1,
            ch_4: (nibble / 8) % 2 == 1,
        }
    }

    pub fn new() -> (r: Self)
        ensures
            r == Self::none(),
    {
        ChannelToggles { ch_1: false, ch_2: false, ch_3: false, ch_4: false }
    }

    pub fn value(&self) -> (r: u8)
        ensures
            r as int == self.nibble(),
    {
        bit(self.ch_4) * 8 + bit(self.ch_3) * 4 + bit(self.ch_2) * 2 + bit(self.ch_1)
    }

    pub fn from_nibble(nibble: u8) -> (r: Self)
        ensures
            r == Self::of_nibble(nibble),
    {
        ChannelToggles {
            ch_1: nibble % 2 == 1,
            ch_2: (nibble / 2) % 2 == 1,
            ch_3: (nibble / 4) % 2 == 1,
            ch_4: (nibble / 8) % 2 == 1,
        }
    }
}

/// The status register: the master switch and the four channel flags.
#[derive(Clone, Copy, Debug, PartialEq, Eq)]
pub struct SoundEnable {
    pub channels: ChannelToggles,
    pub enable_apu: bool,
}

impl SoundEnable {
    pub open spec fn byte(self) -> int {
        flag(self.enable_apu) * 128 + 0x70 + self.channels.nibble()
    }

    pub fn value(&self) -> (r: u8)
        ensures
            r as int == self.byte(),
    {
        bit(self.enable_apu) * 128 + 0x70 + self.channels.value()
    }
}

/// Which channels reach the left and the right output.
#[derive(Clone, Copy, Debug, PartialEq, Eq)]
pub struct SoundPanning {
    pub left: ChannelToggles,
    pub right: ChannelToggles,
}

impl SoundPanning {
    pub open spec fn byte(self) -> int {
        self.left.nibble() * 16 + self.right.nibble()
    }

    pub open spec fn of_byte(value: u8) -> Self {
        SoundPanning {
            left: ChannelToggles::of_nibble(value / 16),
            right: ChannelToggles::of_nibble(value % 16),
        }
    }

    pub fn value(&self) -> (r: u8)
        ensures
            r as int == self.byte(),
    {
        self.left.value() * 16 + self.right.value()
    }

    pub fn set_value(&mut self, value: u8)
        ensures
            *final(self) == Self::of_byte(value),
    {
        self.left = ChannelToggles::from_nibble(value / 16);
        self.right = ChannelToggles::from_nibble(value % 16);
    }
}

/// Master volume of each side and the two external-input switches.
#[derive(Clone, Copy, Debug, PartialEq, Eq)]
pub struct MasterVolVinPan {
    pub left_volume: u8,
    pub right_volume: u8,
    pub mix_vin_left: bool,
    pub mix_vin_right: bool,
}

impl MasterVolVinPan {
    pub open spec fn wf(self) -> bool {
        self.left_volume <= 7 && self.right_volume <= 7
    }

    pub open spec fn byte(self) -> int {
        flag(self.mix_vin_left) * 128 + self.left_volume * 16 + flag(self.mix_vin_right) * 8
            + self.right_volume
    }

    pub open spec fn of_byte(value: u8) -> Self {
        MasterVolVinPan {
            left_volume: (value / 16) % 8,
            right_volume: value % 8,
            mix_vin_left: value >= 128,
            mix_vin_right: (value / 8) % 2 == 1,
        }
    }

    pub fn value(&self) -> (r: u8)
        requires
            self.wf(),
        ensures
            r as int == self.byte(),
    {
        bit(self.mix_vin_left) * 128 + self.left_volume * 16 + bit(self.mix_vin_right) * 8
            + self.right_volume
    }

    pub fn set_value(&mut self, value: u8)
        ensures
            *final(self) == Self::of_byte(value),
            final(self).wf(),
    {
        self.mix_vin_left = value >= 128;
        self.left_volume = (value / 16) % 8;
        self.mix_vin_right = (value / 8) % 2 == 1;
        self.right_volume = value % 8;
    }
}

#[derive(Clone, Copy, Debug, PartialEq, Eq)]
pub enum SweepOp {
    Increase,
    Decrease,
}

/// The frequency sweep of the first channel.
#[derive(Clone, Copy, Debug, PartialEq, Eq)]
pub struct Sweep {
    pub pace: u8,
    pub op: SweepOp,
    pub slope_ctrl: u8,
}

impl Sweep {
    pub open spec fn wf(self) -> bool {
        self.pace <= 7 && self.slope_ctrl <= 7
    }

    pub open spec fn byte(self) -> int {
        128 + self.pace * 16 + flag(self.op is Decrease) * 8 + self.slope_ctrl
    }

    pub open spec fn of_byte(value: u8) -> Self {
        Sweep {
            pace: (value / 16) % 8,
            op: if (value / 8) % 2 == 0 { SweepOp::Increase } else { SweepOp::Decrease },
            slope_ctrl: value % 8,
        }
    }

    pub fn value(&self) -> (r: u8)
        requires
            self.wf(),
        ensures
            r as int == self.byte(),
    {
        let op: u8 = match self.op {
            SweepOp::Increase => 0,
            SweepOp::Decrease => 8,
        };
        128 + self.pace * 16 + op + self.slope_ctrl
    }

    pub fn set_value(&mut self, value: u8)
        ensures
            *final(self) == Self::of_byte(value),
            final(self).wf(),
    {
        self.pace = (value / 16) % 8;
        self.op = if (value / 8) % 2 == 0 { SweepOp::Increase } else { SweepOp::Decrease };
        self.slope_ctrl = value % 8;
    }
}

/// The four pulse shapes.
#[derive(Clone, Copy, Debug, PartialEq, Eq)]
pub enum WaveDuty {
    W0,
    W1,
    W2,
    W3,
}

impl WaveDuty {
    pub open spec fn index(self) -> int {
        match self {
            WaveDuty::W0 => 0,
            WaveDuty::W1 => 1,
            WaveDuty::W2 => 2,
            WaveDuty::W3 => 3,
        }
    }

    pub open spec fn of_index(index: int) -> Self {
        if index == 0 {
            WaveDuty::W0
        } else if index == 1 {
            WaveDuty::W1
        } else if index == 2 {
            WaveDuty::W2
        } else {
            WaveDuty::W3
        }
    }

    /// Whether the pulse is high at `step` of its eight steps.
    pub open spec fn high_at(self, step: int) -> bool {
        match self {
            WaveDuty::W0 => step != 7,
            WaveDuty::W1 => 1 <= step <= 6,
            WaveDuty::W2 => 1 <= step <= 4,
            WaveDuty::W3 => step == 0 || step == 7,
        }
    }

    pub fn waveform(&self) -> (r: [bool; 8])
        ensures
            forall|i: int| 0 <= i < 8 ==> r[i] == self.high_at(i),
    {
        match self {
            WaveDuty::W0 => [true, true, true, true, true, true, true, false],
            WaveDuty::W1 => [false, true, true, true, true, true, true, false],
            WaveDuty::W2 => [false, true, true, true, true, false, false, false],
            WaveDuty::W3 => [true, false, false, false, false, false, false, true],
        }
    }
}

/// Pulse shape and length timer of a pulse channel.
#[derive(Clone, Copy, Debug, PartialEq, Eq)]
pub struct WaveDutyTimerLen {
    pub wave_duty: WaveDuty,
    pub len_timer: u16,
}

impl WaveDutyTimerLen {
    pub open spec fn wf(self) -> bool {
        self.len_timer <= 64
    }

    pub open spec fn byte(self) -> int {
        self.wave_duty.index() * 64 + 0x3F
    }

    pub open spec fn of_byte(value: u8) -> Self {
        WaveDutyTimerLen {
            wave_duty: WaveDuty::of_index(value as int / 64),
            len_timer: (64 - value % 64) as u16,
        }
    }

    pub fn value(&self) -> (r: u8)
        ensures
            r as int == self.byte(),
    {
        let duty: u8 = match self.wave_duty {
            WaveDuty::W0 => 0,
            WaveDuty::W1 => 1,
            WaveDuty::W2 => 2,
            WaveDuty::W3 => 3,
        };
        duty * 64 + 0x3F
    }

    pub fn set_value(&mut self, value: u8)
        ensures
            *final(self) == Self::of_byte(value),
            final(self).wf(),
    {
        let duty: u8 = value / 64;
        self.wave_duty = if duty == 0 {
            WaveDuty::W0
        } else if duty == 1 {
            WaveDuty::W1
        } else if duty == 2 {
            WaveDuty::W2
        } else {
            WaveDuty::W3
        };
        self.len_timer = 64 - (value % 64) as u16;
    }
}

#[derive(Clone, Copy, Debug, PartialEq, Eq)]
pub enum EnvelopeDir {
    Decrease,
    Increase,
}

/// Start volume, direction and pace of a volume envelope.
#[derive(Clone, Copy, Debug, PartialEq, Eq)]
pub struct VolumeEnvelope {
    pub initial: u8,
    pub direction: EnvelopeDir,
    pub pace: u8,
}

impl VolumeEnvelope {
    pub open spec fn wf(self) -> bool {
        self.initial <= 15 && self.pace <= 7
    }

    pub open spec fn byte(self) -> int {
        self.initial * 16 + flag(self.direction is Increase) * 8 + self.pace
    }

    pub open spec fn of_byte(value: u8) -> Self {
        VolumeEnvelope {
            initial: value / 16,
            direction: if (value / 8) % 2 == 0 {
                EnvelopeDir::Decrease
            } else {
                EnvelopeDir::Increase
            },
            pace: value % 8,
        }
    }

    /// The converter is on while any of the five upper bits of the
    /// register is set.
    pub open spec fn dac_on(self) -> bool {
        self.initial != 0 || self.direction is Increase
    }

    pub fn value(&self) -> (r: u8)
        requires
            self.wf(),
        ensures
            r as int == self.byte(),
    {
        let dir: u8 = match self.direction {
            EnvelopeDir::Decrease => 0,
            EnvelopeDir::Increase => 8,
        };
        self.initial * 16 + dir + self.pace
    }

    pub fn set_value(&mut self, value: u8)
        ensures
            *final(self) == Self::of_byte(value),
            final(self).wf(),
    {
        self.initial = value / 16;
        self.direction = if (value / 8) % 2 == 0 {
            EnvelopeDir::Decrease
        } else {
            EnvelopeDir::Increase
        };
        self.pace = value % 8;
    }

    pub fn dac_enabled(&self) -> (r: bool)
        ensures
            r == self.dac_on(),
    {
        self.initial != 0 || matches!(self.direction, EnvelopeDir::Increase)
    }
}

/// Period value, length enable and the pending trigger of a channel.
#[derive(Clone, Copy, Debug, PartialEq, Eq)]
pub struct WavelenCtrl {
    pub trigger: bool,
    pub len_enable: bool,
    pub wavelen: u16,
}

impl WavelenCtrl {
    pub open spec fn wf(self) -> bool {
        self.wavelen < 2048
    }

    pub open spec fn ctrl_byte(self) -> int {
        flag(self.len_enable) * 64 + 0xBF
    }

    pub open spec fn with_high_ctrl(self, value: u8) -> Self {
        WavelenCtrl {
            trigger: value >= 128,
            len_enable: (value / 64) % 2 == 1,
            wavelen: (self.wavelen % 256 + (value % 8) * 256) as u16,
        }
    }

    pub open spec fn with_low(self, value: u8) -> Self {
        WavelenCtrl { wavelen: ((self.wavelen / 256) * 256 + value) as u16, ..self }
    }

    pub fn value_ctrl(&self) -> (r: u8)
        ensures
            r as int == self.ctrl_byte(),
    {
        bit(self.len_enable) * 64 + 0xBF
    }

    pub fn set_value_wavelen_h_ctrl(&mut self, value: u8)
        ensures
            *final(self) == old(self).with_high_ctrl(value),
            final(self).wf(),
    {
        self.trigger = value >= 128;
        self.len_enable = (value / 64) % 2 == 1;
        self.wavelen = self.wavelen % 256 + (value % 8) as u16 * 256;
    }

    pub fn set_value_wavelen_l(&mut self, value: u8)
        requires
            old(self).wf(),
        ensures
            *final(self) == old(self).with_low(value),
            final(self).wf(),
    {
        self.wavelen = (self.wavelen / 256) * 256 + value as u16;
    }
}

#[derive(Clone, Copy, Debug, PartialEq, Eq)]
pub enum LfsrWidth {
    B15,
    B7,
}

/// Clock shift, register width and divider code of the noise channel.
#[derive(Clone, Copy, Debug, PartialEq, Eq)]
pub struct FreqRand {
    pub clock_shift: u8,
    pub lfsr_width: LfsrWidth,
    pub clock_div: u8,
}

impl FreqRand {
    pub open spec fn wf(self) -> bool {
        self.clock_shift <= 15 && self.clock_div <= 7
    }

    pub open spec fn byte(self) -> int {
        self.clock_shift * 16 + flag(self.lfsr_width is B7) * 8 + self.clock_div
    }

    pub open spec fn of_byte(value: u8) -> Self {
        FreqRand {
            clock_shift: value / 16,
            lfsr_width: if (value / 8) % 2 == 0 { LfsrWidth::B15 } else { LfsrWidth::B7 },
            clock_div: value % 8,
        }
    }

    pub fn value(&self) -> (r: u8)
        requires
            self.wf(),
        ensures
            r as int == self.byte(),
    {
        let width: u8 = match self.lfsr_width {
            LfsrWidth::B15 => 0,
            LfsrWidth::B7 => 8,
        };
        self.clock_shift * 16 + width + self.clock_div
    }

    pub fn set_value(&mut self, value: u8)
        ensures
            *final(self) == Self::of_byte(value),
            final(self).wf(),
    {
        self.clock_shift = value / 16;
        self.lfsr_width = if (value / 8) % 2 == 0 { LfsrWidth::B15 } else { LfsrWidth::B7 };
        self.clock_div = value % 8;
    }
}


/// One past the largest period value.
pub const WAVELEN_MAX: u16 = 2048;

/// How many amplitude changes fit between two drains.
pub const DELTA_CAPACITY: usize = 12;

/// Master cycles of the longest instruction; samples older than that
/// were not fetched and are dropped.
pub const MAX_PENDING_CYCLES: usize = 24;

/// Largest period of the noise register clock, in master cycles.
pub const NOISE_PERIOD_MAX: u32 = 16 * 7 * 32768;

/// The length timer after one sequencer step.
pub open spec fn len_after_tick(len_timer: u16, len_enable: bool) -> u16 {
    if len_enable && len_timer > 0 {
        (len_timer - 1) as u16
    } else {
        len_timer
    }
}

/// Whether the channel stays on after one sequencer step of its timer.
pub open spec fn on_after_len_tick(len_timer: u16, len_enable: bool, on: bool) -> bool {
    on && !(len_enable && len_timer == 1)
}

/// The envelope volume after one envelope step at sequencer count `div`.
pub open spec fn volume_after_envelope(vol_env: VolumeEnvelope, volume: u8, div: u8) -> u8 {
    if vol_env.pace != 0 && (div / 8) % vol_env.pace == 0 {
        match vol_env.direction {
            EnvelopeDir::Increase => if volume < 15 { (volume + 1) as u8 } else { 15 },
            EnvelopeDir::Decrease => if volume > 0 { (volume - 1) as u8 } else { 0 },
        }
    } else {
        volume
    }
}

/// What a pulse or noise channel feeds the mixer: eight minus its volume
/// while its output is high, eight while it is low.
pub open spec fn level(high: bool, volume: u8) -> int {
    8 - if high { volume as int } else { 0 }
}

/// The noise register after one step: the inverted XOR of its two low
/// bits enters at bit 14, in the narrow mode at bit 6 too, and the rest
/// moves down by one.
pub open spec fn lfsr_after_step(lfsr: u16, width: LfsrWidth) -> int {
    let tap: int = if lfsr % 2 == (lfsr / 2) % 2 { 1 } else { 0 };
    let moved: int = (lfsr as int / 2) % 16384;
    let wide: int = moved + tap * 16384;
    match width {
        LfsrWidth::B15 => wide,
        LfsrWidth::B7 => wide - ((moved / 64) % 2) * 64 + tap * 64,
    }
}

/// The period of the noise register clock in master cycles: eight for
/// divider code zero, sixteen times the code otherwise, shifted left.
pub open spec fn noise_period(freq_rand: FreqRand) -> u32 {
    let divisor: u32 = if freq_rand.clock_div == 0 { 8 } else { (freq_rand.clock_div * 16) as u32 };
    divisor << (freq_rand.clock_shift as u32)
}

proof fn lemma_noise_period_bound(divisor: u32, shift: u32)
    by (bit_vector)
    requires
        divisor <= 112,
        shift <= 15,
    ensures
        (divisor << shift) <= 112 * 32768,
{
}

proof fn lemma_shift_right_shrinks(x: u16, shift: u16)
    by (bit_vector)
    requires
        shift < 16,
    ensures
        (x >> shift) <= x,
{
}

/// First channel: pulse with frequency sweep.
#[derive(Clone, Copy, Debug, PartialEq, Eq)]
pub struct Channel1 {
    pub cycles: u16,
    pub wave_idx: usize,
    pub volume: u8,
    pub sweep: Sweep,
    pub wave_duty_len_timer: WaveDutyTimerLen,
    pub vol_env: VolumeEnvelope,
    pub wavelen_ctrl: WavelenCtrl,
}

impl Channel1 {
    pub open spec fn wf(self) -> bool {
        &&& self.cycles < WAVELEN_MAX
        &&& self.wave_idx < 8
        &&& self.volume <= 15
        &&& self.sweep.wf()
        &&& self.wave_duty_len_timer.wf()
        &&& self.vol_env.wf()
        &&& self.wavelen_ctrl.wf()
    }

    /// The power-on state with a given length timer.
    pub open spec fn cleared(len_timer: u16) -> Self {
        Channel1 {
            cycles: 0,
            wave_idx: 0,
            volume: 0,
            sweep: Sweep { pace: 0, op: SweepOp::Increase, slope_ctrl: 0 },
            wave_duty_len_timer: WaveDutyTimerLen { wave_duty: WaveDuty::W0, len_timer },
            vol_env: VolumeEnvelope { initial: 0, direction: EnvelopeDir::Decrease, pace: 0 },
            wavelen_ctrl: WavelenCtrl { trigger: false, len_enable: false, wavelen: 0 },
        }
    }

    pub fn new() -> (r: Self)
        ensures
            r == Self::cleared(0),
            r.wf(),
    {
        Channel1 {
            cycles: 0,
            wave_idx: 0,
            volume: 0,
            sweep: Sweep { pace: 0, op: SweepOp::Increase, slope_ctrl: 0 },
            wave_duty_len_timer: WaveDutyTimerLen { wave_duty: WaveDuty::W0, len_timer: 0 },
            vol_env: VolumeEnvelope { initial: 0, direction: EnvelopeDir::Decrease, pace: 0 },
            wavelen_ctrl: WavelenCtrl { trigger: false, len_enable: false, wavelen: 0 },
        }
    }

    /// Clears every register but the length timer.
    pub fn reset(&mut self)
        requires
            old(self).wf(),
        ensures
            *final(self) == Self::cleared(old(self).wave_duty_len_timer.len_timer),
            final(self).wf(),
    {
        let len_timer = self.wave_duty_len_timer.len_timer;
        *self = Self::new();
        self.wave_duty_len_timer.len_timer = len_timer;
    }
}

/// Second channel: pulse without sweep.
#[derive(Clone, Copy, Debug, PartialEq, Eq)]
pub struct Channel2 {
    pub cycles: u16,
    pub wave_idx: usize,
    pub volume: u8,
    pub wave_duty_len_timer: WaveDutyTimerLen,
    pub vol_env: VolumeEnvelope,
    pub wavelen_ctrl: WavelenCtrl,
}

impl Channel2 {
    pub open spec fn wf(self) -> bool {
        &&& self.cycles < WAVELEN_MAX
        &&& self.wave_idx < 8
        &&& self.volume <= 15
        &&& self.wave_duty_len_timer.wf()
        &&& self.vol_env.wf()
        &&& self.wavelen_ctrl.wf()
    }

    pub open spec fn cleared(len_timer: u16) -> Self {
        Channel2 {
            cycles: 0,
            wave_idx: 0,
            volume: 0,
            wave_duty_len_timer: WaveDutyTimerLen { wave_duty: WaveDuty::W0, len_timer },
            vol_env: VolumeEnvelope { initial: 0, direction: EnvelopeDir::Decrease, pace: 0 },
            wavelen_ctrl: WavelenCtrl { trigger: false, len_enable: false, wavelen: 0 },
        }
    }

    pub fn new() -> (r: Self)
        ensures
            r == Self::cleared(0),
            r.wf(),
    {
        Channel2 {
            cycles: 0,
            wave_idx: 0,
            volume: 0,
            wave_duty_len_timer: WaveDutyTimerLen { wave_duty: WaveDuty::W0, len_timer: 0 },
            vol_env: VolumeEnvelope { initial: 0, direction: EnvelopeDir::Decrease, pace: 0 },
            wavelen_ctrl: WavelenCtrl { trigger: false, len_enable: false, wavelen: 0 },
        }
    }

    /// Clears every register but the length timer.
    pub fn reset(&mut self)
        requires
            old(self).wf(),
        ensures
            *final(self) == Self::cleared(old(self).wave_duty_len_timer.len_timer),
            final(self).wf(),
    {
        let len_timer = self.wave_duty_len_timer.len_timer;
        *self = Self::new();
        self.wave_duty_len_timer.len_timer = len_timer;
    }
}

/// Third channel: playback of the 32 four-bit samples in wave memory.
#[derive(Clone, Copy, Debug, PartialEq, Eq)]
pub struct Channel3 {
    pub dac_enable: bool,
    pub cycles: u16,
    pub len_timer: u16,
    pub out_level: u8,
    pub wavelen_ctrl: WavelenCtrl,
    pub wave_pattern: [u8; 16],
    pub wave_pattern_index: usize,
}

impl Channel3 {
    pub open spec fn wf(self) -> bool {
        &&& self.cycles < WAVELEN_MAX
        &&& self.len_timer <= 256
        &&& self.out_level <= 3
        &&& self.wavelen_ctrl.wf()
        &&& self.wave_pattern_index < 32
    }

    pub open spec fn cleared(len_timer: u16, wave_pattern: [u8; 16]) -> Self {
        Channel3 {
            dac_enable: false,
            cycles: 0,
            len_timer,
            out_level: 0,
            wavelen_ctrl: WavelenCtrl { trigger: false, len_enable: false, wavelen: 0 },
            wave_pattern,
            wave_pattern_index: 0,
        }
    }

    /// The four-bit sample under the playback position.
    pub open spec fn sample(self) -> int {
        let byte = self.wave_pattern[self.wave_pattern_index as int / 2];
        if self.wave_pattern_index % 2 == 0 {
            byte as int / 16
        } else {
            byte as int % 16
        }
    }

    /// The sample after the output level: muted at level zero, else
    /// shifted right by one less than the level.
    pub open spec fn output(self) -> int {
        if self.out_level == 0 {
            0
        } else if self.out_level == 1 {
            self.sample()
        } else if self.out_level == 2 {
            self.sample() / 2
        } else {
            self.sample() / 4
        }
    }

    pub fn new() -> (r: Self)
        ensures
            r.wf(),
            r.dac_enable == false,
            r.cycles == 0,
            r.len_timer == 0,
            r.out_level == 0,
            r.wavelen_ctrl == (WavelenCtrl { trigger: false, len_enable: false, wavelen: 0 }),
            r.wave_pattern_index == 0,
            forall|i: int| 0 <= i < 16 ==> r.wave_pattern[i] == 0,
    {
        Channel3 {
            dac_enable: false,
            cycles: 0,
            len_timer: 0,
            out_level: 0,
            wavelen_ctrl: WavelenCtrl { trigger: false, len_enable: false, wavelen: 0 },
            wave_pattern: [0u8; 16],
            wave_pattern_index: 0,
        }
    }

    /// Clears every register but the length timer and the wave memory.
    pub fn reset(&mut self)
        requires
            old(self).wf(),
        ensures
            *final(self) == Self::cleared(old(self).len_timer, old(self).wave_pattern),
            final(self).wf(),
    {
        self.dac_enable = false;
        self.cycles = 0;
        self.out_level = 0;
        self.wavelen_ctrl = WavelenCtrl { trigger: false, len_enable: false, wavelen: 0 };
        self.wave_pattern_index = 0;
    }
}

/// Fourth channel: noise from a shift register.
#[derive(Clone, Copy, Debug, PartialEq, Eq)]
pub struct Channel4 {
    pub cycles: u32,
    pub len_timer: u16,
    pub volume: u8,
    pub vol_env: VolumeEnvelope,
    pub freq_rand: FreqRand,
    pub lfsr: u16,
    pub trigger: bool,
    pub len_enable: bool,
}

impl Channel4 {
    pub open spec fn wf(self) -> bool {
        &&& self.cycles < NOISE_PERIOD_MAX
        &&& self.len_timer <= 64
        &&& self.volume <= 15
        &&& self.vol_env.wf()
        &&& self.freq_rand.wf()
        &&& self.lfsr < 32768
    }

    pub open spec fn cleared(len_timer: u16) -> Self {
        Channel4 {
            cycles: 0,
            len_timer,
            volume: 0,
            vol_env: VolumeEnvelope { initial: 0, direction: EnvelopeDir::Decrease, pace: 0 },
            freq_rand: FreqRand { clock_shift: 0, lfsr_width: LfsrWidth::B15, clock_div: 0 },
            lfsr: 0,
            trigger: false,
            len_enable: false,
        }
    }

    pub fn new() -> (r: Self)
        ensures
            r == Self::cleared(0),
            r.wf(),
    {
        Channel4 {
            cycles: 0,
            len_timer: 0,
            volume: 0,
            vol_env: VolumeEnvelope { initial: 0, direction: EnvelopeDir::Decrease, pace: 0 },
            freq_rand: FreqRand { clock_shift: 0, lfsr_width: LfsrWidth::B15, clock_div: 0 },
            lfsr: 0,
            trigger: false,
            len_enable: false,
        }
    }

    /// Clears every register but the length timer.
    pub fn reset(&mut self)
        requires
            old(self).wf(),
        ensures
            *final(self) == Self::cleared(old(self).len_timer),
            final(self).wf(),
    {
        let len_timer = self.len_timer;
        *self = Self::new();
        self.len_timer = len_timer;
    }
}


/// The amplitude changes recorded since the last drain: entry `i` of
/// each side, for `i` below `count`, took effect `offsets[i]` master
/// cycles after the drain.
#[derive(Clone, Copy, Debug, PartialEq, Eq)]
pub struct Deltas {
    pub left: [i32; 12],
    pub right: [i32; 12],
    pub offsets: [usize; 12],
    pub count: usize,
}

/// The sound unit.
#[derive(Clone, Copy, Debug, PartialEq, Eq)]
pub struct Apu {
    pub left_deltas: [i32; 12],
    pub right_deltas: [i32; 12],
    pub delta_offsets: [usize; 12],
    pub delta_offset: usize,
    pub delta_count: usize,
    pub master_vol_vin_pan: MasterVolVinPan,
    pub sound_panning: SoundPanning,
    pub sound_enable: SoundEnable,
    pub ch_1: Channel1,
    pub ch_2: Channel2,
    pub ch_3: Channel3,
    pub ch_4: Channel4,
    pub div: u8,
    pub amplitude_left: i32,
    pub amplitude_right: i32,
}

impl Apu {
    /// What holds between two samples.
    pub open spec fn wf_sampling(self) -> bool {
        &&& self.delta_offset % 2 == 0
        &&& self.delta_offset <= MAX_PENDING_CYCLES
        &&& 2 * self.delta_count <= self.delta_offset
        &&& self.master_vol_vin_pan.wf()
        &&& self.ch_1.wf()
        &&& self.ch_2.wf()
        &&& self.ch_3.wf()
        &&& self.ch_4.wf()
        &&& -16384 <= self.amplitude_left <= 16384
        &&& -16384 <= self.amplitude_right <= 16384
    }

    /// What holds between two ticks.
    pub open spec fn wf(self) -> bool {
        &&& self.wf_sampling()
        &&& self.delta_offset % 4 == 0
    }

    /// Whether the unit is as at power on: off, silent, with every
    /// register and the wave memory clear and no sample on record.
    pub open spec fn is_fresh(self) -> bool {
        &&& !self.sound_enable.enable_apu
        &&& self.sound_enable.channels == ChannelToggles::none()
        &&& self.delta_count == 0
        &&& self.delta_offset == 0
        &&& self.div == 0
        &&& self.amplitude_left == 0
        &&& self.amplitude_right == 0
        &&& self.ch_1 == Channel1::cleared(0)
        &&& self.ch_2 == Channel2::cleared(0)
        &&& self.ch_3.dac_enable == false
        &&& self.ch_3.cycles == 0
        &&& self.ch_3.len_timer == 0
        &&& self.ch_3.out_level == 0
        &&& self.ch_3.wavelen_ctrl == (WavelenCtrl { trigger: false, len_enable: false, wavelen: 0 })
        &&& self.ch_3.wave_pattern_index == 0
        &&& forall|i: int| 0 <= i < 16 ==> self.ch_3.wave_pattern[i] == 0
        &&& self.ch_4 == Channel4::cleared(0)
        &&& self.master_vol_vin_pan == MasterVolVinPan::of_byte(0)
        &&& self.sound_panning == SoundPanning::of_byte(0)
    }

    pub fn new() -> (r: Self)
        ensures
            r.wf(),
            r.is_fresh(),
            forall|address: u16|
                CH1_SWEEP_ADDRESS <= address < SOUND_ENABLE_ADDRESS ==> #[trigger] r.read_value(
                    address,
                ) == Self::idle_byte(address),
    {
        reveal(Apu::read_value);
        Apu {
            left_deltas: [0i32; 12],
            right_deltas: [0i32; 12],
            delta_offsets: [0usize; 12],
            delta_offset: 0,
            delta_count: 0,
            master_vol_vin_pan: MasterVolVinPan {
                left_volume: 0,
                right_volume: 0,
                mix_vin_left: false,
                mix_vin_right: false,
            },
            sound_panning: SoundPanning {
                left: ChannelToggles::new(),
                right: ChannelToggles::new(),
            },
            sound_enable: SoundEnable { channels: ChannelToggles::new(), enable_apu: false },
            ch_1: Channel1::new(),
            ch_2: Channel2::new(),
            ch_3: Channel3::new(),
            ch_4: Channel4::new(),
            div: 0,
            amplitude_left: 0,
            amplitude_right: 0,
        }
    }

    /// One sequencer step of a length timer: an enabled, running timer
    /// loses one and switches the channel off on reaching zero. Returns
    /// the timer and whether the channel is still on.
    pub fn tick_len(len_timer: u16, len_enable: bool, ch_enable: bool) -> (r: (u16, bool))
        ensures
            r.0 == len_after_tick(len_timer, len_enable),
            r.1 == on_after_len_tick(len_timer, len_enable, ch_enable),
    {
        if len_enable && len_timer > 0 {
            (len_timer - 1, ch_enable && len_timer != 1)
        } else {
            (len_timer, ch_enable)
        }
    }

    /// The unit after the length step of all four channels.
    #[verifier::opaque]
    pub open spec fn lengths_ticked(self) -> Apu {
        let c1 = self.ch_1;
        let c2 = self.ch_2;
        let c3 = self.ch_3;
        let c4 = self.ch_4;
        let on = self.sound_enable.channels;
        Apu {
            ch_1: Channel1 {
                wave_duty_len_timer: WaveDutyTimerLen {
                    len_timer: len_after_tick(
                        c1.wave_duty_len_timer.len_timer,
                        c1.wavelen_ctrl.len_enable,
                    ),
                    ..c1.wave_duty_len_timer
                },
                ..c1
            },
            ch_2: Channel2 {
                wave_duty_len_timer: WaveDutyTimerLen {
                    len_timer: len_after_tick(
                        c2.wave_duty_len_timer.len_timer,
                        c2.wavelen_ctrl.len_enable,
                    ),
                    ..c2.wave_duty_len_timer
                },
                ..c2
            },
            ch_3: Channel3 {
                len_timer: len_after_tick(c3.len_timer, c3.wavelen_ctrl.len_enable),
                ..c3
            },
            ch_4: Channel4 { len_timer: len_after_tick(c4.len_timer, c4.len_enable), ..c4 },
            sound_enable: SoundEnable {
                channels: ChannelToggles {
                    ch_1: on_after_len_tick(
                        c1.wave_duty_len_timer.len_timer,
                        c1.wavelen_ctrl.len_enable,
                        on.ch_1,
                    ),
                    ch_2: on_after_len_tick(
                        c2.wave_duty_len_timer.len_timer,
                        c2.wavelen_ctrl.len_enable,
                        on.ch_2,
                    ),
                    ch_3: on_after_len_tick(c3.len_timer, c3.wavelen_ctrl.len_enable, on.ch_3),
                    ch_4: on_after_len_tick(c4.len_timer, c4.len_enable, on.ch_4),
                },
                ..self.sound_enable
            },
            ..self
        }
    }

    /// The unit after one step of the first channel's frequency sweep:
    /// every `pace` steps (eight for pace zero) a nonzero period moves by
    /// itself shifted right by the slope; a rise to the maximum or a
    /// fall below zero switches the channel off instead.
    #[verifier::opaque]
    pub open spec fn swept(self) -> Apu {
        let sweep = self.ch_1.sweep;
        let wavelen = self.ch_1.wavelen_ctrl.wavelen;
        let pace = if sweep.pace != 0 { sweep.pace } else { 8 };
        let offset = wavelen >> (sweep.slope_ctrl as u16);
        let off = Apu {
            sound_enable: SoundEnable {
                channels: ChannelToggles { ch_1: false, ..self.sound_enable.channels },
                ..self.sound_enable
            },
            ..self
        };
        if wavelen > 0 && (self.div / 4) % pace == 0 {
            match sweep.op {
                SweepOp::Increase => if wavelen + offset >= WAVELEN_MAX {
                    off
                } else {
                    self.with_ch1_wavelen((wavelen + offset) as u16)
                },
                SweepOp::Decrease => if offset > wavelen {
                    off
                } else {
                    self.with_ch1_wavelen((wavelen - offset) as u16)
                },
            }
        } else {
            self
        }
    }

    pub open spec fn with_ch1_wavelen(self, wavelen: u16) -> Apu {
        Apu {
            ch_1: Channel1 {
                wavelen_ctrl: WavelenCtrl { wavelen, ..self.ch_1.wavelen_ctrl },
                ..self.ch_1
            },
            ..self
        }
    }

    /// The unit after the envelope step of channels one, two and four.
    #[verifier::opaque]
    pub open spec fn enveloped(self) -> Apu {
        Apu {
            ch_1: Channel1 {
                volume: volume_after_envelope(self.ch_1.vol_env, self.ch_1.volume, self.div),
                ..self.ch_1
            },
            ch_2: Channel2 {
                volume: volume_after_envelope(self.ch_2.vol_env, self.ch_2.volume, self.div),
                ..self.ch_2
            },
            ch_4: Channel4 {
                volume: volume_after_envelope(self.ch_4.vol_env, self.ch_4.volume, self.div),
                ..self.ch_4
            },
            ..self
        }
    }

    /// The unit after a falling edge of the divider bit that clocks the
    /// sequencer. While powered, the count modulo eight picks the work:
    /// lengths on even counts, the sweep on two and six, the envelopes on
    /// seven; then the count moves on.
    pub open spec fn after_inc_div(self) -> Apu {
        if !self.sound_enable.enable_apu {
            self
        } else {
            let a = if self.div % 2 == 0 { self.lengths_ticked() } else { self };
            let b = if self.div % 4 == 2 { a.swept() } else { a };
            let c = if self.div % 8 == 7 { b.enveloped() } else { b };
            Apu { div: if self.div == 255 { 0 } else { (self.div + 1) as u8 }, ..c }
        }
    }

    proof fn lemma_lengths_ticked_wf(self)
        requires
            self.wf(),
        ensures
            self.lengths_ticked().wf(),
    {
        reveal(Apu::lengths_ticked);
    }

    fn tick_lengths(&mut self)
        requires
            old(self).wf(),
        ensures
            *final(self) == old(self).lengths_ticked(),
            final(self).wf(),
    {
        reveal(Apu::lengths_ticked);
        let (len_1, on_1) = Self::tick_len(
            self.ch_1.wave_duty_len_timer.len_timer,
            self.ch_1.wavelen_ctrl.len_enable,
            self.sound_enable.channels.ch_1,
        );
        let (len_2, on_2) = Self::tick_len(
            self.ch_2.wave_duty_len_timer.len_timer,
            self.ch_2.wavelen_ctrl.len_enable,
            self.sound_enable.channels.ch_2,
        );
        let (len_3, on_3) = Self::tick_len(
            self.ch_3.len_timer,
            self.ch_3.wavelen_ctrl.len_enable,
            self.sound_enable.channels.ch_3,
        );
        let (len_4, on_4) = Self::tick_len(
            self.ch_4.len_timer,
            self.ch_4.len_enable,
            self.sound_enable.channels.ch_4,
        );
        self.ch_1.wave_duty_len_timer.len_timer = len_1;
        self.ch_2.wave_duty_len_timer.len_timer = len_2;
        self.ch_3.len_timer = len_3;
        self.ch_4.len_timer = len_4;
        self.sound_enable.channels = ChannelToggles {
            ch_1: on_1,
            ch_2: on_2,
            ch_3: on_3,
            ch_4: on_4,
        };
        proof {
            old(self).lemma_lengths_ticked_wf();
        }
    }

    fn tick_sweep(&mut self)
        requires
            old(self).wf(),
        ensures
            *final(self) == old(self).swept(),
            final(self).wf(),
    {
        reveal(Apu::swept);
        let pace: u8 = if self.ch_1.sweep.pace != 0 { self.ch_1.sweep.pace } else { 8 };
        let wavelen: u16 = self.ch_1.wavelen_ctrl.wavelen;
        if wavelen > 0 && (self.div / 4) % pace == 0 {
            let offset: u16 = wavelen >> (self.ch_1.sweep.slope_ctrl as u16);
            proof {
                lemma_shift_right_shrinks(wavelen, self.ch_1.sweep.slope_ctrl as u16);
            }
            match self.ch_1.sweep.op {
                SweepOp::Increase => {
                    if wavelen + offset >= WAVELEN_MAX {
                        self.sound_enable.channels.ch_1 = false;
                    } else {
                        self.ch_1.wavelen_ctrl.wavelen = wavelen + offset;
                    }
                },
                SweepOp::Decrease => {
                    if offset > wavelen {
                        self.sound_enable.channels.ch_1 = false;
                    } else {
                        self.ch_1.wavelen_ctrl.wavelen = wavelen - offset;
                    }
                },
            }
        }
    }

    fn envelope_volume(vol_env: &VolumeEnvelope, volume: u8, div: u8) -> (r: u8)
        requires
            volume <= 15,
        ensures
            r == volume_after_envelope(*vol_env, volume, div),
            r <= 15,
    {
        if vol_env.pace != 0 && (div / 8) % vol_env.pace == 0 {
            match vol_env.direction {
                EnvelopeDir::Increase => if volume < 15 { volume + 1 } else { 15 },
                EnvelopeDir::Decrease => if volume > 0 { volume - 1 } else { 0 },
            }
        } else {
            volume
        }
    }

    fn tick_envelopes(&mut self)
        requires
            old(self).wf(),
        ensures
            *final(self) == old(self).enveloped(),
            final(self).wf(),
    {
        reveal(Apu::enveloped);
        self.ch_1.volume = Self::envelope_volume(&self.ch_1.vol_env, self.ch_1.volume, self.div);
        self.ch_2.volume = Self::envelope_volume(&self.ch_2.vol_env, self.ch_2.volume, self.div);
        self.ch_4.volume = Self::envelope_volume(&self.ch_4.vol_env, self.ch_4.volume, self.div);
    }

    proof fn lemma_swept_wf(self)
        requires
            self.wf(),
        ensures
            self.swept().wf(),
    {
        reveal(Apu::swept);
        lemma_shift_right_shrinks(
            self.ch_1.wavelen_ctrl.wavelen,
            self.ch_1.sweep.slope_ctrl as u16,
        );
    }

    proof fn lemma_enveloped_wf(self)
        requires
            self.wf(),
        ensures
            self.enveloped().wf(),
    {
        reveal(Apu::enveloped);
    }

    /// The sequencer step keeps the unit well formed.
    pub proof fn lemma_after_inc_div_wf(self)
        requires
            self.wf(),
        ensures
            self.after_inc_div().wf(),
    {
        if self.sound_enable.enable_apu {
            let a = if self.div % 2 == 0 { self.lengths_ticked() } else { self };
            let b = if self.div % 4 == 2 { a.swept() } else { a };
            let c = if self.div % 8 == 7 { b.enveloped() } else { b };
            self.lemma_lengths_ticked_wf();
            a.lemma_swept_wf();
            b.lemma_enveloped_wf();
            assert(c.wf());
        }
    }

    /// Steps the sequencer; to be called on each falling edge of the
    /// divider bit that clocks it.
    pub fn inc_div(&mut self)
        requires
            old(self).wf(),
        ensures
            *final(self) == old(self).after_inc_div(),
            final(self).wf(),
    {
        if !self.sound_enable.enable_apu {
            return ;
        }
        let div: u8 = self.div;
        if div % 2 == 0 {
            self.tick_lengths();
        }
        if div % 4 == 2 {
            self.tick_sweep();
        }
        if div % 8 == 7 {
            self.tick_envelopes();
        }
        self.div = div.wrapping_add(1);
    }
}


proof fn lemma_scaled_bound(level: int, factor: int)
    by (nonlinear_arith)
    requires
        -28 <= level <= 32,
        1 <= factor <= 8,
    ensures
        -256 <= level * factor <= 256,
{
}

proof fn lemma_lfsr_step(lfsr: u16)
    by (bit_vector)
    requires
        lfsr < 32768,
    ensures
        ({
            let res = !((lfsr & 1) ^ ((lfsr >> 1) & 1)) & 1;
            let wide = (lfsr & !(1u16 << 15)) | (res << 15);
            let narrow = (wide & !(1u16 << 7)) | (res << 7);
            let tap: u16 = if lfsr % 2 == (lfsr / 2) % 2 { 1 } else { 0 };
            let moved: u16 = (lfsr / 2) % 16384;
            &&& (wide >> 1) == moved + tap * 16384
            &&& (narrow >> 1) == moved + tap * 16384 - ((moved / 64) % 2) * 64 + tap * 64
            &&& (wide >> 1) < 32768
            &&& (narrow >> 1) < 32768
        }),
{
}

impl Apu {
    /// Drops the samples that were not fetched within the span of the
    /// longest instruction.
    #[verifier::opaque]
    pub open spec fn rewound(self) -> Apu {
        if self.delta_offset >= MAX_PENDING_CYCLES {
            Apu { delta_count: 0, delta_offset: 0, ..self }
        } else {
            self
        }
    }

    /// A length timer as a trigger leaves it: a spent timer is reloaded
    /// with `full`, and on an odd sequencer count it is stepped at once.
    pub open spec fn len_after_trigger(self, len_timer: u16, full: u16, len_enable: bool) -> u16 {
        let loaded = if len_timer == 0 { full } else { len_timer };
        if self.div % 2 == 1 {
            len_after_tick(loaded, len_enable)
        } else {
            loaded
        }
    }

    /// Whether a channel is on after a trigger.
    pub open spec fn on_after_trigger(self, len_timer: u16, full: u16, len_enable: bool) -> bool {
        let loaded = if len_timer == 0 { full } else { len_timer };
        if self.div % 2 == 1 {
            on_after_len_tick(loaded, len_enable, true)
        } else {
            true
        }
    }

    /// The first channel after a pending trigger was served: with its
    /// converter on, the channel restarts at the envelope's start volume
    /// and the first step of its pulse.
    #[verifier::opaque]
    pub open spec fn ch1_triggered(self) -> Apu {
        let c = self.ch_1;
        if c.vol_env.dac_on() && c.wavelen_ctrl.trigger {
            let len = c.wave_duty_len_timer.len_timer;
            let len_enable = c.wavelen_ctrl.len_enable;
            Apu {
                ch_1: Channel1 {
                    wavelen_ctrl: WavelenCtrl { trigger: false, ..c.wavelen_ctrl },
                    volume: c.vol_env.initial,
                    wave_idx: 0,
                    wave_duty_len_timer: WaveDutyTimerLen {
                        len_timer: self.len_after_trigger(len, 64, len_enable),
                        ..c.wave_duty_len_timer
                    },
                    ..c
                },
                sound_enable: SoundEnable {
                    channels: ChannelToggles {
                        ch_1: self.on_after_trigger(len, 64, len_enable),
                        ..self.sound_enable.channels
                    },
                    ..self.sound_enable
                },
                ..self
            }
        } else {
            self
        }
    }

    /// The second channel after a pending trigger was served.
    #[verifier::opaque]
    pub open spec fn ch2_triggered(self) -> Apu {
        let c = self.ch_2;
        if c.vol_env.dac_on() && c.wavelen_ctrl.trigger {
            let len = c.wave_duty_len_timer.len_timer;
            let len_enable = c.wavelen_ctrl.len_enable;
            Apu {
                ch_2: Channel2 {
                    wavelen_ctrl: WavelenCtrl { trigger: false, ..c.wavelen_ctrl },
                    volume: c.vol_env.initial,
                    wave_idx: 0,
                    wave_duty_len_timer: WaveDutyTimerLen {
                        len_timer: self.len_after_trigger(len, 64, len_enable),
                        ..c.wave_duty_len_timer
                    },
                    ..c
                },
                sound_enable: SoundEnable {
                    channels: ChannelToggles {
                        ch_2: self.on_after_trigger(len, 64, len_enable),
                        ..self.sound_enable.channels
                    },
                    ..self.sound_enable
                },
                ..self
            }
        } else {
            self
        }
    }

    /// The third channel after a pending trigger was served: playback
    /// restarts at the first sample.
    #[verifier::opaque]
    pub open spec fn ch3_triggered(self) -> Apu {
        let c = self.ch_3;
        if c.dac_enable && c.wavelen_ctrl.trigger {
            let len_enable = c.wavelen_ctrl.len_enable;
            Apu {
                ch_3: Channel3 {
                    wavelen_ctrl: WavelenCtrl { trigger: false, ..c.wavelen_ctrl },
                    wave_pattern_index: 0,
                    len_timer: self.len_after_trigger(c.len_timer, 256, len_enable),
                    ..c
                },
                sound_enable: SoundEnable {
                    channels: ChannelToggles {
                        ch_3: self.on_after_trigger(c.len_timer, 256, len_enable),
                        ..self.sound_enable.channels
                    },
                    ..self.sound_enable
                },
                ..self
            }
        } else {
            self
        }
    }

    /// The fourth channel after a pending trigger was served: the shift
    /// register and its clock start from zero.
    #[verifier::opaque]
    pub open spec fn ch4_triggered(self) -> Apu {
        let c = self.ch_4;
        if c.vol_env.dac_on() && c.trigger {
            Apu {
                ch_4: Channel4 {
                    trigger: false,
                    volume: c.vol_env.initial,
                    lfsr: 0,
                    cycles: 0,
                    len_timer: self.len_after_trigger(c.len_timer, 64, c.len_enable),
                    ..c
                },
                sound_enable: SoundEnable {
                    channels: ChannelToggles {
                        ch_4: self.on_after_trigger(c.len_timer, 64, c.len_enable),
                        ..self.sound_enable.channels
                    },
                    ..self.sound_enable
                },
                ..self
            }
        } else {
            self
        }
    }

    /// The first channel one machine cycle later: while on, its period
    /// counter runs up from the period value and each wrap at the
    /// maximum moves the pulse one step on.
    #[verifier::opaque]
    pub open spec fn ch1_clocked(self) -> Apu {
        let c = self.ch_1;
        if !self.sound_enable.channels.ch_1 {
            self
        } else if c.cycles + 1 == WAVELEN_MAX {
            Apu {
                ch_1: Channel1 {
                    cycles: c.wavelen_ctrl.wavelen,
                    wave_idx: ((c.wave_idx + 1) % 8) as usize,
                    ..c
                },
                ..self
            }
        } else {
            Apu { ch_1: Channel1 { cycles: (c.cycles + 1) as u16, ..c }, ..self }
        }
    }

    /// The second channel one machine cycle later.
    #[verifier::opaque]
    pub open spec fn ch2_clocked(self) -> Apu {
        let c = self.ch_2;
        if !self.sound_enable.channels.ch_2 {
            self
        } else if c.cycles + 1 == WAVELEN_MAX {
            Apu {
                ch_2: Channel2 {
                    cycles: c.wavelen_ctrl.wavelen,
                    wave_idx: ((c.wave_idx + 1) % 8) as usize,
                    ..c
                },
                ..self
            }
        } else {
            Apu { ch_2: Channel2 { cycles: (c.cycles + 1) as u16, ..c }, ..self }
        }
    }

    /// The third channel half a machine cycle later: each wrap of its
    /// period counter moves playback to the next of the 32 samples.
    #[verifier::opaque]
    pub open spec fn ch3_clocked(self) -> Apu {
        let c = self.ch_3;
        if !self.sound_enable.channels.ch_3 {
            self
        } else if c.cycles + 1 == WAVELEN_MAX {
            Apu {
                ch_3: Channel3 {
                    cycles: c.wavelen_ctrl.wavelen,
                    wave_pattern_index: ((c.wave_pattern_index + 1) % 32) as usize,
                    ..c
                },
                ..self
            }
        } else {
            Apu { ch_3: Channel3 { cycles: (c.cycles + 1) as u16, ..c }, ..self }
        }
    }

    /// The fourth channel one machine cycle later: four master cycles
    /// are added to its clock, and when that reaches the period the
    /// clock restarts and the shift register steps.
    #[verifier::opaque]
    pub open spec fn ch4_clocked(self) -> Apu {
        let c = self.ch_4;
        if !self.sound_enable.channels.ch_4 {
            self
        } else if c.cycles + 4 >= noise_period(c.freq_rand) {
            Apu {
                ch_4: Channel4 {
                    cycles: 0,
                    lfsr: lfsr_after_step(c.lfsr, c.freq_rand.lfsr_width) as u16,
                    ..c
                },
                ..self
            }
        } else {
            Apu { ch_4: Channel4 { cycles: (c.cycles + 4) as u32, ..c }, ..self }
        }
    }

    pub open spec fn ch1_level(self) -> int {
        if self.sound_enable.channels.ch_1 {
            level(
                self.ch_1.wave_duty_len_timer.wave_duty.high_at(self.ch_1.wave_idx as int),
                self.ch_1.volume,
            )
        } else {
            0
        }
    }

    pub open spec fn ch2_level(self) -> int {
        if self.sound_enable.channels.ch_2 {
            level(
                self.ch_2.wave_duty_len_timer.wave_duty.high_at(self.ch_2.wave_idx as int),
                self.ch_2.volume,
            )
        } else {
            0
        }
    }

    pub open spec fn ch3_level(self) -> int {
        if self.sound_enable.channels.ch_3 {
            8 - self.ch_3.output()
        } else {
            0
        }
    }

    pub open spec fn ch4_level(self) -> int {
        if self.sound_enable.channels.ch_4 {
            level(self.ch_4.lfsr % 2 == 1, self.ch_4.volume)
        } else {
            0
        }
    }

    /// The amplitude of one side: the levels of the channels panned to
    /// it, summed, times one more than the side's master volume, times 64.
    pub open spec fn side_amplitude(self, side: ChannelToggles, volume: u8) -> int {
        ((if side.ch_1 { self.ch1_level() } else { 0 })
            + (if side.ch_2 { self.ch2_level() } else { 0 })
            + (if side.ch_3 { self.ch3_level() } else { 0 })
            + (if side.ch_4 { self.ch4_level() } else { 0 })) * (volume + 1) * 64
    }

    /// The unit after one sample was mixed: both amplitudes are taken
    /// anew, a change on either side is recorded with the current
    /// offset, and the offset moves on by two master cycles.
    #[verifier::opaque]
    pub open spec fn mixed(self) -> Apu {
        let left = self.side_amplitude(self.sound_panning.left, self.master_vol_vin_pan.left_volume);
        let right = self.side_amplitude(
            self.sound_panning.right,
            self.master_vol_vin_pan.right_volume,
        );
        let delta_left = left - self.amplitude_left;
        let delta_right = right - self.amplitude_right;
        let at = self.delta_count as int;
        if delta_left != 0 || delta_right != 0 {
            Apu {
                amplitude_left: left as i32,
                amplitude_right: right as i32,
                left_deltas: vstd::array::spec_array_update(
                    self.left_deltas,
                    at,
                    delta_left as i32,
                ),
                right_deltas: vstd::array::spec_array_update(
                    self.right_deltas,
                    at,
                    delta_right as i32,
                ),
                delta_offsets: vstd::array::spec_array_update(
                    self.delta_offsets,
                    at,
                    self.delta_offset,
                ),
                delta_count: (self.delta_count + 1) as usize,
                delta_offset: (self.delta_offset + 2) as usize,
                ..self
            }
        } else {
            Apu { delta_offset: (self.delta_offset + 2) as usize, ..self }
        }
    }

    /// The unit one machine cycle later. Unfetched samples are dropped
    /// first. While powered, pending triggers are served, the pulse and
    /// noise channels are clocked once, and twice the wave channel is
    /// clocked and a sample mixed.
    pub open spec fn after_tick(self) -> Apu {
        let a = self.rewound();
        if !a.sound_enable.enable_apu {
            a
        } else {
            a.ch1_triggered().ch2_triggered().ch3_triggered().ch4_triggered().ch1_clocked()
                .ch2_clocked().ch4_clocked().ch3_clocked().mixed().ch3_clocked().mixed()
        }
    }

    /// What the steps between rewinding and mixing leave as it was.
    pub open spec fn same_queue(self, other: Apu) -> bool {
        &&& self.delta_offset == other.delta_offset
        &&& self.delta_count == other.delta_count
        &&& self.sound_enable.enable_apu == other.sound_enable.enable_apu
    }

    fn rewind(&mut self)
        requires
            old(self).wf(),
        ensures
            *final(self) == old(self).rewound(),
            final(self).wf(),
            final(self).delta_offset <= MAX_PENDING_CYCLES - 4,
    {
        reveal(Apu::rewound);
        if self.delta_offset >= MAX_PENDING_CYCLES {
            self.delta_count = 0;
            self.delta_offset = 0;
        }
    }

    fn trigger_ch1(&mut self)
        requires
            old(self).wf(),
        ensures
            *final(self) == old(self).ch1_triggered(),
            final(self).wf(),
            final(self).same_queue(*old(self)),
    {
        reveal(Apu::ch1_triggered);
        let mut c = self.ch_1;
        if c.vol_env.dac_enabled() && c.wavelen_ctrl.trigger {
            c.wavelen_ctrl.trigger = false;
            c.volume = c.vol_env.initial;
            c.wave_idx = 0;
            let loaded: u16 = if c.wave_duty_len_timer.len_timer == 0 { 64 } else { c.wave_duty_len_timer.len_timer };
            let (len, on) = if self.div % 2 == 1 {
                Self::tick_len(loaded, c.wavelen_ctrl.len_enable, true)
            } else {
                (loaded, true)
            };
            c.wave_duty_len_timer.len_timer = len;
            self.ch_1 = c;
            let mut channels = self.sound_enable.channels;
            channels.ch_1 = on;
            self.sound_enable.channels = channels;
        }
    }

    fn trigger_ch2(&mut self)
        requires
            old(self).wf(),
        ensures
            *final(self) == old(self).ch2_triggered(),
            final(self).wf(),
            final(self).same_queue(*old(self)),
    {
        reveal(Apu::ch2_triggered);
        let mut c = self.ch_2;
        if c.vol_env.dac_enabled() && c.wavelen_ctrl.trigger {
            c.wavelen_ctrl.trigger = false;
            c.volume = c.vol_env.initial;
            c.wave_idx = 0;
            let loaded: u16 = if c.wave_duty_len_timer.len_timer == 0 { 64 } else { c.wave_duty_len_timer.len_timer };
            let (len, on) = if self.div % 2 == 1 {
                Self::tick_len(loaded, c.wavelen_ctrl.len_enable, true)
            } else {
                (loaded, true)
            };
            c.wave_duty_len_timer.len_timer = len;
            self.ch_2 = c;
            let mut channels = self.sound_enable.channels;
            channels.ch_2 = on;
            self.sound_enable.channels = channels;
        }
    }

    fn trigger_ch3(&mut self)
        requires
            old(self).wf(),
        ensures
            *final(self) == old(self).ch3_triggered(),
            final(self).wf(),
            final(self).same_queue(*old(self)),
    {
        reveal(Apu::ch3_triggered);
        let mut c = self.ch_3;
        if c.dac_enable && c.wavelen_ctrl.trigger {
            c.wavelen_ctrl.trigger = false;
            c.wave_pattern_index = 0;
            let loaded: u16 = if c.len_timer == 0 { 256 } else { c.len_timer };
            let (len, on) = if self.div % 2 == 1 {
                Self::tick_len(loaded, c.wavelen_ctrl.len_enable, true)
            } else {
                (loaded, true)
            };
            c.len_timer = len;
            self.ch_3 = c;
            let mut channels = self.sound_enable.channels;
            channels.ch_3 = on;
            self.sound_enable.channels = channels;
        }
    }

    fn trigger_ch4(&mut self)
        requires
            old(self).wf(),
        ensures
            *final(self) == old(self).ch4_triggered(),
            final(self).wf(),
            final(self).same_queue(*old(self)),
    {
        reveal(Apu::ch4_triggered);
        let mut c = self.ch_4;
        if c.vol_env.dac_enabled() && c.trigger {
            c.trigger = false;
            c.volume = c.vol_env.initial;
            c.lfsr = 0;
            c.cycles = 0;
            let loaded: u16 = if c.len_timer == 0 { 64 } else { c.len_timer };
            let (len, on) = if self.div % 2 == 1 {
                Self::tick_len(loaded, c.len_enable, true)
            } else {
                (loaded, true)
            };
            c.len_timer = len;
            self.ch_4 = c;
            let mut channels = self.sound_enable.channels;
            channels.ch_4 = on;
            self.sound_enable.channels = channels;
        }
    }

    fn clock_ch1(&mut self) -> (amp: i32)
        requires
            old(self).wf(),
        ensures
            *final(self) == old(self).ch1_clocked(),
            amp == final(self).ch1_level(),
            -7 <= amp <= 8,
            final(self).wf(),
            final(self).same_queue(*old(self)),
    {
        reveal(Apu::ch1_clocked);
        if self.sound_enable.channels.ch_1 {
            let mut c = self.ch_1;
            c.cycles += 1;
            if c.cycles == WAVELEN_MAX {
                c.cycles = c.wavelen_ctrl.wavelen;
                c.wave_idx = (c.wave_idx + 1) % 8;
            }
            self.ch_1 = c;
            let waveform = c.wave_duty_len_timer.wave_duty.waveform();
            let val: i32 = if waveform[c.wave_idx] { c.volume as i32 } else { 0 };
            8 - val
        } else {
            0
        }
    }

    fn clock_ch2(&mut self) -> (amp: i32)
        requires
            old(self).wf(),
        ensures
            *final(self) == old(self).ch2_clocked(),
            amp == final(self).ch2_level(),
            -7 <= amp <= 8,
            final(self).wf(),
            final(self).same_queue(*old(self)),
            final(self).ch1_level() == old(self).ch1_level(),
    {
        reveal(Apu::ch2_clocked);
        if self.sound_enable.channels.ch_2 {
            let mut c = self.ch_2;
            c.cycles += 1;
            if c.cycles == WAVELEN_MAX {
                c.cycles = c.wavelen_ctrl.wavelen;
                c.wave_idx = (c.wave_idx + 1) % 8;
            }
            self.ch_2 = c;
            let waveform = c.wave_duty_len_timer.wave_duty.waveform();
            let val: i32 = if waveform[c.wave_idx] { c.volume as i32 } else { 0 };
            8 - val
        } else {
            0
        }
    }

    fn clock_ch4(&mut self) -> (amp: i32)
        requires
            old(self).wf(),
        ensures
            *final(self) == old(self).ch4_clocked(),
            amp == final(self).ch4_level(),
            -7 <= amp <= 8,
            final(self).wf(),
            final(self).same_queue(*old(self)),
            final(self).ch1_level() == old(self).ch1_level(),
            final(self).ch2_level() == old(self).ch2_level(),
    {
        reveal(Apu::ch4_clocked);
        if self.sound_enable.channels.ch_4 {
            let mut c = self.ch_4;
            let divisor: u32 = if c.freq_rand.clock_div == 0 {
                8
            } else {
                (c.freq_rand.clock_div * 16) as u32
            };
            let period: u32 = divisor << (c.freq_rand.clock_shift as u32);
            proof {
                lemma_noise_period_bound(divisor, c.freq_rand.clock_shift as u32);
                lemma_lfsr_step(c.lfsr);
            }
            c.cycles += 4;
            if c.cycles >= period {
                c.cycles = 0;
                let lfsr: u16 = c.lfsr;
                let res: u16 = !((lfsr & 1) ^ ((lfsr >> 1) & 1)) & 1;
                let wide: u16 = (lfsr & !(1u16 << 15)) | (res << 15);
                c.lfsr = match c.freq_rand.lfsr_width {
                    LfsrWidth::B15 => wide >> 1,
                    LfsrWidth::B7 => ((wide & !(1u16 << 7)) | (res << 7)) >> 1,
                };
            }
            self.ch_4 = c;
            let val: i32 = if c.lfsr % 2 == 1 { c.volume as i32 } else { 0 };
            8 - val
        } else {
            0
        }
    }

    fn clock_ch3(&mut self) -> (amp: i32)
        requires
            old(self).wf_sampling(),
        ensures
            *final(self) == old(self).ch3_clocked(),
            amp == final(self).ch3_level(),
            -7 <= amp <= 8,
            final(self).wf_sampling(),
            final(self).same_queue(*old(self)),
            final(self).ch1_level() == old(self).ch1_level(),
            final(self).ch2_level() == old(self).ch2_level(),
            final(self).ch4_level() == old(self).ch4_level(),
    {
        reveal(Apu::ch3_clocked);
        if self.sound_enable.channels.ch_3 {
            let mut c = self.ch_3;
            c.cycles += 1;
            if c.cycles == WAVELEN_MAX {
                c.cycles = c.wavelen_ctrl.wavelen;
                c.wave_pattern_index = (c.wave_pattern_index + 1) % 32;
            }
            self.ch_3 = c;
            let byte: u8 = c.wave_pattern[c.wave_pattern_index / 2];
            let sample: u8 = if c.wave_pattern_index % 2 == 0 { byte / 16 } else { byte % 16 };
            let out: u8 = if c.out_level == 0 {
                0
            } else if c.out_level == 1 {
                sample
            } else if c.out_level == 2 {
                sample / 2
            } else {
                sample / 4
            };
            8 - out as i32
        } else {
            0
        }
    }

    fn pan(side: &ChannelToggles, amp_1: i32, amp_2: i32, amp_3: i32, amp_4: i32, volume: u8) -> (r:
        i32)
        requires
            -7 <= amp_1 <= 8,
            -7 <= amp_2 <= 8,
            -7 <= amp_3 <= 8,
            -7 <= amp_4 <= 8,
            volume <= 7,
        ensures
            r == ((if side.ch_1 { amp_1 as int } else { 0 }) + (if side.ch_2 { amp_2 as int } else { 0 })
                + (if side.ch_3 { amp_3 as int } else { 0 }) + (if side.ch_4 { amp_4 as int } else { 0 }))
                * (volume + 1) * 64,
            -16384 <= r <= 16384,
    {
        let sum: i32 = (if side.ch_1 { amp_1 } else { 0 }) + (if side.ch_2 { amp_2 } else { 0 }) + (
        if side.ch_3 { amp_3 } else { 0 }) + (if side.ch_4 { amp_4 } else { 0 });
        let factor: i32 = volume as i32 + 1;
        proof {
            lemma_scaled_bound(sum as int, factor as int);
        }
        sum * factor * 64
    }

    fn mix(&mut self, amp_1: i32, amp_2: i32, amp_3: i32, amp_4: i32)
        requires
            old(self).wf_sampling(),
            old(self).delta_offset <= MAX_PENDING_CYCLES - 2,
            amp_1 == old(self).ch1_level(),
            amp_2 == old(self).ch2_level(),
            amp_3 == old(self).ch3_level(),
            amp_4 == old(self).ch4_level(),
            -7 <= amp_1 <= 8,
            -7 <= amp_2 <= 8,
            -7 <= amp_3 <= 8,
            -7 <= amp_4 <= 8,
        ensures
            *final(self) == old(self).mixed(),
            final(self).wf_sampling(),
            final(self).delta_offset == old(self).delta_offset + 2,
            final(self).ch1_level() == old(self).ch1_level(),
            final(self).ch2_level() == old(self).ch2_level(),
            final(self).ch4_level() == old(self).ch4_level(),
    {
        reveal(Apu::mixed);
        let left: i32 = Self::pan(
            &self.sound_panning.left,
            amp_1,
            amp_2,
            amp_3,
            amp_4,
            self.master_vol_vin_pan.left_volume,
        );
        let right: i32 = Self::pan(
            &self.sound_panning.right,
            amp_1,
            amp_2,
            amp_3,
            amp_4,
            self.master_vol_vin_pan.right_volume,
        );
        let delta_left: i32 = left - self.amplitude_left;
        let delta_right: i32 = right - self.amplitude_right;
        self.amplitude_left = left;
        self.amplitude_right = right;
        if delta_left != 0 || delta_right != 0 {
            self.left_deltas[self.delta_count] = delta_left;
            self.right_deltas[self.delta_count] = delta_right;
            self.delta_offsets[self.delta_count] = self.delta_offset;
            self.delta_count += 1;
        }
        self.delta_offset += 2;
    }

    /// Advances the unit by one machine cycle.
    pub fn tick(&mut self)
        requires
            old(self).wf(),
        ensures
            *final(self) == old(self).after_tick(),
            final(self).wf(),
    {
        self.rewind();
        if !self.sound_enable.enable_apu {
            return ;
        }
        self.trigger_ch1();
        self.trigger_ch2();
        self.trigger_ch3();
        self.trigger_ch4();
        let amp_1 = self.clock_ch1();
        let amp_2 = self.clock_ch2();
        let amp_4 = self.clock_ch4();
        let amp_3 = self.clock_ch3();
        self.mix(amp_1, amp_2, amp_3, amp_4);
        let amp_3 = self.clock_ch3();
        self.mix(amp_1, amp_2, amp_3, amp_4);
    }
}


pub const CH1_SWEEP_ADDRESS: u16 = 0xFF10;

pub const CH1_WAVE_DUTY_TIMER_LEN_ADDRESS: u16 = 0xFF11;

pub const CH1_VOLUME_ENVELOPE_ADDRESS: u16 = 0xFF12;

pub const CH1_WAVELEN_LOW_ADDRESS: u16 = 0xFF13;

pub const CH1_WAVELEN_HIGH_CTRL_ADDRESS: u16 = 0xFF14;

pub const CH2_UNUSED_ADDRESS: u16 = 0xFF15;

pub const CH2_WAVE_DUTY_TIMER_LEN_ADDRESS: u16 = 0xFF16;

pub const CH2_VOLUME_ENVELOPE_ADDRESS: u16 = 0xFF17;

pub const CH2_WAVELEN_LOW_ADDRESS: u16 = 0xFF18;

pub const CH2_WAVELEN_HIGH_CTRL_ADDRESS: u16 = 0xFF19;

pub const CH3_ENABLE_ADDRESS: u16 = 0xFF1A;

pub const CH3_LEN_TIMER_ADDRESS: u16 = 0xFF1B;

pub const CH3_OUT_LEVEL_ADDRESS: u16 = 0xFF1C;

pub const CH3_WAVELEN_LOW_ADDRESS: u16 = 0xFF1D;

pub const CH3_WAVELEN_HIGH_CTRL_ADDRESS: u16 = 0xFF1E;

pub const CH4_UNUSED_ADDRESS: u16 = 0xFF1F;

pub const CH4_LEN_TIMER_ADDRESS: u16 = 0xFF20;

pub const CH4_VOLUME_ENVELOPE_ADDRESS: u16 = 0xFF21;

pub const CH4_FREQ_RAND_ADDRESS: u16 = 0xFF22;

pub const CH4_CTRL_ADDRESS: u16 = 0xFF23;

pub const MASTER_VOL_VIN_PAN_ADDRESS: u16 = 0xFF24;

pub const SOUND_PANNING_ADDRESS: u16 = 0xFF25;

pub const SOUND_ENABLE_ADDRESS: u16 = 0xFF26;

pub const UNUSED_START_ADDRESS: u16 = 0xFF27;

pub const UNUSED_END_ADDRESS: u16 = 0xFF2F;

pub const CH3_WAVE_PATTERN_START_ADDRESS: u16 = 0xFF30;

pub const CH3_WAVE_PATTERN_END_ADDRESS: u16 = 0xFF3F;

impl Channel1 {
    /// The channel after `value` was written to its register at
    /// `address`; other addresses leave it as it is.
    pub open spec fn written(self, address: u16, value: u8) -> Self {
        if address == CH1_SWEEP_ADDRESS {
            Channel1 { sweep: Sweep::of_byte(value), ..self }
        } else if address == CH1_WAVE_DUTY_TIMER_LEN_ADDRESS {
            Channel1 { wave_duty_len_timer: WaveDutyTimerLen::of_byte(value), ..self }
        } else if address == CH1_VOLUME_ENVELOPE_ADDRESS {
            Channel1 { vol_env: VolumeEnvelope::of_byte(value), ..self }
        } else if address == CH1_WAVELEN_LOW_ADDRESS {
            Channel1 { wavelen_ctrl: self.wavelen_ctrl.with_low(value), ..self }
        } else if address == CH1_WAVELEN_HIGH_CTRL_ADDRESS {
            Channel1 { wavelen_ctrl: self.wavelen_ctrl.with_high_ctrl(value), ..self }
        } else {
            self
        }
    }

    pub fn write(&mut self, address: u16, value: u8)
        requires
            old(self).wf(),
        ensures
            *final(self) == old(self).written(address, value),
            final(self).wf(),
    {
        match address {
            CH1_SWEEP_ADDRESS => self.sweep.set_value(value),
            CH1_WAVE_DUTY_TIMER_LEN_ADDRESS => self.wave_duty_len_timer.set_value(value),
            CH1_VOLUME_ENVELOPE_ADDRESS => self.vol_env.set_value(value),
            CH1_WAVELEN_LOW_ADDRESS => self.wavelen_ctrl.set_value_wavelen_l(value),
            CH1_WAVELEN_HIGH_CTRL_ADDRESS => self.wavelen_ctrl.set_value_wavelen_h_ctrl(value),
            _ => {},
        }
    }
}

impl Channel2 {
    /// The channel after `value` was written to its register at
    /// `address`; other addresses leave it as it is.
    pub open spec fn written(self, address: u16, value: u8) -> Self {
        if address == CH2_WAVE_DUTY_TIMER_LEN_ADDRESS {
            Channel2 { wave_duty_len_timer: WaveDutyTimerLen::of_byte(value), ..self }
        } else if address == CH2_VOLUME_ENVELOPE_ADDRESS {
            Channel2 { vol_env: VolumeEnvelope::of_byte(value), ..self }
        } else if address == CH2_WAVELEN_LOW_ADDRESS {
            Channel2 { wavelen_ctrl: self.wavelen_ctrl.with_low(value), ..self }
        } else if address == CH2_WAVELEN_HIGH_CTRL_ADDRESS {
            Channel2 { wavelen_ctrl: self.wavelen_ctrl.with_high_ctrl(value), ..self }
        } else {
            self
        }
    }

    pub fn write(&mut self, address: u16, value: u8)
        requires
            old(self).wf(),
        ensures
            *final(self) == old(self).written(address, value),
            final(self).wf(),
    {
        match address {
            CH2_WAVE_DUTY_TIMER_LEN_ADDRESS => self.wave_duty_len_timer.set_value(value),
            CH2_VOLUME_ENVELOPE_ADDRESS => self.vol_env.set_value(value),
            CH2_WAVELEN_LOW_ADDRESS => self.wavelen_ctrl.set_value_wavelen_l(value),
            CH2_WAVELEN_HIGH_CTRL_ADDRESS => self.wavelen_ctrl.set_value_wavelen_h_ctrl(value),
            _ => {},
        }
    }
}

impl Channel3 {
    /// The channel after `value` was written to its register or wave
    /// memory byte at `address`; other addresses leave it as it is.
    pub open spec fn written(self, address: u16, value: u8) -> Self {
        if address == CH3_ENABLE_ADDRESS {
            Channel3 { dac_enable: value >= 128, ..self }
        } else if address == CH3_LEN_TIMER_ADDRESS {
            Channel3 { len_timer: (256 - value) as u16, ..self }
        } else if address == CH3_OUT_LEVEL_ADDRESS {
            Channel3 { out_level: (value / 32) % 4, ..self }
        } else if address == CH3_WAVELEN_LOW_ADDRESS {
            Channel3 { wavelen_ctrl: self.wavelen_ctrl.with_low(value), ..self }
        } else if address == CH3_WAVELEN_HIGH_CTRL_ADDRESS {
            Channel3 { wavelen_ctrl: self.wavelen_ctrl.with_high_ctrl(value), ..self }
        } else if CH3_WAVE_PATTERN_START_ADDRESS <= address <= CH3_WAVE_PATTERN_END_ADDRESS {
            Channel3 {
                wave_pattern: vstd::array::spec_array_update(
                    self.wave_pattern,
                    address as int - CH3_WAVE_PATTERN_START_ADDRESS,
                    value,
                ),
                ..self
            }
        } else {
            self
        }
    }

    pub fn write(&mut self, address: u16, value: u8)
        requires
            old(self).wf(),
        ensures
            *final(self) == old(self).written(address, value),
            final(self).wf(),
    {
        match address {
            CH3_ENABLE_ADDRESS => self.dac_enable = value >= 128,
            CH3_LEN_TIMER_ADDRESS => self.len_timer = 256 - value as u16,
            CH3_OUT_LEVEL_ADDRESS => self.out_level = (value / 32) % 4,
            CH3_WAVELEN_LOW_ADDRESS => self.wavelen_ctrl.set_value_wavelen_l(value),
            CH3_WAVELEN_HIGH_CTRL_ADDRESS => self.wavelen_ctrl.set_value_wavelen_h_ctrl(value),
            CH3_WAVE_PATTERN_START_ADDRESS..=CH3_WAVE_PATTERN_END_ADDRESS => {
                self.wave_pattern[(address - CH3_WAVE_PATTERN_START_ADDRESS) as usize] = value;
            },
            _ => {},
        }
    }
}

impl Channel4 {
    /// The channel after `value` was written to its register at
    /// `address`; other addresses leave it as it is.
    pub open spec fn written(self, address: u16, value: u8) -> Self {
        if address == CH4_LEN_TIMER_ADDRESS {
            Channel4 { len_timer: (64 - value % 64) as u16, ..self }
        } else if address == CH4_VOLUME_ENVELOPE_ADDRESS {
            Channel4 { vol_env: VolumeEnvelope::of_byte(value), ..self }
        } else if address == CH4_FREQ_RAND_ADDRESS {
            Channel4 { freq_rand: FreqRand::of_byte(value), ..self }
        } else if address == CH4_CTRL_ADDRESS {
            Channel4 { trigger: value >= 128, len_enable: (value / 64) % 2 == 1, ..self }
        } else {
            self
        }
    }

    pub fn write(&mut self, address: u16, value: u8)
        requires
            old(self).wf(),
        ensures
            *final(self) == old(self).written(address, value),
            final(self).wf(),
    {
        match address {
            CH4_LEN_TIMER_ADDRESS => self.len_timer = 64 - (value % 64) as u16,
            CH4_VOLUME_ENVELOPE_ADDRESS => self.vol_env.set_value(value),
            CH4_FREQ_RAND_ADDRESS => self.freq_rand.set_value(value),
            CH4_CTRL_ADDRESS => {
                self.trigger = value >= 128;
                self.len_enable = (value / 64) % 2 == 1;
            },
            _ => {},
        }
    }
}

impl Apu {
    /// Whether `address` is one of the unit's registers or wave memory.
    pub open spec fn maps(address: u16) -> bool {
        CH1_SWEEP_ADDRESS <= address <= CH3_WAVE_PATTERN_END_ADDRESS
    }

    /// Whether a write to `address` is taken while the unit is off.
    pub open spec fn writable_when_off(address: u16) -> bool {
        address == SOUND_ENABLE_ADDRESS || CH3_WAVE_PATTERN_START_ADDRESS <= address
            <= CH3_WAVE_PATTERN_END_ADDRESS
    }

    /// The unit with the master switch off: sequencer count, channel
    /// flags, volume and panning are cleared, and so is each channel but
    /// for its length timer and the wave memory.
    #[verifier::opaque]
    pub open spec fn powered_off(self) -> Apu {
        Apu {
            sound_enable: SoundEnable { enable_apu: false, channels: ChannelToggles::none() },
            div: 0,
            ch_1: Channel1::cleared(self.ch_1.wave_duty_len_timer.len_timer),
            ch_2: Channel2::cleared(self.ch_2.wave_duty_len_timer.len_timer),
            ch_3: Channel3::cleared(self.ch_3.len_timer, self.ch_3.wave_pattern),
            ch_4: Channel4::cleared(self.ch_4.len_timer),
            master_vol_vin_pan: MasterVolVinPan::of_byte(0),
            sound_panning: SoundPanning::of_byte(0),
            ..self
        }
    }

    /// The channel flags after a write: clearing the converter of a
    /// channel clears its flag.
    pub open spec fn flags_after_write(self, address: u16, value: u8) -> ChannelToggles {
        let on = self.sound_enable.channels;
        ChannelToggles {
            ch_1: on.ch_1 && !(address == CH1_VOLUME_ENVELOPE_ADDRESS && !VolumeEnvelope::of_byte(
                value,
            ).dac_on()),
            ch_2: on.ch_2 && !(address == CH2_VOLUME_ENVELOPE_ADDRESS && !VolumeEnvelope::of_byte(
                value,
            ).dac_on()),
            ch_3: on.ch_3 && !(address == CH3_ENABLE_ADDRESS && value < 128),
            ch_4: on.ch_4 && !(address == CH4_VOLUME_ENVELOPE_ADDRESS && !VolumeEnvelope::of_byte(
                value,
            ).dac_on()),
        }
    }

    /// The unit after `value` was written to `address`. While the unit
    /// is off only the master switch and the wave memory take writes.
    #[verifier::opaque]
    pub open spec fn after_write(self, address: u16, value: u8) -> Apu {
        if !self.sound_enable.enable_apu && !Self::writable_when_off(address) {
            self
        } else if address == SOUND_ENABLE_ADDRESS {
            if value >= 128 {
                Apu { sound_enable: SoundEnable { enable_apu: true, ..self.sound_enable }, ..self }
            } else {
                self.powered_off()
            }
        } else if address == MASTER_VOL_VIN_PAN_ADDRESS {
            Apu { master_vol_vin_pan: MasterVolVinPan::of_byte(value), ..self }
        } else if address == SOUND_PANNING_ADDRESS {
            Apu { sound_panning: SoundPanning::of_byte(value), ..self }
        } else {
            Apu {
                ch_1: self.ch_1.written(address, value),
                ch_2: self.ch_2.written(address, value),
                ch_3: self.ch_3.written(address, value),
                ch_4: self.ch_4.written(address, value),
                sound_enable: SoundEnable {
                    channels: self.flags_after_write(address, value),
                    ..self.sound_enable
                },
                ..self
            }
        }
    }

    fn power_off(&mut self)
        requires
            old(self).wf(),
        ensures
            *final(self) == old(self).powered_off(),
            final(self).wf(),
    {
        reveal(Apu::powered_off);
        self.sound_enable = SoundEnable { enable_apu: false, channels: ChannelToggles::new() };
        self.div = 0;
        let mut c1 = self.ch_1;
        c1.reset();
        self.ch_1 = c1;
        let mut c2 = self.ch_2;
        c2.reset();
        self.ch_2 = c2;
        let mut c3 = self.ch_3;
        c3.reset();
        self.ch_3 = c3;
        let mut c4 = self.ch_4;
        c4.reset();
        self.ch_4 = c4;
        let mut volume = self.master_vol_vin_pan;
        volume.set_value(0);
        self.master_vol_vin_pan = volume;
        let mut panning = self.sound_panning;
        panning.set_value(0);
        self.sound_panning = panning;
    }

    /// Writes `value` to the register or wave memory byte at `address`.
    pub fn write(&mut self, address: u16, value: u8)
        requires
            old(self).wf(),
        ensures
            *final(self) == old(self).after_write(address, value),
            final(self).wf(),
    {
        reveal(Apu::after_write);
        let wave = CH3_WAVE_PATTERN_START_ADDRESS <= address && address
            <= CH3_WAVE_PATTERN_END_ADDRESS;
        if !self.sound_enable.enable_apu && address != SOUND_ENABLE_ADDRESS && !wave {
            return ;
        }
        if address == SOUND_ENABLE_ADDRESS {
            if value >= 128 {
                let mut status = self.sound_enable;
                status.enable_apu = true;
                self.sound_enable = status;
            } else {
                self.power_off();
            }
        } else if address == MASTER_VOL_VIN_PAN_ADDRESS {
            let mut volume = self.master_vol_vin_pan;
            volume.set_value(value);
            self.master_vol_vin_pan = volume;
        } else if address == SOUND_PANNING_ADDRESS {
            let mut panning = self.sound_panning;
            panning.set_value(value);
            self.sound_panning = panning;
        } else {
            let mut c1 = self.ch_1;
            c1.write(address, value);
            let mut c2 = self.ch_2;
            c2.write(address, value);
            let mut c3 = self.ch_3;
            c3.write(address, value);
            let mut c4 = self.ch_4;
            c4.write(address, value);
            let mut status = self.sound_enable;
            if address == CH1_VOLUME_ENVELOPE_ADDRESS && !c1.vol_env.dac_enabled() {
                status.channels.ch_1 = false;
            }
            if address == CH2_VOLUME_ENVELOPE_ADDRESS && !c2.vol_env.dac_enabled() {
                status.channels.ch_2 = false;
            }
            if address == CH3_ENABLE_ADDRESS && !c3.dac_enable {
                status.channels.ch_3 = false;
            }
            if address == CH4_VOLUME_ENVELOPE_ADDRESS && !c4.vol_env.dac_enabled() {
                status.channels.ch_4 = false;
            }
            self.ch_1 = c1;
            self.ch_2 = c2;
            self.ch_3 = c3;
            self.ch_4 = c4;
            self.sound_enable = status;
        }
    }

    /// What a register reads as while each of its readable bits is
    /// zero: the bits that hold nothing readable are fixed to one.
    pub open spec fn idle_byte(address: u16) -> int {
        if address == CH1_SWEEP_ADDRESS {
            0x80
        } else if address == CH1_WAVE_DUTY_TIMER_LEN_ADDRESS || address
            == CH2_WAVE_DUTY_TIMER_LEN_ADDRESS {
            0x3F
        } else if address == CH1_WAVELEN_HIGH_CTRL_ADDRESS || address
            == CH2_WAVELEN_HIGH_CTRL_ADDRESS || address == CH3_WAVELEN_HIGH_CTRL_ADDRESS || address
            == CH4_CTRL_ADDRESS {
            0xBF
        } else if address == CH3_ENABLE_ADDRESS {
            0x7F
        } else if address == CH3_OUT_LEVEL_ADDRESS {
            0x9F
        } else if address == SOUND_ENABLE_ADDRESS {
            0x70
        } else if address == CH1_VOLUME_ENVELOPE_ADDRESS || address == CH2_VOLUME_ENVELOPE_ADDRESS
            || address == CH4_VOLUME_ENVELOPE_ADDRESS || address == CH4_FREQ_RAND_ADDRESS || address
            == MASTER_VOL_VIN_PAN_ADDRESS || address == SOUND_PANNING_ADDRESS {
            0
        } else {
            0xFF
        }
    }

    /// What a read of `address` returns.
    #[verifier::opaque]
    pub open spec fn read_value(self, address: u16) -> int {
        if address == CH1_SWEEP_ADDRESS {
            self.ch_1.sweep.byte()
        } else if address == CH1_WAVE_DUTY_TIMER_LEN_ADDRESS {
            self.ch_1.wave_duty_len_timer.byte()
        } else if address == CH1_VOLUME_ENVELOPE_ADDRESS {
            self.ch_1.vol_env.byte()
        } else if address == CH1_WAVELEN_HIGH_CTRL_ADDRESS {
            self.ch_1.wavelen_ctrl.ctrl_byte()
        } else if address == CH2_WAVE_DUTY_TIMER_LEN_ADDRESS {
            self.ch_2.wave_duty_len_timer.byte()
        } else if address == CH2_VOLUME_ENVELOPE_ADDRESS {
            self.ch_2.vol_env.byte()
        } else if address == CH2_WAVELEN_HIGH_CTRL_ADDRESS {
            self.ch_2.wavelen_ctrl.ctrl_byte()
        } else if address == CH3_ENABLE_ADDRESS {
            flag(self.ch_3.dac_enable) * 128 + 0x7F
        } else if address == CH3_OUT_LEVEL_ADDRESS {
            0x9F + self.ch_3.out_level * 32
        } else if address == CH3_WAVELEN_HIGH_CTRL_ADDRESS {
            self.ch_3.wavelen_ctrl.ctrl_byte()
        } else if CH3_WAVE_PATTERN_START_ADDRESS <= address <= CH3_WAVE_PATTERN_END_ADDRESS {
            self.ch_3.wave_pattern[address as int - CH3_WAVE_PATTERN_START_ADDRESS] as int
        } else if address == CH4_VOLUME_ENVELOPE_ADDRESS {
            self.ch_4.vol_env.byte()
        } else if address == CH4_FREQ_RAND_ADDRESS {
            self.ch_4.freq_rand.byte()
        } else if address == CH4_CTRL_ADDRESS {
            0xBF + flag(self.ch_4.len_enable) * 64
        } else if address == MASTER_VOL_VIN_PAN_ADDRESS {
            self.master_vol_vin_pan.byte()
        } else if address == SOUND_PANNING_ADDRESS {
            self.sound_panning.byte()
        } else if address == SOUND_ENABLE_ADDRESS {
            self.sound_enable.byte()
        } else {
            0xFF
        }
    }

    /// Reads the register or wave memory byte at `address`.
    pub fn read(&self, address: u16) -> (r: u8)
        requires
            self.wf(),
        ensures
            r as int == self.read_value(address),
    {
        reveal(Apu::read_value);
        match address {
            CH1_SWEEP_ADDRESS => self.ch_1.sweep.value(),
            CH1_WAVE_DUTY_TIMER_LEN_ADDRESS => self.ch_1.wave_duty_len_timer.value(),
            CH1_VOLUME_ENVELOPE_ADDRESS => self.ch_1.vol_env.value(),
            CH1_WAVELEN_HIGH_CTRL_ADDRESS => self.ch_1.wavelen_ctrl.value_ctrl(),
            CH2_WAVE_DUTY_TIMER_LEN_ADDRESS => self.ch_2.wave_duty_len_timer.value(),
            CH2_VOLUME_ENVELOPE_ADDRESS => self.ch_2.vol_env.value(),
            CH2_WAVELEN_HIGH_CTRL_ADDRESS => self.ch_2.wavelen_ctrl.value_ctrl(),
            CH3_ENABLE_ADDRESS => bit(self.ch_3.dac_enable) * 128 + 0x7F,
            CH3_OUT_LEVEL_ADDRESS => 0x9F + self.ch_3.out_level * 32,
            CH3_WAVELEN_HIGH_CTRL_ADDRESS => self.ch_3.wavelen_ctrl.value_ctrl(),
            CH3_WAVE_PATTERN_START_ADDRESS..=CH3_WAVE_PATTERN_END_ADDRESS => {
                self.ch_3.wave_pattern[(address - CH3_WAVE_PATTERN_START_ADDRESS) as usize]
            },
            CH4_VOLUME_ENVELOPE_ADDRESS => self.ch_4.vol_env.value(),
            CH4_FREQ_RAND_ADDRESS => self.ch_4.freq_rand.value(),
            CH4_CTRL_ADDRESS => 0xBF + bit(self.ch_4.len_enable) * 64,
            MASTER_VOL_VIN_PAN_ADDRESS => self.master_vol_vin_pan.value(),
            SOUND_PANNING_ADDRESS => self.sound_panning.value(),
            SOUND_ENABLE_ADDRESS => self.sound_enable.value(),
            _ => 0xFF,
        }
    }

    /// The unit with its record of amplitude changes emptied.
    pub open spec fn drained(self) -> Apu {
        Apu { delta_count: 0, delta_offset: 0, ..self }
    }

    /// The amplitude changes on record.
    pub open spec fn pending(self) -> Deltas {
        Deltas {
            left: self.left_deltas,
            right: self.right_deltas,
            offsets: self.delta_offsets,
            count: self.delta_count,
        }
    }

    /// Hands out the amplitude changes recorded since the last call and
    /// starts a new record.
    pub fn deltas(&mut self) -> (r: Deltas)
        requires
            old(self).wf(),
        ensures
            r == old(self).pending(),
            r.count <= DELTA_CAPACITY,
            *final(self) == old(self).drained(),
            final(self).wf(),
    {
        let r = Deltas {
            left: self.left_deltas,
            right: self.right_deltas,
            offsets: self.delta_offsets,
            count: self.delta_count,
        };
        self.delta_count = 0;
        self.delta_offset = 0;
        r
    }

    /// Switching the unit off clears every register below the status
    /// register, so that each reads as its idle byte, and leaves the
    /// wave memory as it was.
    pub proof fn lemma_power_off_clears_registers(self, value: u8, address: u16)
        requires
            self.wf(),
            value < 128,
            Self::maps(address),
        ensures
            address < SOUND_ENABLE_ADDRESS ==> self.after_write(
                SOUND_ENABLE_ADDRESS,
                value,
            ).read_value(address) == Self::idle_byte(address),
            address >= CH3_WAVE_PATTERN_START_ADDRESS ==> self.after_write(
                SOUND_ENABLE_ADDRESS,
                value,
            ).read_value(address) == self.read_value(address),
    {
        reveal(Apu::after_write);
        reveal(Apu::powered_off);
        reveal(Apu::read_value);
    }

    /// While the unit is off, a write below the status register changes
    /// nothing.
    pub proof fn lemma_off_ignores_writes(self, address: u16, value: u8)
        requires
            !self.sound_enable.enable_apu,
            !Self::writable_when_off(address),
        ensures
            self.after_write(address, value) == self,
    {
        reveal(Apu::after_write);
    }
}


impl Apu {
    /// Whether the unit is well formed, for a state that comes from
    /// outside.
    pub fn is_wf(&self) -> (r: bool)
        ensures
            r == self.wf(),
    {
        let c1 = &self.ch_1;
        let c2 = &self.ch_2;
        let c3 = &self.ch_3;
        let c4 = &self.ch_4;
        let queue = self.delta_offset % 4 == 0 && self.delta_offset <= MAX_PENDING_CYCLES
            && self.delta_count <= self.delta_offset / 2;
        let volume = self.master_vol_vin_pan.left_volume <= 7 && self.master_vol_vin_pan.right_volume
            <= 7;
        let first = c1.cycles < WAVELEN_MAX && c1.wave_idx < 8 && c1.volume <= 15 && c1.sweep.pace
            <= 7 && c1.sweep.slope_ctrl <= 7 && c1.wave_duty_len_timer.len_timer <= 64
            && c1.vol_env.initial <= 15 && c1.vol_env.pace <= 7 && c1.wavelen_ctrl.wavelen < 2048;
        let second = c2.cycles < WAVELEN_MAX && c2.wave_idx < 8 && c2.volume <= 15
            && c2.wave_duty_len_timer.len_timer <= 64 && c2.vol_env.initial <= 15 && c2.vol_env.pace
            <= 7 && c2.wavelen_ctrl.wavelen < 2048;
        let third = c3.cycles < WAVELEN_MAX && c3.len_timer <= 256 && c3.out_level <= 3
            && c3.wavelen_ctrl.wavelen < 2048 && c3.wave_pattern_index < 32;
        let fourth = c4.cycles < NOISE_PERIOD_MAX && c4.len_timer <= 64 && c4.volume <= 15
            && c4.vol_env.initial <= 15 && c4.vol_env.pace <= 7 && c4.freq_rand.clock_shift <= 15
            && c4.freq_rand.clock_div <= 7 && c4.lfsr < 32768;
        let amplitudes = -16384 <= self.amplitude_left && self.amplitude_left <= 16384 && -16384
            <= self.amplitude_right && self.amplitude_right <= 16384;
        queue && volume && first && second && third && fourth && amplitudes
    }
}


impl Apu {
    /// The unit after the first channel was clocked `count` times.
    pub open spec fn ch1_clocks(self, count: nat) -> Apu
        decreases count,
    {
        if count == 0 {
            self
        } else {
            self.ch1_clocks((count - 1) as nat).ch1_clocked()
        }
    }

    /// A step of the pulse takes 2048 less the period value machine
    /// cycles: once the period counter was reloaded, the pulse holds
    /// its step for that many clocks less one, and the last of them
    /// moves it on and reloads the counter.
    pub proof fn lemma_pulse_step_length(self, count: nat)
        requires
            self.sound_enable.channels.ch_1,
            self.ch_1.wavelen_ctrl.wavelen < WAVELEN_MAX,
            self.ch_1.cycles == self.ch_1.wavelen_ctrl.wavelen,
            self.ch_1.wave_idx < 8,
            count <= WAVELEN_MAX - self.ch_1.wavelen_ctrl.wavelen,
        ensures
            ({
                let after = self.ch1_clocks(count).ch_1;
                let last = count == WAVELEN_MAX - self.ch_1.wavelen_ctrl.wavelen;
                &&& self.ch1_clocks(count).sound_enable == self.sound_enable
                &&& after.wavelen_ctrl == self.ch_1.wavelen_ctrl
                &&& after.cycles == (if last { self.ch_1.cycles as int } else { self.ch_1.cycles + count })
                &&& after.wave_idx == (if last {
                    (self.ch_1.wave_idx + 1) % 8
                } else {
                    self.ch_1.wave_idx as int
                })
            }),
        decreases count,
    {
        reveal(Apu::ch1_clocked);
        if count > 0 {
            self.lemma_pulse_step_length((count - 1) as nat);
        }
    }
}

} // verus!
