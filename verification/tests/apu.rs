use oxidegb::gameboy::apu::{
    Apu, ChannelToggles, EnvelopeDir, FreqRand, LfsrWidth, MasterVolVinPan, SoundPanning, Sweep,
    SweepOp, VolumeEnvelope, WaveDuty, WaveDutyTimerLen, WavelenCtrl,
};

fn powered() -> Apu {
    let mut apu = Apu::new();
    apu.write(0xFF26, 0x80);
    apu
}

#[test]
fn registers_read_back_with_their_unused_bits_set() {
    let mut apu = powered();
    let cases: [(u16, u8, u8); 17] = [
        (0xFF10, 0x00, 0x80),
        (0xFF11, 0x80, 0xBF),
        (0xFF12, 0xA5, 0xA5),
        (0xFF13, 0x12, 0xFF),
        (0xFF14, 0x40, 0xFF),
        (0xFF16, 0x40, 0x7F),
        (0xFF17, 0x3C, 0x3C),
        (0xFF19, 0x00, 0xBF),
        (0xFF1A, 0x80, 0xFF),
        (0xFF1B, 0x55, 0xFF),
        (0xFF1C, 0x40, 0xDF),
        (0xFF1E, 0x40, 0xFF),
        (0xFF21, 0x91, 0x91),
        (0xFF22, 0xAB, 0xAB),
        (0xFF23, 0x40, 0xFF),
        (0xFF24, 0x5A, 0x5A),
        (0xFF25, 0xC3, 0xC3),
    ];
    for (address, written, read) in cases {
        apu.write(address, written);
        assert_eq!(apu.read(address), read, "register {:04X}", address);
    }
    assert_eq!(apu.read(0xFF15), 0xFF);
    assert_eq!(apu.read(0xFF1F), 0xFF);
    assert_eq!(apu.read(0xFF27), 0xFF);
    assert_eq!(apu.read(0xFF26), 0xF0);
}

#[test]
fn power_off_clears_the_registers_and_keeps_wave_memory() {
    let mut apu = powered();
    for address in 0xFF10..=0xFF25u16 {
        apu.write(address, 0xFF);
    }
    for i in 0..16u16 {
        apu.write(0xFF30 + i, 0x10 + i as u8);
    }
    apu.write(0xFF26, 0x00);
    let idle: [u8; 22] = [
        0x80, 0x3F, 0x00, 0xFF, 0xBF, 0xFF, 0x3F, 0x00, 0xFF, 0xBF, 0x7F, 0xFF, 0x9F, 0xFF, 0xBF,
        0xFF, 0xFF, 0x00, 0x00, 0xBF, 0x00, 0x00,
    ];
    for (i, expected) in idle.iter().enumerate() {
        assert_eq!(apu.read(0xFF10 + i as u16), *expected, "register {:04X}", 0xFF10 + i);
    }
    assert_eq!(apu.read(0xFF26), 0x70);
    for i in 0..16u16 {
        assert_eq!(apu.read(0xFF30 + i), 0x10 + i as u8);
    }
}

#[test]
fn writes_are_ignored_while_off_but_for_power_and_wave_memory() {
    let mut apu = Apu::new();
    let before = apu;
    for address in 0xFF10..=0xFF25u16 {
        apu.write(address, 0xFF);
    }
    assert_eq!(apu, before);
    apu.write(0xFF30, 0xAB);
    assert_eq!(apu.read(0xFF30), 0xAB);
    apu.write(0xFF26, 0x80);
    assert_eq!(apu.read(0xFF26), 0xF0);
}

#[test]
fn power_off_keeps_the_length_timers() {
    let mut apu = powered();
    apu.write(0xFF11, 0x3E);
    apu.write(0xFF1B, 0xFE);
    apu.write(0xFF20, 0x01);
    apu.write(0xFF26, 0x00);
    assert_eq!(apu.ch_1.wave_duty_len_timer.len_timer, 2);
    assert_eq!(apu.ch_3.len_timer, 2);
    assert_eq!(apu.ch_4.len_timer, 63);
}

#[test]
fn a_triggered_pulse_shows_up_as_one_delta() {
    let mut apu = powered();
    apu.write(0xFF24, 0x77);
    apu.write(0xFF25, 0x11);
    apu.write(0xFF12, 0xF0);
    apu.write(0xFF14, 0x80);
    apu.tick();
    let deltas = apu.deltas();
    // Level 8 - 15 = -7, times master volume 7 + 1, times 64.
    assert_eq!(deltas.count, 1);
    assert_eq!(deltas.left[0], -7 * 8 * 64);
    assert_eq!(deltas.right[0], -7 * 8 * 64);
    assert_eq!(deltas.offsets[0], 0);
    assert_eq!(apu.read(0xFF26), 0xF1);
    let empty = apu.deltas();
    assert_eq!(empty.count, 0);
    apu.tick();
    assert_eq!(apu.deltas().count, 0);
}

#[test]
fn panning_and_volume_weigh_each_side() {
    let mut apu = powered();
    apu.write(0xFF24, 0x13);
    apu.write(0xFF25, 0x10);
    apu.write(0xFF12, 0x30);
    apu.write(0xFF14, 0x80);
    apu.tick();
    let deltas = apu.deltas();
    assert_eq!(deltas.count, 1);
    assert_eq!(deltas.left[0], (8 - 3) * 2 * 64);
    assert_eq!(deltas.right[0], 0);
    assert_eq!(apu.amplitude_left, 640);
    let mut apu = powered();
    apu.write(0xFF24, 0x13);
    apu.write(0xFF25, 0x01);
    apu.write(0xFF12, 0x30);
    apu.write(0xFF14, 0x80);
    apu.tick();
    let deltas = apu.deltas();
    assert_eq!(deltas.left[0], 0);
    assert_eq!(deltas.right[0], (8 - 3) * 4 * 64);
}

#[test]
fn unfetched_deltas_are_dropped_after_six_ticks() {
    let mut apu = powered();
    apu.write(0xFF24, 0x77);
    apu.write(0xFF25, 0x11);
    apu.write(0xFF12, 0xF0);
    apu.write(0xFF14, 0x80);
    for _ in 0..6 {
        apu.tick();
    }
    assert_eq!(apu.delta_offset, 24);
    assert_eq!(apu.delta_count, 1);
    apu.tick();
    assert_eq!(apu.delta_offset, 4);
    assert_eq!(apu.delta_count, 0);
}

#[test]
fn pulse_steps_through_its_waveform() {
    let mut apu = powered();
    apu.write(0xFF12, 0xF0);
    apu.write(0xFF11, 0x80);
    apu.write(0xFF13, 0xFF);
    apu.write(0xFF14, 0x87);
    // The period counter runs up to 2048 once, then with period value
    // 2047 the pulse moves one step with every tick.
    for _ in 0..2047 {
        apu.tick();
        assert_eq!(apu.ch_1.wave_idx, 0);
    }
    let mut seen = Vec::new();
    for _ in 0..8 {
        apu.tick();
        seen.push(apu.ch_1.wave_idx);
    }
    assert_eq!(seen, vec![1, 2, 3, 4, 5, 6, 7, 0]);
    assert_eq!(
        WaveDuty::W2.waveform(),
        [false, true, true, true, true, false, false, false]
    );
    assert_eq!(WaveDuty::W0.waveform()[7], false);
    assert_eq!(WaveDuty::W3.waveform()[0], true);
}

#[test]
fn noise_register_takes_its_tap_at_bit_14() {
    let mut apu = powered();
    apu.write(0xFF21, 0xF0);
    apu.write(0xFF22, 0x00);
    apu.write(0xFF23, 0x80);
    apu.tick();
    assert_eq!(apu.ch_4.lfsr, 0);
    apu.tick();
    assert_eq!(apu.ch_4.lfsr, 0x4000);
    apu.tick();
    apu.tick();
    assert_eq!(apu.ch_4.lfsr, 0x6000);
    let mut narrow = powered();
    narrow.write(0xFF21, 0xF0);
    narrow.write(0xFF22, 0x08);
    narrow.write(0xFF23, 0x80);
    narrow.tick();
    narrow.tick();
    assert_eq!(narrow.ch_4.lfsr, 0x4040);
}

#[test]
fn wave_channel_plays_its_nibbles_in_turn() {
    let mut apu = powered();
    apu.write(0xFF24, 0x00);
    apu.write(0xFF25, 0x44);
    apu.write(0xFF30, 0x1F);
    apu.write(0xFF1A, 0x80);
    apu.write(0xFF1C, 0x20);
    apu.write(0xFF1D, 0xFF);
    apu.write(0xFF1E, 0x87);
    apu.ch_3.cycles = 2047;
    apu.tick();
    // Two samples per tick at the shortest period: index 1, then 2.
    assert_eq!(apu.ch_3.wave_pattern_index, 2);
    let deltas = apu.deltas();
    assert_eq!(deltas.count, 2);
    assert_eq!(deltas.left[0], (8 - 0xF) * 64);
    assert_eq!(deltas.left[1], (8 - 0) * 64 - (8 - 0xF) * 64);
    assert_eq!(deltas.offsets[0], 0);
    assert_eq!(deltas.offsets[1], 2);
}

#[test]
fn sequencer_steps_lengths_on_even_counts() {
    let mut apu = powered();
    apu.write(0xFF12, 0xF0);
    apu.write(0xFF11, 0x3E);
    apu.write(0xFF14, 0xC0);
    apu.tick();
    assert_eq!(apu.read(0xFF26) & 1, 1);
    assert_eq!(apu.ch_1.wave_duty_len_timer.len_timer, 2);
    apu.inc_div();
    assert_eq!(apu.ch_1.wave_duty_len_timer.len_timer, 1);
    apu.inc_div();
    assert_eq!(apu.ch_1.wave_duty_len_timer.len_timer, 1);
    apu.inc_div();
    assert_eq!(apu.ch_1.wave_duty_len_timer.len_timer, 0);
    assert_eq!(apu.read(0xFF26) & 1, 0);
    assert_eq!(apu.div, 3);
}

#[test]
fn sequencer_steps_the_envelope_on_count_seven() {
    let mut apu = powered();
    apu.write(0xFF12, 0x51);
    apu.write(0xFF14, 0x80);
    apu.tick();
    assert_eq!(apu.ch_1.volume, 5);
    for _ in 0..7 {
        apu.inc_div();
    }
    assert_eq!(apu.ch_1.volume, 5);
    apu.inc_div();
    assert_eq!(apu.ch_1.volume, 4);
    let mut up = powered();
    up.write(0xFF17, 0xE9);
    up.write(0xFF19, 0x80);
    up.tick();
    for _ in 0..16 {
        up.inc_div();
    }
    assert_eq!(up.ch_2.volume, 15);
}

#[test]
fn sweep_raises_the_period_and_silences_on_overflow() {
    let mut apu = powered();
    apu.write(0xFF12, 0xF0);
    apu.write(0xFF10, 0x11);
    apu.write(0xFF13, 0x00);
    apu.write(0xFF14, 0x84);
    apu.tick();
    assert_eq!(apu.ch_1.wavelen_ctrl.wavelen, 0x400);
    apu.inc_div();
    apu.inc_div();
    apu.inc_div();
    // The first sweep step, on count two: 0x400 + 0x400 / 2.
    assert_eq!(apu.ch_1.wavelen_ctrl.wavelen, 0x600);
    assert_eq!(apu.read(0xFF26) & 1, 1);
    for _ in 0..4 {
        apu.inc_div();
    }
    // 0x600 + 0x300 is past the largest period: the channel goes off.
    assert_eq!(apu.ch_1.wavelen_ctrl.wavelen, 0x600);
    assert_eq!(apu.read(0xFF26) & 1, 0);
}

#[test]
fn clearing_the_converter_silences_the_channel() {
    let mut apu = powered();
    apu.write(0xFF12, 0xF0);
    apu.write(0xFF14, 0x80);
    apu.tick();
    assert_eq!(apu.read(0xFF26) & 1, 1);
    apu.write(0xFF12, 0x07);
    assert_eq!(apu.read(0xFF26) & 1, 0);
    assert!(!VolumeEnvelope { initial: 0, direction: EnvelopeDir::Decrease, pace: 7 }.dac_enabled());
    assert!(VolumeEnvelope { initial: 0, direction: EnvelopeDir::Increase, pace: 0 }.dac_enabled());
}

#[test]
fn register_types_pack_and_unpack() {
    let toggles = ChannelToggles::from_nibble(0b1010);
    assert_eq!(toggles, ChannelToggles { ch_1: false, ch_2: true, ch_3: false, ch_4: true });
    assert_eq!(toggles.value(), 0b1010);
    let mut panning = SoundPanning { left: ChannelToggles::new(), right: ChannelToggles::new() };
    panning.set_value(0xA5);
    assert_eq!(panning.value(), 0xA5);
    assert_eq!(panning.left, toggles);
    let mut volume = MasterVolVinPan { left_volume: 0, right_volume: 0, mix_vin_left: false, mix_vin_right: false };
    volume.set_value(0xF9);
    assert_eq!((volume.left_volume, volume.right_volume), (7, 1));
    assert!(volume.mix_vin_left && volume.mix_vin_right);
    assert_eq!(volume.value(), 0xF9);
    let mut sweep = Sweep { pace: 0, op: SweepOp::Increase, slope_ctrl: 0 };
    sweep.set_value(0x7B);
    assert_eq!((sweep.pace, sweep.op, sweep.slope_ctrl), (7, SweepOp::Decrease, 3));
    assert_eq!(sweep.value(), 0xFB);
    let mut duty = WaveDutyTimerLen { wave_duty: WaveDuty::W0, len_timer: 0 };
    duty.set_value(0xC0);
    assert_eq!((duty.wave_duty, duty.len_timer), (WaveDuty::W3, 64));
    duty.set_value(0x7F);
    assert_eq!((duty.wave_duty, duty.len_timer), (WaveDuty::W1, 1));
    assert_eq!(duty.value(), 0x7F);
    let mut envelope = VolumeEnvelope { initial: 0, direction: EnvelopeDir::Decrease, pace: 0 };
    envelope.set_value(0xAB);
    assert_eq!((envelope.initial, envelope.direction, envelope.pace), (10, EnvelopeDir::Increase, 3));
    assert_eq!(envelope.value(), 0xAB);
    let mut period = WavelenCtrl { trigger: false, len_enable: false, wavelen: 0 };
    period.set_value_wavelen_l(0x34);
    period.set_value_wavelen_h_ctrl(0xC5);
    assert_eq!(period.wavelen, 0x534);
    assert!(period.trigger && period.len_enable);
    assert_eq!(period.value_ctrl(), 0xFF);
    let mut noise = FreqRand { clock_shift: 0, lfsr_width: LfsrWidth::B15, clock_div: 0 };
    noise.set_value(0xFD);
    assert_eq!((noise.clock_shift, noise.lfsr_width, noise.clock_div), (15, LfsrWidth::B7, 5));
    assert_eq!(noise.value(), 0xFD);
    assert_eq!(Apu::tick_len(1, true, true), (0, false));
    assert_eq!(Apu::tick_len(2, true, true), (1, true));
    assert_eq!(Apu::tick_len(5, false, true), (5, true));
    assert_eq!(Apu::tick_len(0, true, true), (0, true));
}

#[test]
fn a_fresh_unit_is_well_formed() {
    assert!(Apu::new().is_wf());
    let mut broken = Apu::new();
    broken.delta_count = 13;
    assert!(!broken.is_wf());
}
