use gb_core::apu::channel::{Envelope, NoiseChannel, PulseChannel, Sweep, WaveChannel};

#[test]
fn pulse_trigger_with_dac_off_stays_disabled() {
    let mut ch = PulseChannel::new(false);
    ch.write_envelope(0x00); // volume 0, not adding: DAC off
    ch.write_control(0x80); // trigger
    assert!(!ch.enabled());
}

#[test]
fn pulse_trigger_with_dac_on_enables_and_reloads_length() {
    let mut ch = PulseChannel::new(false);
    ch.write_envelope(0xF0); // volume 15
    ch.write_length_duty(0b11_111111); // duty 3, length_load 63 -> counter 1
    ch.write_control(0x80);
    assert!(ch.enabled());
}

#[test]
fn pulse_length_counter_disables_channel_at_zero() {
    let mut ch = PulseChannel::new(false);
    ch.write_envelope(0xF0);
    ch.write_length_duty(0b00_111111); // length_load 63 -> counter 1
    ch.write_control(0xC0); // trigger + length enable
    assert!(ch.enabled());
    ch.clock_length();
    assert!(!ch.enabled());
}

#[test]
fn pulse_duty_pattern_produces_expected_amplitude_sequence() {
    let mut ch = PulseChannel::new(false);
    ch.write_envelope(0xF0); // volume 15
    ch.write_length_duty(0b10_000000); // duty 2 (50%): 1,0,0,0,0,1,1,1
    ch.write_freq_lo(0xFC);
    ch.write_control(0x87); // freq hi bits (7) + trigger -> frequency 0x7FC
    // freq_timer period = (2048-0x7FC)*4 = 16 T-cycles per duty step
    let expected = [1u8, 0, 0, 0, 0, 1, 1, 1];
    for &e in &expected {
        assert_eq!(ch.amplitude(), e * 15);
        ch.step(16);
    }
}

#[test]
fn envelope_ramps_volume_up_and_stops_at_max() {
    let mut env = Envelope::default();
    env.write_nrx2(0b0000_1010); // volume 0, add, period 2
    env.trigger();
    env.clock(); // period 2: this clock only counts down the timer
    assert_eq!(env.volume, 0);
    env.clock(); // timer hits 0: volume increments
    assert_eq!(env.volume, 1);
}

#[test]
fn sweep_disables_channel_on_overflow() {
    let mut sweep = Sweep::default();
    sweep.write_nr10(0b0_001_0_001); // period 1, add, shift 1
    // frequency 2000: delta = 2000>>1=1000, new=3000 > 2047 -> overflow
    assert_eq!(sweep.trigger(2000), None);
}

#[test]
fn sweep_computes_new_frequency_within_range() {
    let mut sweep = Sweep::default();
    sweep.write_nr10(0b0_001_0_001); // period 1, add, shift 1
    // frequency 100: delta=50, new=150
    assert_eq!(sweep.trigger(100), Some(150));
}

#[test]
fn noise_lfsr_produces_deterministic_bit_sequence_from_seed() {
    let mut ch = NoiseChannel::default();
    ch.write_envelope(0xF0);
    ch.write_polynomial(0x00); // clock_shift 0, 15-bit mode, divisor code 0 (period 8)
    ch.write_control(0x80); // trigger
    assert_eq!(ch.lfsr, 0x7FFF);
    ch.step(8); // one LFSR clock
    assert_ne!(ch.lfsr, 0x7FFF);
}

#[test]
fn wave_channel_reads_nibbles_and_applies_volume_shift() {
    let mut ch = WaveChannel::default();
    ch.write_wave_ram(0xFF30, 0xF0); // sample0=0xF, sample1=0x0
    ch.write_dac_power(0x80);
    ch.write_freq_lo(0x00);
    ch.write_control(0x80); // trigger, frequency 0
    ch.write_volume(0b001_00000); // 100%
    assert_eq!(ch.amplitude(), 0xF);
}

#[test]
fn noise_lfsr_first_clock_value_in_both_widths() {
    // 0x7FFF: low bits 1,1 -> xor 0; shifted right = 0x3FFF, bit 14 <- 0.
    let mut ch = NoiseChannel::default();
    ch.write_envelope(0xF0);
    ch.write_polynomial(0x00);
    ch.write_control(0x80);
    ch.step(8);
    assert_eq!(ch.lfsr, 0x3FFF);
    // 7-bit mode also copies the feedback bit (0) into bit 6.
    let mut ch = NoiseChannel::default();
    ch.write_envelope(0xF0);
    ch.write_polynomial(0x08);
    ch.write_control(0x80);
    ch.step(8);
    assert_eq!(ch.lfsr, 0x3FBF);
}

#[test]
fn wave_volume_codes_shift_the_sample() {
    let mut ch = WaveChannel::default();
    ch.write_wave_ram(0xFF30, 0xC0); // first sample 0xC
    ch.write_dac_power(0x80);
    ch.write_control(0x80);
    ch.write_volume(0b010_00000); // 50%
    assert_eq!(ch.amplitude(), 0x6);
    ch.write_volume(0b011_00000); // 25%
    assert_eq!(ch.amplitude(), 0x3);
    ch.write_volume(0); // mute
    assert_eq!(ch.amplitude(), 0);
}

#[test]
fn envelope_decreases_to_zero_and_stops() {
    let mut env = Envelope::default();
    env.write_nrx2(0x21); // volume 2, subtract, period 1
    env.trigger();
    env.clock();
    assert_eq!(env.volume, 1);
    env.clock();
    assert_eq!(env.volume, 0);
    env.clock();
    assert_eq!(env.volume, 0);
    assert_eq!(env.read_nrx2(), 0x21);
}
