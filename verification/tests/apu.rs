use gb_core::apu::{Apu, DMG_CLOCK_HZ};

fn powered_on_apu() -> Apu {
    let mut apu = Apu::new();
    apu.write_nr52(0x80);
    apu
}

#[test]
fn power_off_clears_registers_and_disables_channels() {
    let mut apu = powered_on_apu();
    apu.write_nr50(0x77);
    apu.write_nr51(0xFF);
    apu.write_nr10(0x7F);
    apu.write_nr52(0x00); // power off
    assert_eq!(apu.read_nr50(), 0);
    assert_eq!(apu.read_nr51(), 0);
    assert_eq!(apu.read_nr52() & 0x0F, 0); // no channels enabled
}

#[test]
fn writes_are_ignored_while_powered_off() {
    let mut apu = Apu::new(); // powered off by default
    apu.write_nr50(0x77);
    assert_eq!(apu.read_nr50(), 0);
}

#[test]
fn nr52_reports_power_and_per_channel_enabled_bits() {
    let mut apu = powered_on_apu();
    assert_eq!(apu.read_nr52() & 0x80, 0x80);
    apu.write_nr12(0xF0); // ch1 DAC on (max volume)
    apu.write_nr14(0x80); // trigger ch1
    assert_eq!(apu.read_nr52() & 0x0F, 0b0001);
}

#[test]
fn triggering_with_dac_off_does_not_enable_the_channel() {
    let mut apu = powered_on_apu();
    apu.write_nr12(0x00); // volume 0, envelope not adding: DAC off
    apu.write_nr14(0x80); // trigger
    assert_eq!(apu.read_nr52() & 0x01, 0);
}

#[test]
fn wave_ram_is_readable_and_writable_regardless_of_power() {
    let mut apu = Apu::new();
    apu.write_wave_ram(0xFF30, 0xAB);
    assert_eq!(apu.read_wave_ram(0xFF30), 0xAB);
}

#[test]
fn step_reports_samples_due_at_the_configured_rate() {
    let mut apu = powered_on_apu();
    apu.set_sample_rate(1000); // 4194.304 T-cycles/sample
    apu.write_nr50(0x77);
    apu.write_nr51(0xFF);
    apu.write_nr12(0xF0);
    apu.write_nr14(0x80);
    let mut due = 0;
    for _ in 0..20 {
        due += apu.step(255); // 5100 T-cycles total
    }
    assert_eq!(due, 1); // 5100 * 1000 / 4194304 = 1.2
    let m = apu.mix_input();
    assert_eq!((m.nr50, m.nr51), (0x77, 0xFF));
}

#[test]
fn silent_channels_give_zero_amplitudes() {
    let mut apu = powered_on_apu();
    apu.set_sample_rate(1000);
    apu.write_nr50(0x77);
    apu.write_nr51(0xFF);
    for _ in 0..10 {
        apu.step(255);
    }
    let m = apu.mix_input();
    assert_eq!((m.ch1, m.ch2, m.ch3, m.ch4), (0, 0, 0, 0));
}

#[test]
fn a_second_of_cycles_yields_the_sample_rate() {
    let mut apu = powered_on_apu();
    apu.set_sample_rate(44_100);
    let mut due = 0u64;
    let mut cycles = 0u64;
    while cycles < DMG_CLOCK_HZ {
        let chunk = (DMG_CLOCK_HZ - cycles).min(128);
        due += apu.step(chunk as u8);
        cycles += chunk;
    }
    assert_eq!(due, 44_100);
}

#[test]
fn powered_off_apu_does_not_advance() {
    let mut apu = Apu::new();
    assert_eq!(apu.step(255), 0);
    assert_eq!(apu.frame_seq_cycle_accum, 0);
}

#[test]
fn step_pushes_samples_into_the_ring_buffer_at_the_configured_rate() {
    let mut apu = powered_on_apu();
    apu.set_sample_rate(1000); // 4194.304 T-cycles/sample
    apu.write_nr50(0x77);
    apu.write_nr51(0xFF);
    apu.write_nr12(0xF0);
    apu.write_nr14(0x80); // trigger ch1 with a nonzero DAC volume

    let mut samples = 0u64;
    for _ in 0..20 {
        samples += apu.step(255); // 5100 T-cycles total
    }
    assert!(samples >= 1); // at least one stereo frame came due
}

#[test]
fn silent_channels_mix_to_zero() {
    let mut apu = powered_on_apu();
    apu.set_sample_rate(1000);
    apu.write_nr50(0x77);
    apu.write_nr51(0xFF);
    // No channel triggered: every channel's amplitude, and so the mix, is silence.
    for _ in 0..10 {
        apu.step(255);
        let m = apu.mix_input();
        assert_eq!((m.ch1, m.ch2, m.ch3, m.ch4), (0, 0, 0, 0));
    }
}
