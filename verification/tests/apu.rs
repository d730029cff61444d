use dmg_2025::cpu::apu::{mix, SquareChannel, APU};
use dmg_2025::cpu::readwrite::MemoryAccess;

fn channel_with_duty(duty: u8) -> SquareChannel {
    let mut channel = SquareChannel::new(false);
    channel.write_register(1, duty << 6);
    channel
}

fn waveform(channel: &SquareChannel) -> Vec<u8> {
    (0..8u8).map(|step| channel.get_duty_cycle_val(step)).collect()
}

#[test]
fn half_duty_waveform() {
    assert_eq!(waveform(&channel_with_duty(2)), vec![0, 1, 1, 1, 1, 0, 0, 0]);
}

#[test]
fn the_other_waveforms() {
    assert_eq!(waveform(&channel_with_duty(0)), vec![1, 1, 1, 1, 1, 1, 1, 0]);
    assert_eq!(waveform(&channel_with_duty(1)), vec![0, 1, 1, 1, 1, 1, 1, 0]);
    assert_eq!(waveform(&channel_with_duty(3)), vec![1, 0, 0, 0, 0, 0, 0, 1]);
    assert_eq!(channel_with_duty(2).get_duty_cycle_val(8), 0);
}

#[test]
fn power_on_channel() {
    let channel = SquareChannel::new(true);
    assert!(!channel.on);
    assert!(channel.sweep);
    assert_eq!(channel.length_timer, 64);
    assert_eq!(channel.envelope_timer, 1);
    assert_eq!(channel.volume, 0);
    assert_eq!(channel.get_sample(), 0);
    for register in 0..=4 {
        assert_eq!(channel.read_register(register), 0);
    }
}

#[test]
fn channel_registers_pack_their_fields() {
    let mut channel = SquareChannel::new(false);
    channel.write_register(1, 0b10_101010);
    assert_eq!(channel.duty_cycle_index, 2);
    assert_eq!(channel.initial_length_timer, 0b101010);
    assert_eq!(channel.read_register(1), 0b10_101010);

    channel.write_register(2, 0b1011_1_101);
    assert_eq!(channel.initial_volume, 0b1011);
    assert!(channel.envelope_increase);
    assert_eq!(channel.envelope_pace, 0b101);
    assert_eq!(channel.read_register(2), 0b1011_1_101);

    channel.write_register(3, 0xCD);
    channel.write_register(4, 0b0100_0110);
    assert_eq!(channel.period_value, 0x6CD);
    assert!(channel.length_timer_enabled);
    assert_eq!(channel.read_register(3), 0xCD);
    assert_eq!(channel.read_register(4), 0b0100_0110);

    // The low byte can change alone
    channel.write_register(3, 0x12);
    assert_eq!(channel.period_value, 0x612);
    // Register 0 holds nothing
    channel.write_register(0, 0xFF);
    assert_eq!(channel.read_register(0), 0);
}

#[test]
fn trigger_restarts_the_channel() {
    let mut channel = SquareChannel::new(false);
    channel.write_register(1, 0b10_000101);
    channel.write_register(2, 0b1001_0_000);
    channel.write_register(3, 0x00);
    channel.write_register(4, 0x07);
    channel.trigger();
    assert!(channel.on);
    assert_eq!(channel.volume, 9);
    assert_eq!(channel.period_div, 0x700);
    assert_eq!(channel.envelope_timer, 1);
    // A length timer that has run out is loaded
    assert_eq!(channel.length_timer, 5);
    channel.length_timer = 20;
    channel.trigger();
    assert_eq!(channel.length_timer, 20);
}

#[test]
fn length_timer_switches_the_channel_off() {
    let mut channel = SquareChannel::new(false);
    channel.write_register(1, 60);
    channel.write_register(4, 0x40);
    channel.trigger();
    assert_eq!(channel.length_timer, 60);
    for expected in 61..=64u8 {
        channel.update_length_timer();
        assert_eq!(channel.length_timer, expected);
        assert!(channel.on);
    }
    channel.update_length_timer();
    assert_eq!(channel.length_timer, 64);
    assert!(!channel.on);

    // Without the enable the channel stays on
    let mut channel = SquareChannel::new(false);
    channel.trigger();
    for _ in 0..100 {
        channel.update_length_timer();
    }
    assert!(channel.on);
    assert_eq!(channel.length_timer, 64);
}

#[test]
fn envelope_moves_the_volume_every_pace_ticks() {
    let mut channel = SquareChannel::new(false);
    channel.write_register(2, 0b1101_1_011);
    channel.trigger();
    assert_eq!(channel.volume, 13);
    let mut volumes = Vec::new();
    for _ in 0..12 {
        channel.update_envelope();
        volumes.push(channel.volume);
    }
    assert_eq!(volumes, vec![13, 13, 14, 13 + 1, 14, 15, 15, 15, 15, 15, 15, 15]);

    let mut channel = SquareChannel::new(false);
    channel.write_register(2, 0b0010_0_001);
    channel.trigger();
    let mut volumes = Vec::new();
    for _ in 0..4 {
        channel.update_envelope();
        volumes.push(channel.volume);
    }
    assert_eq!(volumes, vec![1, 0, 0, 0]);

    // A pace of zero switches the envelope off
    let mut channel = SquareChannel::new(false);
    channel.write_register(2, 0b0101_1_000);
    channel.trigger();
    for _ in 0..20 {
        channel.update_envelope();
    }
    assert_eq!(channel.volume, 5);
}

#[test]
fn period_divider_steps_the_duty_pointer() {
    let mut channel = SquareChannel::new(false);
    channel.write_register(3, 0xFD);
    channel.write_register(4, 0x07);
    channel.trigger();
    assert_eq!(channel.period_div, 0x7FD);
    channel.update_period();
    channel.update_period();
    assert_eq!(channel.period_div, 0x7FF);
    assert_eq!(channel.duty_cycle_pointer, 0);
    channel.update_period();
    assert_eq!(channel.period_div, 0x7FD);
    assert_eq!(channel.duty_cycle_pointer, 1);
    // Three ticks per step from here on; the pointer wraps after step 7
    for _ in 0..3 * 7 {
        channel.update_period();
    }
    assert_eq!(channel.duty_cycle_pointer, 0);
}

#[test]
fn a_sample_is_the_volume_while_the_wave_is_high() {
    let mut channel = SquareChannel::new(false);
    channel.write_register(1, 2 << 6);
    channel.write_register(2, 0b1010_0_000);
    channel.trigger();
    let mut samples = Vec::new();
    for step in 0..8u8 {
        channel.duty_cycle_pointer = step;
        samples.push(channel.get_sample());
    }
    assert_eq!(samples, vec![0, 10, 10, 10, 10, 0, 0, 0]);
    channel.on = false;
    channel.duty_cycle_pointer = 1;
    assert_eq!(channel.get_sample(), 0);
}

#[test]
fn the_mix_is_held_at_full_scale() {
    assert_eq!(mix(0, 0), 0);
    assert_eq!(mix(3, 4), 7);
    assert_eq!(mix(15, 0), 15);
    assert_eq!(mix(8, 8), 15);
    assert_eq!(mix(15, 15), 15);
    assert_eq!(mix(255, 255), 15);
}

#[test]
fn sample_delay_comes_from_the_rate() {
    assert_eq!(APU::new(48000).sample_delay, 87);
    assert_eq!(APU::new(44100).sample_delay, 95);
    assert_eq!(APU::new(4194304).sample_delay, 1);
    assert_eq!(APU::new(u32::MAX).sample_delay, 0);
}

#[test]
fn samples_collect_until_they_are_drained() {
    let mut apu = APU::new(48000);
    for _ in 0..87 {
        apu.cycle(0);
    }
    assert!(apu.buffer.is_empty());
    apu.cycle(0);
    assert_eq!(apu.buffer, vec![0]);
    for _ in 0..88 * 4 {
        apu.cycle(0);
    }
    assert_eq!(apu.buffer.len(), 5);
    let drained = apu.receive_buffer();
    assert_eq!(drained, vec![0, 0, 0, 0, 0]);
    assert!(apu.buffer.is_empty());
    assert!(apu.receive_buffer().is_empty());
}

#[test]
fn the_output_mixes_both_channels() {
    let mut apu = APU::new(u32::MAX);
    // Both channels: 50 % duty, constant volume, slowest period
    apu.mem_write(0xFF11, 2 << 6);
    apu.mem_write(0xFF12, 0b0110_0_000);
    apu.mem_write(0xFF14, 0x80);
    apu.mem_write(0xFF16, 2 << 6);
    apu.mem_write(0xFF17, 0b0011_0_000);
    apu.mem_write(0xFF19, 0x80);
    assert_eq!(apu.mem_read(0xFF26), 0x83);
    apu.square_channel_1.duty_cycle_pointer = 1;
    apu.square_channel_2.duty_cycle_pointer = 1;
    apu.cycle(0);
    apu.square_channel_2.duty_cycle_pointer = 0;
    apu.cycle(0);
    apu.square_channel_1.duty_cycle_pointer = 0;
    apu.cycle(0);
    // Switched off, the unit gives silence
    apu.square_channel_1.duty_cycle_pointer = 1;
    apu.mem_write(0xFF26, 0x00);
    apu.cycle(0);
    assert_eq!(apu.mem_read(0xFF26), 0x03);
    assert_eq!(apu.receive_buffer(), vec![9, 6, 0, 0]);
}

#[test]
fn the_frame_sequencer_follows_the_divider() {
    let mut apu = APU::new(48000);
    apu.mem_write(0xFF11, 62);
    apu.mem_write(0xFF12, 0b0100_1_001);
    apu.mem_write(0xFF14, 0xC0);
    assert_eq!(apu.square_channel_1.length_timer, 62);
    // Bit 12 rises and falls once for every step
    for step in 1..=8u8 {
        apu.cycle(0x1000);
        assert_eq!(apu.div_apu, step - 1);
        apu.cycle(0x0000);
        assert_eq!(apu.div_apu, step);
    }
    // Four length ticks: 62, 63, 64, then off
    assert_eq!(apu.square_channel_1.length_timer, 64);
    assert!(!apu.square_channel_1.on);
    // One envelope tick
    assert_eq!(apu.square_channel_1.volume, 5);
    assert_eq!(apu.mem_read(0xFF26), 0x80);
}

#[test]
fn period_dividers_tick_every_fourth_cycle() {
    let mut apu = APU::new(48000);
    for _ in 0..3 {
        apu.cycle(0);
    }
    assert_eq!(apu.square_channel_1.period_div, 0);
    apu.cycle(0);
    assert_eq!(apu.square_channel_1.period_div, 1);
    assert_eq!(apu.square_channel_2.period_div, 1);
    for _ in 0..40 {
        apu.cycle(0);
    }
    assert_eq!(apu.square_channel_1.period_div, 11);
}

#[test]
fn audio_registers_without_a_channel_read_ff() {
    let mut apu = APU::new(48000);
    for address in [0xFF15u16, 0xFF1A, 0xFF20, 0xFF25, 0xFF30, 0xFF3F] {
        apu.mem_write(address, 0x12);
        assert_eq!(apu.mem_read(address), 0xFF);
    }
}
