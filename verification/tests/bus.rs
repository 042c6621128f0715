use gbcore::audio::AudioEvent;
use gbcore::memmap::create_memmap;

#[test]
fn get_word() {
    let mut mem = create_memmap(0);
    mem.set_byte(0x9003, 0xc);
    mem.set_byte(0x9004, 0x12);
    assert_eq!(mem.get_word(0x9003), 0x120c);
}

#[test]
fn set_word() {
    let mut mem = create_memmap(0);
    mem.set_word(0x9045, 0xface);
    assert_eq!(mem.get_byte(0x9045), 0xce);
    assert_eq!(mem.get_byte(0x9046), 0xfa);
}

#[test]
fn divider() {
    let mut mem = create_memmap(0);
    assert_eq!(mem.get_byte(0xff04), 0);
    mem.add_time(12);
    assert_eq!(mem.get_byte(0xff04), 0);
    mem.add_time(8);
    assert_eq!(mem.timer, 20);
    assert_eq!(mem.get_byte(0xff04), 0);
    mem.add_time(12);
    mem.add_time(8);
    mem.add_time(12);
    mem.add_time(8);
    mem.add_time(12);
    mem.add_time(8);
    mem.add_time(12);
    mem.add_time(8);
    mem.add_time(12);
    mem.add_time(8);
    mem.add_time(12);
    mem.add_time(8);
    mem.add_time(12);
    mem.add_time(8);
    mem.add_time(12);
    mem.add_time(8);
    mem.add_time(12);
    mem.add_time(8);
    mem.add_time(12);
    mem.add_time(8);
    mem.add_time(12);
    mem.add_time(8);
    mem.add_time(12);
    assert_eq!(mem.timer, 252);
    assert_eq!(mem.get_byte(0xff04), 0);
    mem.add_time(8);
    assert_eq!(mem.timer, 260);
    assert_eq!(mem.get_byte(0xff04), 1);
    mem.set_byte(0xff04, 12);
    assert_eq!(mem.get_byte(0xff04), 0);
}

#[test]
fn counter() {
    let mut mem = create_memmap(0);
    assert_eq!(mem.get_byte(0xff05), 0);
    mem.set_byte(0xff07, 0x5); // running, speed = 01
    mem.add_time(12);
    mem.add_time(8);
    assert_eq!(mem.timer, 20);
    assert_eq!(mem.get_byte(0xff05), 1);
    mem.add_time(16);
    assert_eq!(mem.get_byte(0xff05), 2);
    mem.set_byte(0xff07, 0x6); // running, speed = 10
    mem.add_time(16);
    assert_eq!(mem.get_byte(0xff05), 2);
    mem.add_time(16);
    assert_eq!(mem.get_byte(0xff05), 3);
    mem.add_time(16);
    mem.add_time(16);
    mem.add_time(16);
    mem.add_time(16);
    assert_eq!(mem.get_byte(0xff05), 4);

    mem.set_byte(0xff07, 0x5);
    for _ in 0..251 {
        mem.add_time(16);
    }
    assert_eq!(mem.get_byte(0xff05), 255);
    mem.set_byte(0xff06, 7);
    mem.add_time(16);
    // resets to modulo
    assert_eq!(mem.get_byte(0xff05), 7);
}

#[test]
fn divider_boundary() {
    // 255 clocks in any sub-splits leave the divider at zero; one more
    // carries it to one.
    let mut mem = create_memmap(0);
    mem.add_time(100);
    mem.add_time(100);
    mem.add_time(55);
    assert_eq!(mem.get_byte(0xff04), 0);
    mem.add_time(1);
    assert_eq!(mem.get_byte(0xff04), 1);
}

#[test]
fn stat_low_bits_read_only() {
    let mut mem = create_memmap(0);
    mem.set_byte(0xff41, 0xff);
    // The GPU-owned low three bits stay zero; the upper five take the write.
    assert_eq!(mem.get_byte(0xff41), 0xf8);
    mem.set_byte(0xff41, 0x05);
    assert_eq!(mem.get_byte(0xff41), 0x00);
}

#[test]
fn ly_write_updates_coincidence() {
    let mut mem = create_memmap(0);
    mem.set_byte(0xff45, 0x17);
    mem.set_byte(0xff44, 0x17);
    assert_eq!(mem.get_byte(0xff41) & 0x4, 0x4);
    mem.set_byte(0xff44, 0x18);
    assert_eq!(mem.get_byte(0xff41) & 0x4, 0x0);
}

#[test]
fn dma_copies_sprite_table() {
    let mut mem = create_memmap(0);
    for i in 0..0xa0u16 {
        mem.set_byte(0xc000 + i, (i as u8).wrapping_add(3));
    }
    mem.set_byte(0xff46, 0xc0);
    for i in 0..0xa0u16 {
        assert_eq!(mem.get_byte(0xfe00 + i), (i as u8).wrapping_add(3));
    }
}

#[test]
fn echo_region_mirrors_work_ram() {
    let mut mem = create_memmap(0);
    mem.set_byte(0xe013, 0x5a);
    assert_eq!(mem.get_byte(0xc013), 0x5a);
    mem.set_byte(0xc014, 0xa5);
    assert_eq!(mem.get_byte(0xe014), 0xa5);
    // The unusable strip reads open bus and drops writes.
    mem.set_byte(0xfec0, 0x11);
    assert_eq!(mem.get_byte(0xfec0), 0xff);
}

#[test]
fn keypad_select_and_interrupt() {
    let mut mem = create_memmap(0);
    // No keys pressed: both nibbles read 0xf.
    assert_eq!(mem.get_byte(0xff00), 0xf);
    mem.key_down_button(0xe); // A pressed (bit 0 cleared)
    assert_eq!(mem.get_byte(0xff00), 0xe);
    // The joypad interrupt bit rises on any key change.
    assert_eq!(mem.get_byte(0xff0f) & 0x10, 0x10);
    // Select directions (bit 4 cleared, bit 5 set).
    mem.set_byte(0xff00, 0x20);
    mem.key_down_direction(0x7); // Down pressed
    assert_eq!(mem.get_byte(0xff00), 0x7);
}

#[test]
fn timer_control_masked() {
    let mut mem = create_memmap(0);
    mem.set_byte(0xff07, 0xff);
    assert_eq!(mem.get_byte(0xff07), 0x7);
}

#[test]
fn master_gain_event() {
    let mut mem = create_memmap(0);
    mem.set_byte(0xff24, 0x77);
    let events = mem.take_audio_events();
    assert_eq!(events.len(), 1);
    assert!(events[0] == AudioEvent::MasterGain(7, 7));
    // The queue is drained.
    assert_eq!(mem.take_audio_events().len(), 0);
}

#[test]
fn sound_enable_events() {
    let mut mem = create_memmap(0);
    mem.set_byte(0xff26, 0x80);
    mem.set_byte(0xff26, 0x00);
    let events = mem.take_audio_events();
    assert_eq!(events.len(), 2);
    assert!(events[0] == AudioEvent::Enabled(true));
    assert!(events[1] == AudioEvent::Enabled(false));
    assert_eq!(mem.get_byte(0xff26), 0);
}

#[test]
fn channel_1_restart_events() {
    let mut mem = create_memmap(0);
    mem.set_byte(0xff13, 0xc1);
    mem.set_byte(0xff12, 0xf3);
    // Bit 7 set restarts the channel from the shadow registers:
    // frequency (0x7 & 0x87) << 8 | 0xc1 = 0x7c1, in Hz 131072 / (2048 - 0x7c1).
    mem.set_byte(0xff14, 0x87);
    let events = mem.take_audio_events();
    assert_eq!(events.len(), 2);
    assert!(events[0] == AudioEvent::Channel1Freq(131072 / (2048 - 0x7c1)));
    assert!(events[1] == AudioEvent::Channel1Gain(0xf));
    // Without bit 7 the write only stores the register.
    mem.set_byte(0xff14, 0x07);
    assert_eq!(mem.take_audio_events().len(), 0);
}

#[test]
fn channel_4_restart_event() {
    let mut mem = create_memmap(0);
    mem.set_byte(0xff21, 0xa0);
    mem.set_byte(0xff23, 0x80);
    let events = mem.take_audio_events();
    assert_eq!(events.len(), 1);
    assert!(events[0] == AudioEvent::Channel4Gain(0xa));
    assert_eq!(mem.get_byte(0xff23), 0x80);
}

#[test]
fn mbc1_ram_banking_via_bus() {
    let mut mem = create_memmap(2);
    mem.set_byte(0x1000, 0x0a); // enable cartridge RAM
    mem.set_byte(0xa000, 2);
    assert_eq!(mem.get_byte(0xa000), 2);
    mem.set_byte(0x6000, 1); // RAM banking mode
    mem.set_byte(0x4000, 2); // RAM bank 2
    mem.set_byte(0x1000, 0x0a);
    mem.set_byte(0xa304, 0xab);
    assert_eq!(mem.get_byte(0xa304), 0xab);
    mem.set_byte(0x4000, 1); // a different bank
    assert_eq!(mem.get_byte(0xa304), 0);
}

#[test]
fn cart_ram_dirty_flag() {
    let mut mem = create_memmap(2);
    mem.set_byte(0x1000, 0x0a);
    assert!(!mem.is_cart_ram_dirty());
    mem.set_byte(0xa000, 9);
    assert!(mem.is_cart_ram_dirty());
    // Reading the flag clears it.
    assert!(!mem.is_cart_ram_dirty());
}

#[test]
fn tile_dirty_flags() {
    let mut mem = create_memmap(0);
    // All regions start dirty so the first frame uploads everything.
    assert!(mem.is_tile_data_dirty());
    assert!(!mem.is_tile_data_dirty());
    mem.set_byte(0x8123, 1);
    assert!(mem.is_tile_data_dirty());
    assert!(mem.is_tile_map_0_dirty());
    mem.set_byte(0x9810, 1);
    assert!(mem.is_tile_map_0_dirty());
    assert!(mem.is_tile_map_1_dirty());
    mem.set_byte(0x9c10, 1);
    assert!(mem.is_tile_map_1_dirty());
    assert!(!mem.is_tile_map_1_dirty());
}

#[test]
fn boot_rom_shadowing() {
    let mut mem = create_memmap(0);
    mem.boot[0x10] = 0x99;
    mem.cart.raw_rom[0x10] = 0x55;
    assert_eq!(mem.get_byte(0x0010), 0x99);
    // Writing FF50 switches the first page to the cartridge.
    mem.set_byte(0xff50, 1);
    assert_eq!(mem.get_byte(0x0010), 0x55);
}

#[test]
fn channel_1_sweep_from_nr10() {
    // The sweep parameters of a channel-1 restart come from the FF10
    // fields: bits 6..4 time, bit 3 direction, bits 2..0 shift.
    let mut mem = create_memmap(0);
    mem.set_byte(0xff10, 0x3c); // time 3, direction 1, shift 4
    mem.set_byte(0xff14, 0x80);
    assert_eq!(mem.audio.channel_1.sweep_time, 3);
    assert_eq!(mem.audio.channel_1.sweep_dir, 1);
    assert_eq!(mem.audio.channel_1.sweep_shift, 4);
}
