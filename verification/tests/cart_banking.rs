use gbcore::cart::create_cart;

#[test]
fn no_mbc() {
    let mut cart = create_cart(0);
    cart.raw_rom[0x204] = 12;
    assert_eq!(cart.get_rom_byte(0x204), 12);
    cart.raw_rom[0x4060] = 14;
    assert_eq!(cart.get_rom_byte(0x4060), 14);
    cart.set_ram_byte(0x12, 45);
    assert_eq!(cart.get_ram_byte(0x12), 0xff);
}

#[test]
fn mbc1_rom() {
    let mut cart = create_cart(1);
    cart.raw_rom[0x204] = 12;
    assert_eq!(cart.get_rom_byte(0x204), 12);
    cart.raw_rom[0x4060] = 14;
    cart.raw_rom[0x8060] = 41;
    cart.raw_rom[0x50060] = 20;
    cart.raw_rom[0xa8060] = 42;
    assert_eq!(cart.get_rom_byte(0x4060), 14);
    cart.set_rom_bank(2);
    assert_eq!(cart.get_rom_byte(0x4060), 41);
    cart.write_rom_addr(0x6000, 0);
    cart.write_rom_addr(0x2000, 0);
    assert_eq!(cart.get_rom_byte(0x4060), 14);
    cart.write_rom_addr(0x2000, 20);
    assert_eq!(cart.get_rom_byte(0x4060), 20);
    assert_eq!(cart.rom_bank, 20);
    cart.write_rom_addr(0x4000, 1);
    cart.write_rom_addr(0x2000, 10);
    assert_eq!(cart.rom_bank, 42);
    assert_eq!(cart.get_rom_byte(0x4060), 42);
}

#[test]
fn mbc1_no_ram() {
    let cart = create_cart(1);
    assert_eq!(cart.get_ram_byte(0x02), 0xff);
}

#[test]
fn mbc1_ram() {
    let mut cart = create_cart(2);
    cart.write_rom_addr(0x1000, 0xa); // enable ram
    cart.set_ram_byte(0x02, 22);
    assert_eq!(cart.get_ram_byte(0x02), 22);
    cart.write_rom_addr(0x1000, 0);
    cart.set_ram_byte(0x02, 23);
    assert_eq!(cart.get_ram_byte(0x02), 22);
    cart.write_rom_addr(0x6000, 1);
    cart.write_rom_addr(0x4000, 2);
    cart.write_rom_addr(0x1000, 0xa);
    cart.set_ram_byte(0x304, 0xab);
    assert_eq!(cart.get_ram_byte(0x304), 0xab);
    assert_eq!(cart.raw_ram[0x4304], 0xab);
    cart.write_rom_addr(0x4000, 1);
    assert_eq!(cart.get_ram_byte(0x304), 0);
}

#[test]
fn mbc3_rom() {
    let mut cart = create_cart(0x11);
    cart.raw_rom[0x204] = 12;
    assert_eq!(cart.get_rom_byte(0x204), 12);
    cart.raw_rom[0x4060] = 14;
    cart.raw_rom[0x8060] = 41;
    cart.raw_rom[0x50060] = 20;
    cart.raw_rom[0xa8060] = 42;
    assert_eq!(cart.get_rom_byte(0x4060), 14);
    cart.set_rom_bank(2);
    assert_eq!(cart.get_rom_byte(0x4060), 41);
    cart.write_rom_addr(0x2000, 0);
    assert_eq!(cart.get_rom_byte(0x4060), 14);
    cart.write_rom_addr(0x2000, 20);
    assert_eq!(cart.get_rom_byte(0x4060), 20);
    assert_eq!(cart.rom_bank, 20);
    cart.write_rom_addr(0x2000, 42);
    assert_eq!(cart.rom_bank, 42);
    assert_eq!(cart.get_rom_byte(0x4060), 42);
}

#[test]
fn mbc1_bank_zero_promotion() {
    // Stored banks 0x20/0x40/0x60 read the bank above them under MBC1.
    let mut cart = create_cart(1);
    cart.raw_rom[0x20 * 0x4000] = 7;
    cart.raw_rom[0x21 * 0x4000] = 8;
    cart.set_rom_bank(0x20);
    assert_eq!(cart.get_rom_byte(0x4000), 8);
    assert_eq!(cart.rom_bank, 0x20);
    // A written bank of zero is stored as one.
    cart.set_rom_bank(0);
    assert_eq!(cart.rom_bank, 1);
    // Reads above the ROM window are open bus.
    assert_eq!(cart.get_rom_byte(0x8000), 0xff);
    assert_eq!(cart.get_ram_byte(0x2000), 0xff);
}

#[test]
fn cart_type_table() {
    let cart = create_cart(0x03);
    assert!(cart.mbc == gbcore::cart::MBC::MBC1);
    assert_eq!(cart.ram_size, 4);
    assert!(cart.has_battery);
    assert!(!cart.has_timer);
    let cart = create_cart(0x10);
    assert!(cart.mbc == gbcore::cart::MBC::MBC3);
    assert!(cart.has_timer);
    // Unknown codes fall back to a plain ROM.
    let cart = create_cart(0x42);
    assert!(cart.mbc == gbcore::cart::MBC::NoMBC);
    assert_eq!(cart.ram_size, 0);
    // Reconfiguring in place resets the banking registers.
    let mut cart = create_cart(0x02);
    cart.write_rom_addr(0x1000, 0x0a);
    cart.set_mbc(0x11);
    assert_eq!(cart.rom_bank, 1);
    assert!(cart.mbc == gbcore::cart::MBC::MBC3);
}
