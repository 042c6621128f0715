use gbcore::cpu::create_cpu;
use gbcore::cpu::Register8;
use gbcore::cpu::Register16;
use gbcore::cpu::RunState;
use gbcore::memmap::create_memmap;

#[test]
fn get_register_8() {
    let mut cpu = create_cpu();
    cpu.a = 5;
    assert_eq!(cpu.get_register_8(Register8::A), 5);
}

#[test]
fn increment() {
    let mut cpu = create_cpu();
    cpu.set_register_8(Register8::B, 5);
    cpu.inc_8(Register8::B);
    assert_eq!(cpu.get_register_8(Register8::B), 6);
    assert_eq!(cpu.get_register_8(Register8::Flags), 0);

    cpu.set_register_8(Register8::B, 0x2f);
    cpu.inc_8(Register8::B);
    assert_eq!(cpu.get_register_8(Register8::B), 0x30);
    assert!(cpu.flags & (1 << 5) > 0);

    cpu.set_register_8(Register8::B, 0xff);
    cpu.inc_8(Register8::B);
    assert_eq!(cpu.get_register_8(Register8::B), 0);
    assert!(cpu.flags & (1 << 7) > 0);
    assert!(cpu.flags & (1 << 5) > 0);
}

#[test]
fn instruction_0x01() {
    let mut cpu = create_cpu();
    let mut mem = create_memmap(0);
    cpu.pc = 0xc010;
    mem.set_byte(0xc010, 0x01);
    mem.set_byte(0xc011, 0x3d);
    assert_eq!(mem.get_byte(0xc010), 0x01);
    cpu.step(&mut mem);
    assert_eq!(cpu.get_register_16(Register16::BC), 0x3d);
}

#[test]
fn instruction_0x02() {
    let mut cpu = create_cpu();
    let mut mem = create_memmap(0);
    cpu.pc = 0xc010;
    cpu.a = 36;
    cpu.set_register_16(Register16::BC, 0x8040);
    mem.set_byte(0xc010, 0x02);
    cpu.step(&mut mem);
    assert_eq!(mem.get_byte(0x8040), 36);
}

#[test]
fn instruction_0x03() {
    let mut cpu = create_cpu();
    let mut mem = create_memmap(0);
    cpu.pc = 0xc010;
    cpu.set_register_16(Register16::BC, 4);
    mem.set_byte(0xc010, 0x03);
    cpu.step(&mut mem);
    assert_eq!(cpu.get_register_16(Register16::BC), 5);
}

#[test]
fn instruction_0x04() {
    let mut cpu = create_cpu();
    let mut mem = create_memmap(0);
    cpu.pc = 0xc010;
    cpu.set_register_8(Register8::B, 40);
    mem.set_byte(0xc010, 0x04);
    cpu.step(&mut mem);
    assert_eq!(cpu.get_register_8(Register8::B), 41);
}

#[test]
fn instruction_0x05() {
    let mut cpu = create_cpu();
    let mut mem = create_memmap(0);
    cpu.pc = 0xc010;
    cpu.set_register_8(Register8::B, 1);
    mem.set_byte(0xc010, 0x05);
    cpu.step(&mut mem);
    assert_eq!(cpu.get_register_8(Register8::B), 0);
    assert!(cpu.get_register_8(Register8::Flags) & (1 << 7) > 0);
}

#[test]
fn instruction_0x06() {
    let mut cpu = create_cpu();
    let mut mem = create_memmap(0);
    cpu.pc = 0xc010;
    mem.set_byte(0xc010, 0x06);
    mem.set_byte(0xc011, 60);
    cpu.step(&mut mem);
    assert_eq!(cpu.get_register_8(Register8::B), 60);
}

#[test]
fn instruction_0x08() {
    let mut cpu = create_cpu();
    let mut mem = create_memmap(0);
    cpu.pc = 0xc010;
    cpu.sp = 0xfffc;
    mem.set_byte(0xc010, 0x08);
    mem.set_word(0xc011, 0x8088);
    cpu.step(&mut mem);
    assert_eq!(mem.get_word(0x8088), 0xfffc);
}

#[test]
fn instruction_0x09() {
    let mut cpu = create_cpu();
    let mut mem = create_memmap(0);
    cpu.pc = 0xc010;
    cpu.set_register_16(Register16::HL, 0x4040);
    cpu.set_register_16(Register16::BC, 0x102);
    mem.set_byte(0xc010, 0x09);
    cpu.step(&mut mem);
    assert_eq!(cpu.get_register_16(Register16::HL), 0x4142);
    // test wrap
    cpu.set_register_16(Register16::HL, 0xfff7);
    cpu.set_register_16(Register16::BC, 0xb);
    mem.set_byte(0xc011, 0x09);
    cpu.step(&mut mem);
    assert_eq!(cpu.get_register_16(Register16::HL), 2);
}

#[test]
fn instruction_0x0a() {
    let mut cpu = create_cpu();
    let mut mem = create_memmap(0);
    cpu.pc = 0xc010;
    cpu.set_register_16(Register16::BC, 0x8123);
    mem.set_byte(0x8123, 45);
    mem.set_byte(0xc010, 0x0a);
    cpu.step(&mut mem);
    assert_eq!(cpu.get_register_8(Register8::A), 45);
}

#[test]
fn instruction_0x0e() {
    let mut cpu = create_cpu();
    let mut mem = create_memmap(0);
    cpu.pc = 0xc010;
    cpu.c = 5;
    mem.set_byte(0xc010, 0x0e);
    mem.set_byte(0xc011, 0xf0);
    cpu.step(&mut mem);
    assert_eq!(cpu.get_register_8(Register8::C), 0xf0);
}

#[test]
fn instruction_0x11() {
    let mut cpu = create_cpu();
    let mut mem = create_memmap(0);
    cpu.pc = 0xc010;
    mem.set_byte(0xc010, 0x11);
    mem.set_word(0xc011, 0x1234);
    cpu.step(&mut mem);
    assert_eq!(cpu.get_register_16(Register16::DE), 0x1234);
}

#[test]
fn instruction_0x12() {
    let mut cpu = create_cpu();
    let mut mem = create_memmap(0);
    cpu.pc = 0xc010;
    cpu.a = 99;
    cpu.set_register_16(Register16::DE, 0x8003);
    mem.set_byte(0xc010, 0x12);
    cpu.step(&mut mem);
    assert_eq!(mem.get_byte(0x8003), 99);
}

#[test]
fn instruction_0x16() {
    let mut cpu = create_cpu();
    let mut mem = create_memmap(0);
    cpu.pc = 0xc010;
    mem.set_byte(0xc010, 0x16);
    mem.set_byte(0xc011, 12);
    cpu.step(&mut mem);
    assert_eq!(cpu.get_register_8(Register8::D), 12);
}

#[test]
fn instruction_0x18() {
    let mut cpu = create_cpu();
    let mut mem = create_memmap(0);
    cpu.pc = 0xc010;
    mem.set_byte(0xc010, 0x18);
    mem.set_byte(0xc011, 0x14);
    cpu.step(&mut mem);
    assert_eq!(cpu.pc, 0xc026);
    mem.set_byte(0xc026, 0x18);
    mem.set_byte(0xc027, 0xfc); // -4
    cpu.step(&mut mem);
    assert_eq!(cpu.pc, 0xc024);
}

#[test]
fn instruction_0x19() {
    let mut cpu = create_cpu();
    let mut mem = create_memmap(0);
    cpu.pc = 0xc010;
    cpu.set_register_16(Register16::HL, 0x0030);
    cpu.set_register_16(Register16::DE, 0x0120);
    mem.set_byte(0xc010, 0x19);
    cpu.step(&mut mem);
    assert_eq!(cpu.get_register_16(Register16::HL), 0x150);
}

#[test]
fn instruction_0x1a() {
    let mut cpu = create_cpu();
    let mut mem = create_memmap(0);
    cpu.pc = 0xc010;
    cpu.set_register_16(Register16::DE, 0x8003);
    mem.set_byte(0xc010, 0x1a);
    mem.set_byte(0x8003, 99);
    cpu.step(&mut mem);
    assert_eq!(cpu.a, 99);
}

#[test]
fn instruction_0x1e() {
    let mut cpu = create_cpu();
    let mut mem = create_memmap(0);
    cpu.pc = 0xc010;
    mem.set_byte(0xc010, 0x1e);
    mem.set_byte(0xc011, 88);
    cpu.step(&mut mem);
    assert_eq!(cpu.get_register_8(Register8::E), 88);
}

#[test]
fn instruction_0x20() {
    let mut cpu = create_cpu();
    let mut mem = create_memmap(0);
    cpu.pc = 0xc010;
    cpu.set_flag(7);
    mem.set_byte(0xc010, 0x20);
    mem.set_byte(0xc011, 0x12);
    cpu.step(&mut mem);
    assert_eq!(cpu.pc, 0xc012);
    cpu.pc = 0xc010;
    cpu.clear_flag(7);
    cpu.step(&mut mem);
    assert_eq!(cpu.pc, 0xc024);
}

#[test]
fn instruction_0x22() {
    let mut cpu = create_cpu();
    let mut mem = create_memmap(0);
    cpu.pc = 0xc010;
    cpu.a = 4;
    cpu.set_register_16(Register16::HL, 0x8089);
    mem.set_byte(0xc010, 0x22);
    cpu.step(&mut mem);
    assert_eq!(mem.get_byte(0x8089), 4);
    assert_eq!(cpu.get_register_16(Register16::HL), 0x808a);
}

#[test]
fn instruction_0x2f() {
    let mut cpu = create_cpu();
    let mut mem = create_memmap(0);
    cpu.pc = 0xc010;
    cpu.a = 0x2f;
    mem.set_byte(0xc010, 0x2f);
    cpu.step(&mut mem);
    assert_eq!(cpu.get_register_8(Register8::A), 0xd0);
}

#[test]
fn instruction_0x88() {
    let mut cpu = create_cpu();
    let mut mem = create_memmap(0);
    cpu.pc = 0xc010;
    cpu.flags = 1 << 4;
    cpu.a = 0x38;
    cpu.b = 0x05;
    mem.set_byte(0xc010, 0x88);
    mem.set_byte(0xc011, 0x88);
    mem.set_byte(0xc012, 0x88);
    mem.set_byte(0xc013, 0x88);
    cpu.step(&mut mem);
    assert_eq!(cpu.get_register_8(Register8::A), 0x3e);
    assert_eq!(cpu.flags, 0x00);
    cpu.step(&mut mem);
    assert_eq!(cpu.get_register_8(Register8::A), 0x43);
    assert_eq!(cpu.flags, 0x20);
    cpu.b = 0xbd;
    cpu.step(&mut mem);
    assert_eq!(cpu.get_register_8(Register8::A), 0x00);
    assert_eq!(cpu.flags, 0xb0);
    cpu.a = 0x43;
    cpu.b = 0xbc;
    cpu.step(&mut mem);
    assert_eq!(cpu.get_register_8(Register8::A), 0x00);
    assert_eq!(cpu.flags, 0xb0);
}

#[test]
fn instruction_0xc0() {
    let mut cpu = create_cpu();
    let mut mem = create_memmap(0);
    cpu.pc = 0xc010;
    cpu.sp = 0xfffe;
    cpu.push(&mut mem, 43);
    mem.set_byte(0xc010, 0xc0);
    cpu.set_flag(7);
    cpu.step(&mut mem);
    assert_eq!(cpu.pc, 0xc011);
    cpu.pc = 0xc010;
    cpu.clear_flag(7);
    cpu.step(&mut mem);
    assert_eq!(cpu.pc, 43);
}

#[test]
fn instruction_0xc1() {
    let mut cpu = create_cpu();
    let mut mem = create_memmap(0);
    cpu.pc = 0xc010;
    cpu.sp = 0xfffe;
    cpu.push(&mut mem, 43);
    mem.set_byte(0xc010, 0xc1);
    cpu.step(&mut mem);
    assert_eq!(cpu.get_register_16(Register16::BC), 43);
}

#[test]
fn instruction_0xc2() {
    let mut cpu = create_cpu();
    let mut mem = create_memmap(0);
    cpu.pc = 0xc010;
    cpu.set_flag(7);
    mem.set_byte(0xc010, 0xc2);
    mem.set_word(0xc011, 0x2345);
    cpu.step(&mut mem);
    assert_eq!(cpu.pc, 0xc013);
    cpu.pc = 0xc010;
    cpu.clear_flag(7);
    cpu.step(&mut mem);
    assert_eq!(cpu.pc, 0x2345);
}

#[test]
fn instruction_0xc3() {
    let mut cpu = create_cpu();
    let mut mem = create_memmap(0);
    cpu.pc = 0xc010;
    mem.set_byte(0xc010, 0xc3);
    mem.set_word(0xc011, 0x2345);
    cpu.step(&mut mem);
    assert_eq!(cpu.pc, 0x2345);
}

#[test]
fn instruction_0xc4() {
    let mut cpu = create_cpu();
    let mut mem = create_memmap(0);
    cpu.pc = 0xc010;
    cpu.sp = 0xfffe;
    cpu.set_flag(7);
    mem.set_byte(0xc010, 0xc4);
    mem.set_word(0xc011, 200);
    cpu.step(&mut mem);
    assert_eq!(cpu.pc, 0xc013);
    cpu.pc = 0xc010;
    cpu.clear_flag(7);
    cpu.step(&mut mem);
    assert_eq!(cpu.pc, 200);
    assert_eq!(mem.get_word(0xfffc), 0xc013);
}

#[test]
fn instruction_0xc5() {
    let mut cpu = create_cpu();
    let mut mem = create_memmap(0);
    cpu.pc = 0xc010;
    cpu.sp = 0xfffe;
    cpu.set_register_16(Register16::BC, 0x331);
    mem.set_byte(0xc010, 0xc5);
    cpu.step(&mut mem);
    assert_eq!(mem.get_word(0xfffc), 0x331);
}

#[test]
fn instruction_0xe0() {
    let mut cpu = create_cpu();
    let mut mem = create_memmap(0);
    cpu.pc = 0xc010;
    cpu.a = 5;
    mem.set_byte(0xc010, 0xe0);
    mem.set_byte(0xc011, 0x40);
    cpu.step(&mut mem);
    assert_eq!(mem.get_byte(0xff40), 5);
}

#[test]
fn instruction_0xe2() {
    let mut cpu = create_cpu();
    let mut mem = create_memmap(0);
    cpu.pc = 0xc010;
    cpu.a = 5;
    cpu.c = 0x81;
    mem.set_byte(0xc010, 0xe2);
    cpu.step(&mut mem);
    assert_eq!(mem.get_byte(0xff81), 5);
}

#[test]
fn undefined_opcode_crashes() {
    let mut cpu = create_cpu();
    let mut mem = create_memmap(0);
    cpu.pc = 0xc010;
    mem.set_byte(0xc010, 0xd3);
    let (state, _cycles) = cpu.step(&mut mem);
    assert!(state == RunState::Crash);
    // PC stops advancing until reset.
    assert_eq!(cpu.pc, 0xc010);
}

#[test]
fn halt_and_stop_states() {
    let mut cpu = create_cpu();
    let mut mem = create_memmap(0);
    cpu.pc = 0xc010;
    mem.set_byte(0xc010, 0x76);
    let (state, _) = cpu.step(&mut mem);
    assert!(state == RunState::Halt);
    assert_eq!(cpu.pc, 0xc011);
    mem.set_byte(0xc011, 0x10);
    let (state, _) = cpu.step(&mut mem);
    assert!(state == RunState::Stop);
}

#[test]
fn flags_low_nibble_stays_zero() {
    // A sweep of representative opcodes never leaves a bit in the low
    // nibble of F.
    let mut cpu = create_cpu();
    let mut mem = create_memmap(0);
    let program: [u8; 12] = [0x3e, 0x0f, 0xc6, 0x01, 0x27, 0x37, 0x3f, 0x07, 0x17, 0xb8, 0x97,
        0x2f];
    for (i, b) in program.iter().enumerate() {
        mem.set_byte(0xc000 + i as u16, *b);
    }
    cpu.pc = 0xc000;
    for _ in 0..10 {
        cpu.step(&mut mem);
        assert_eq!(cpu.flags & 0x0f, 0);
    }
}

#[test]
fn push_pop_round_trip() {
    let mut cpu = create_cpu();
    let mut mem = create_memmap(0);
    cpu.sp = 0xfffe;
    cpu.push(&mut mem, 0x1234);
    assert_eq!(cpu.sp, 0xfffc);
    let v = cpu.pop(&mut mem);
    assert_eq!(v, 0x1234);
    assert_eq!(cpu.sp, 0xfffe);
}

#[test]
fn push_pop_af_masks_low_nibble() {
    let mut cpu = create_cpu();
    let mut mem = create_memmap(0);
    cpu.pc = 0xc010;
    cpu.sp = 0xfffe;
    cpu.a = 0x12;
    cpu.flags = 0xb0;
    mem.set_byte(0xc010, 0xf5); // PUSH AF
    mem.set_byte(0xc011, 0xc1); // POP BC
    cpu.step(&mut mem);
    cpu.step(&mut mem);
    assert_eq!(cpu.get_register_16(Register16::BC), 0x12b0);
    // A stack word with a dirty low nibble is masked by POP AF.
    cpu.pc = 0xc012;
    cpu.sp = 0xfffe;
    cpu.push(&mut mem, 0x34ab);
    mem.set_byte(0xc012, 0xf1); // POP AF
    cpu.step(&mut mem);
    assert_eq!(cpu.get_register_16(Register16::AF), 0x34a0);
    assert_eq!(cpu.flags & 0x0f, 0);
}

#[test]
fn conditional_false_advances_pc() {
    let mut cpu = create_cpu();
    let mut mem = create_memmap(0);
    // JR Z with Z clear: PC moves by the instruction length only.
    cpu.pc = 0xc010;
    mem.set_byte(0xc010, 0x28);
    mem.set_byte(0xc011, 0x30);
    cpu.step(&mut mem);
    assert_eq!(cpu.pc, 0xc012);
    // CALL C with C clear.
    mem.set_byte(0xc012, 0xdc);
    mem.set_word(0xc013, 0x1234);
    cpu.step(&mut mem);
    assert_eq!(cpu.pc, 0xc015);
    // RET NC with C set.
    cpu.set_flag(4);
    mem.set_byte(0xc015, 0xd0);
    cpu.step(&mut mem);
    assert_eq!(cpu.pc, 0xc016);
    // JP NZ with Z set.
    cpu.set_flag(7);
    mem.set_byte(0xc016, 0xc2);
    mem.set_word(0xc017, 0x1234);
    cpu.step(&mut mem);
    assert_eq!(cpu.pc, 0xc019);
}

#[test]
fn daa_adjusts_bcd_sum() {
    let mut cpu = create_cpu();
    let mut mem = create_memmap(0);
    // 0x15 + 0x27 = 0x3C; decimal adjust gives 0x42.
    cpu.pc = 0xc010;
    cpu.a = 0x15;
    cpu.b = 0x27;
    mem.set_byte(0xc010, 0x80); // ADD A,B
    mem.set_byte(0xc011, 0x27); // DAA
    cpu.step(&mut mem);
    assert_eq!(cpu.a, 0x3c);
    cpu.step(&mut mem);
    assert_eq!(cpu.a, 0x42);
    assert_eq!(cpu.flags & 0x10, 0);
}

#[test]
fn prefixed_swap_and_bit() {
    let mut cpu = create_cpu();
    let mut mem = create_memmap(0);
    cpu.pc = 0xc010;
    cpu.b = 0xab;
    mem.set_byte(0xc010, 0xcb);
    mem.set_byte(0xc011, 0x30); // SWAP B
    cpu.step(&mut mem);
    assert_eq!(cpu.b, 0xba);
    assert_eq!(cpu.pc, 0xc012);
    mem.set_byte(0xc012, 0xcb);
    mem.set_byte(0xc013, 0x40); // BIT 0,B
    cpu.step(&mut mem);
    // Bit 0 of 0xba is clear, so Z is set; H is set, N clear.
    assert_eq!(cpu.flags & 0x80, 0x80);
    assert_eq!(cpu.flags & 0x20, 0x20);
}

#[test]
fn prefixed_res_set_on_memory() {
    let mut cpu = create_cpu();
    let mut mem = create_memmap(0);
    cpu.pc = 0xc010;
    cpu.set_register_16(Register16::HL, 0xc100);
    mem.set_byte(0xc100, 0xff);
    mem.set_byte(0xc010, 0xcb);
    mem.set_byte(0xc011, 0xbe); // RES 7,(HL)
    cpu.step(&mut mem);
    assert_eq!(mem.get_byte(0xc100), 0x7f);
    mem.set_byte(0xc012, 0xcb);
    mem.set_byte(0xc013, 0xfe); // SET 7,(HL)
    cpu.step(&mut mem);
    assert_eq!(mem.get_byte(0xc100), 0xff);
}

#[test]
fn sbc_immediate_borrow() {
    let mut cpu = create_cpu();
    let mut mem = create_memmap(0);
    cpu.pc = 0xc010;
    cpu.a = 0x10;
    cpu.flags = 0x10; // carry set
    mem.set_byte(0xc010, 0xde); // SBC A,n
    mem.set_byte(0xc011, 0x01);
    cpu.step(&mut mem);
    assert_eq!(cpu.a, 0x0e);
    assert_eq!(cpu.pc, 0xc012);
    // N is set, H set (borrow from bit 4), C clear.
    assert_eq!(cpu.flags, 0x60);
}

#[test]
fn add_sp_offset_flags() {
    let mut cpu = create_cpu();
    let mut mem = create_memmap(0);
    cpu.pc = 0xc010;
    cpu.sp = 0xfff8;
    mem.set_byte(0xc010, 0xe8); // ADD SP,d
    mem.set_byte(0xc011, 0x08);
    cpu.step(&mut mem);
    assert_eq!(cpu.sp, 0x0000);
    // H: 0x8 + 0x8 carries out of bit 3; C: 0xf8 + 0x08 carries out of bit 7.
    assert_eq!(cpu.flags, 0x30);
    // Negative offset.
    cpu.pc = 0xc012;
    mem.set_byte(0xc012, 0xe8);
    mem.set_byte(0xc013, 0xfe); // -2
    cpu.step(&mut mem);
    assert_eq!(cpu.sp, 0xfffe);
}

#[test]
fn ldhl_sp_offset() {
    let mut cpu = create_cpu();
    let mut mem = create_memmap(0);
    cpu.pc = 0xc010;
    cpu.sp = 0xc0f0;
    mem.set_byte(0xc010, 0xf8); // LDHL SP,d
    mem.set_byte(0xc011, 0x12);
    cpu.step(&mut mem);
    assert_eq!(cpu.get_register_16(Register16::HL), 0xc102);
    assert_eq!(cpu.sp, 0xc0f0);
}

#[test]
fn interrupt_vector_entry() {
    let mut cpu = create_cpu();
    let mut mem = create_memmap(0);
    cpu.pc = 0xc123;
    cpu.sp = 0xfffe;
    cpu.enable_interrupts();
    cpu.int_vblank(&mut mem);
    assert_eq!(cpu.pc, 0x40);
    assert_eq!(cpu.sp, 0xfffc);
    assert_eq!(mem.get_word(0xfffc), 0xc123);
    assert!(!cpu.interrupt_enabled());
}
