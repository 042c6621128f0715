use gbcore::cpu::RunState;
use gbcore::gpu::{create_gpu, GPUAction};
use gbcore::memmap::create_memmap;
use gbcore::{
    clear_breakpoint, create_vm, frame, get_register, is_sram_dirty, key_down, key_up, read_mem,
    reset, reset_after_bootloader, set_breakpoint, set_buttons, set_directions, set_mbc, step,
};

#[test]
fn register_init() {
    let mut vm = create_vm();
    reset_after_bootloader(&mut vm);
    assert_eq!(vm.cpu.a, 0x01);
    assert_eq!(vm.cpu.flags, 0xb0);
    assert_eq!(vm.cpu.sp, 0xfffe);
    assert_eq!(vm.cpu.pc, 0x0100);
    assert_eq!(read_mem(&vm, 0xff40), 0x91);
    assert_eq!(get_register(&vm, 'a'), 0x01);
    assert_eq!(get_register(&vm, 'b'), 0);
}

#[test]
fn ld_bc_immediate() {
    let mut vm = create_vm();
    vm.cpu.pc = 0xc010;
    vm.mem.set_byte(0xc010, 0x01);
    vm.mem.set_byte(0xc011, 0x3d);
    vm.mem.set_byte(0xc012, 0x00);
    step(&mut vm);
    assert_eq!(vm.cpu.b, 0x00);
    assert_eq!(vm.cpu.c, 0x3d);
    assert_eq!(vm.cpu.pc, 0xc013);
}

#[test]
fn adc_carry_boundary() {
    let mut vm = create_vm();
    vm.cpu.pc = 0xc010;
    vm.cpu.flags = 0x10;
    vm.cpu.a = 0x38;
    vm.cpu.b = 0x05;
    vm.mem.set_byte(0xc010, 0x88);
    vm.mem.set_byte(0xc011, 0x88);
    step(&mut vm);
    assert_eq!(vm.cpu.a, 0x3e);
    assert_eq!(vm.cpu.flags, 0x00);
    step(&mut vm);
    assert_eq!(vm.cpu.a, 0x43);
    assert_eq!(vm.cpu.flags, 0x20);
}

#[test]
fn jr_backward() {
    let mut vm = create_vm();
    vm.cpu.pc = 0xc010;
    vm.mem.set_byte(0xc010, 0x18);
    vm.mem.set_byte(0xc011, 0x14);
    step(&mut vm);
    assert_eq!(vm.cpu.pc, 0xc026);
    vm.mem.set_byte(0xc026, 0x18);
    vm.mem.set_byte(0xc027, 0xfc);
    step(&mut vm);
    assert_eq!(vm.cpu.pc, 0xc024);
}

#[test]
fn mbc1_ram_banking() {
    let mut vm = create_vm();
    set_mbc(&mut vm, 0x02);
    vm.mem.set_byte(0x1000, 0x0a);
    vm.mem.set_byte(0xa000, 2);
    assert_eq!(read_mem(&vm, 0xa000), 2);
    vm.mem.set_byte(0x6000, 1);
    vm.mem.set_byte(0x4000, 2);
    vm.mem.set_byte(0x1000, 0x0a);
    vm.mem.set_byte(0xa304, 0xab);
    assert_eq!(read_mem(&vm, 0xa304), 0xab);
    vm.mem.set_byte(0x4000, 1);
    assert_eq!(read_mem(&vm, 0xa304), 0);
}

#[test]
fn gpu_mode_progression() {
    let mut gpu = create_gpu();
    let mut mem = create_memmap(0);
    // OAM scan lasts 80 clocks, then the STAT low bits show mode 3.
    let a = gpu.add_clock_time(&mut mem, 40);
    assert!(a == GPUAction::Noop);
    let a = gpu.add_clock_time(&mut mem, 40);
    assert!(a == GPUAction::Noop);
    assert_eq!(mem.get_byte(0xff41) & 0x3, 3);
    // Pixel transfer lasts 172 clocks and yields the scanline.
    let mut rendered = false;
    for _ in 0..5 {
        if gpu.add_clock_time(&mut mem, 40) == GPUAction::RenderScanline(0) {
            rendered = true;
        }
    }
    assert!(rendered);
    assert_eq!(mem.get_byte(0xff41) & 0x3, 0);
}

#[test]
fn gpu_frame_period() {
    // Between two buffer flushes the mode machine consumes exactly 70 224
    // clocks.
    let mut gpu = create_gpu();
    let mut mem = create_memmap(0);
    let mut flushes = 0u32;
    let mut since_flush = 0u32;
    let mut first = 0u32;
    let mut second = 0u32;
    while flushes < 2 {
        let action = gpu.add_clock_time(&mut mem, 4);
        since_flush += 4;
        if action == GPUAction::FlushBuffer {
            flushes += 1;
            if flushes == 1 {
                first = since_flush;
            } else {
                second = since_flush;
            }
            since_flush = 0;
        }
    }
    // The machine starts at line 0 in OAM scan, 5016 clocks into the frame.
    assert_eq!(first, 70224 - 5016);
    assert_eq!(second, 70224);
    // VBlank raises the interrupt flag.
    assert_eq!(mem.get_byte(0xff0f) & 1, 1);
}

#[test]
fn frame_runs_to_flush() {
    let mut vm = create_vm();
    reset_after_bootloader(&mut vm);
    // NOP-filled memory: the frame loop runs to the flush boundary.
    let status = frame(&mut vm);
    assert_eq!(read_mem(&vm, 0xff44), 143);
    // With an empty cartridge, PC runs through NOP bytes (0x00) and the
    // frame completes normally.
    assert_eq!(status, 0);
    // The first frame reports all tile regions for upload.
    assert!(vm.flush_tile_data);
}

#[test]
fn frame_breakpoint_status() {
    let mut vm = create_vm();
    reset_after_bootloader(&mut vm);
    clear_breakpoint(&mut vm, 0x100);
    // PC walks through NOPs and crosses the breakpoint during the frame.
    set_breakpoint(&mut vm, 0x0120);
    let status = frame(&mut vm);
    assert_eq!(status, 4);
    assert_eq!(vm.cpu.pc, 0x0120);
    clear_breakpoint(&mut vm, 0x0120);
    let status = frame(&mut vm);
    assert_eq!(status, 0);
}

#[test]
fn crash_status_persists() {
    let mut vm = create_vm();
    vm.mem.set_byte(0xff50, 1);
    vm.cpu.pc = 0xc010;
    vm.mem.set_byte(0xc010, 0xd3);
    clear_breakpoint(&mut vm, 0x100);
    let status = frame(&mut vm);
    assert_eq!(status, 1);
    assert!(vm.state == RunState::Crash);
    // Reset recovers.
    reset(&mut vm);
    assert_eq!(vm.cpu.pc, 0);
    assert!(vm.cpu.a == 0);
}

#[test]
fn key_indices_map_to_masks() {
    let mut vm = create_vm();
    key_down(&mut vm, 0); // A button: bit 0 cleared
    assert_eq!(read_mem(&vm, 0xff00), 0xe);
    key_up(&mut vm, 0);
    assert_eq!(read_mem(&vm, 0xff00), 0xf);
    key_down(&mut vm, 3); // Start: bit 3 cleared
    assert_eq!(read_mem(&vm, 0xff00), 0x7);
    // Direction keys live in the other nibble.
    vm.mem.set_byte(0xff00, 0x20);
    key_down(&mut vm, 4); // Right
    assert_eq!(read_mem(&vm, 0xff00), 0xe);
    key_up(&mut vm, 4);
    assert_eq!(read_mem(&vm, 0xff00), 0xf);
}

#[test]
fn button_nibbles_set_directly() {
    let mut vm = create_vm();
    set_buttons(&mut vm, 0xf5);
    assert_eq!(read_mem(&vm, 0xff00), 0x5);
    vm.mem.set_byte(0xff00, 0x20);
    set_directions(&mut vm, 0xfa);
    assert_eq!(read_mem(&vm, 0xff00), 0xa);
}

#[test]
fn sram_dirty_reporting() {
    let mut vm = create_vm();
    set_mbc(&mut vm, 0x02);
    assert_eq!(is_sram_dirty(&mut vm), 0);
    vm.mem.set_byte(0x1000, 0x0a);
    vm.mem.set_byte(0xa000, 1);
    assert_eq!(is_sram_dirty(&mut vm), 1);
    assert_eq!(is_sram_dirty(&mut vm), 0);
}

#[test]
fn halt_wakes_on_interrupt() {
    let mut vm = create_vm();
    vm.mem.set_byte(0xff50, 1);
    clear_breakpoint(&mut vm, 0x100);
    vm.cpu.pc = 0xc010;
    vm.cpu.sp = 0xfffe;
    vm.mem.set_byte(0xc010, 0x76); // HALT
    vm.cpu.enable_interrupts();
    vm.mem.set_byte(0xffff, 0x01); // enable VBlank
    let _ = frame(&mut vm);
    // The GPU raised VBlank during the frame; the interrupt woke the CPU
    // and vectored it through 0x40.
    assert!(vm.state == RunState::Run);
}
