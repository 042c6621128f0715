//! Verified core of a cycle-driven emulator for the Sharp LR35902 handheld
//! console: CPU interpreter, banked memory bus, scanline-timing GPU state
//! machine, divider/timer, and the frame driver that runs them in lock-step.
//!
//! The core is a deterministic virtual machine over plain byte arrays.  All
//! host interaction (register display, rendering, audio output) is expressed
//! as data: event queues and dirty flags that the embedder drains between
//! calls.

use vstd::prelude::*;

pub mod audio;
pub mod bits;
pub mod cart;
pub mod cpu;
pub mod gpu;
pub mod memmap;
pub mod step;
pub mod vm;

use crate::cpu::{Register8, RunState};
use crate::gpu::{GPU, GPUMode, FRAME_CLOCKS};
use crate::memmap::MemState;
use crate::step::spec_cpu_step;
use crate::vm::{VM, spec_frame_iter};

verus! {

/// A byte vector of the given length, zero-filled.
pub fn zero_bytes(n: usize) -> (r: Vec<u8>)
    ensures
        r@.len() == n,
        forall|i: int| 0 <= i < n ==> r@[i] == 0u8,
{
    let mut v: Vec<u8> = Vec::new();
    let mut i: usize = 0;
    while i < n
        invariant
            i <= n,
            v@.len() == i,
            forall|j: int| 0 <= j < i ==> v@[j] == 0u8,
        decreases n - i,
    {
        v.push(0u8);
        i = i + 1;
    }
    v
}

/// A fresh machine with no cartridge type selected and the conventional
/// entry breakpoint at `0x0100`.
pub fn create_vm() -> (r: VM)
    ensures
        r.wf(),
        r.cpu == cpu::create_cpu_state(),
        r.state == RunState::Run,
        r.breakpoints@ == seq![0x100u16],
        !r.flush_tile_data && !r.flush_tile_map_0 && !r.flush_tile_map_1,
{
    let mut breakpoints: Vec<u16> = Vec::new();
    breakpoints.push(0x100);
    let r = VM {
        cpu: cpu::create_cpu(),
        gpu: gpu::create_gpu(),
        mem: memmap::create_memmap(0),
        state: RunState::Run,
        breakpoints,
        flush_tile_data: false,
        flush_tile_map_0: false,
        flush_tile_map_1: false,
    };
    proof {
        assert(r.breakpoints@ =~= seq![0x100u16]);
    }
    r
}

/// Zero the CPU registers; memory and cartridge state are kept.
pub fn reset(vm: &mut VM)
    ensures
        final(vm).cpu == (cpu::CPU { ime: old(vm).cpu.ime, ..cpu::create_cpu_state() }),
        final(vm).mem == old(vm).mem,
        final(vm).gpu == old(vm).gpu,
        final(vm).state == old(vm).state,
        old(vm).wf() ==> final(vm).wf(),
{
    vm.cpu.reset();
}

/// Put the machine in the state the boot ROM leaves behind, so a cartridge
/// can be entered at `0x0100` without the boot image.
pub fn reset_after_bootloader(vm: &mut VM)
    requires
        old(vm).wf(),
    ensures
        final(vm).wf(),
        final(vm).cpu == (cpu::CPU {
            a: 0x01,
            b: 0,
            c: 0x13,
            d: 0,
            e: 0xd8,
            h: 0x01,
            l: 0x4d,
            flags: 0xb0,
            sp: 0xfffe,
            pc: 0x100,
            ime: old(vm).cpu.ime,
        }),
        final(vm).mem@ == old(vm).mem@.spec_simulate_bootloader(),
{
    vm.cpu.reset();
    vm.cpu.simulate_bootloader();
    vm.mem.simulate_bootloader();
}

/// Read a register for display; only the accumulator is reported.
pub fn get_register(vm: &VM, reg: char) -> (r: u8)
    ensures
        r == (if reg == 'a' {
            vm.cpu.a
        } else {
            0u8
        }),
{
    match reg {
        'a' => vm.cpu.get_register_8(Register8::A),
        _ => 0,
    }
}

/// Execute one CPU instruction and record the run state it reports (the
/// debugger primitive); the GPU and the divider/timer do not advance.
pub fn step(vm: &mut VM)
    requires
        old(vm).wf(),
    ensures
        final(vm).wf(),
        ({
            let e = spec_cpu_step(old(vm).cpu, old(vm).mem@);
            &&& final(vm).cpu == e.0
            &&& final(vm).mem@ == e.1
            &&& final(vm).state == e.2
        }),
        final(vm).gpu == old(vm).gpu,
        final(vm).mem@.timer == old(vm).mem@.timer,
        final(vm).breakpoints == old(vm).breakpoints,
{
    vm.step();
}

/// Run one video frame: the machine ends exactly as the iterated per-tick
/// semantics says.  The status is 0 while running, halted or stopped, 1
/// after a crash, and 4 when a breakpoint matched while the machine runs.
pub fn frame(vm: &mut VM) -> (status: i32)
    requires
        old(vm).wf(),
    ensures
        final(vm).wf(),
        ({
            let run = spec_frame_iter(
                old(vm).frame_state(old(vm).state, 4u8, false),
                FRAME_CLOCKS as nat,
            );
            &&& run.1 == true
            &&& final(vm).frame_state(run.0.cpu_state, run.0.cycles, run.0.breakpoint) == run.0
            &&& status == (if run.0.state == RunState::Crash {
                1int
            } else if run.0.state != RunState::Run {
                0int
            } else if run.0.breakpoint {
                4int
            } else {
                0int
            })
        }),
        final(vm).gpu == (GPU { mode: GPUMode::Mode1, time: 0, line: 143 }),
        final(vm).breakpoints == old(vm).breakpoints,
        status == 0 || status == 1 || status == 4,
        status == 1 <==> final(vm).state == RunState::Crash,
{
    let breakpoint = vm.frame();
    if vm.state != RunState::Run {
        match vm.state {
            RunState::Crash => 1,
            RunState::Halt => 0,
            RunState::Stop => 0,
            RunState::Run => 0,
        }
    } else if breakpoint {
        4
    } else {
        0
    }
}

/// Read one byte of the address space without side effects.
pub fn read_mem(vm: &VM, addr: u16) -> (r: u8)
    requires
        vm.wf(),
    ensures
        r == vm.mem@.spec_get_byte(addr),
{
    vm.mem.get_byte(addr)
}

/// Add a breakpoint address.
pub fn set_breakpoint(vm: &mut VM, addr: u16)
    ensures
        final(vm).breakpoints@ == old(vm).breakpoints@.push(addr),
        final(vm).cpu == old(vm).cpu && final(vm).mem == old(vm).mem && final(vm).gpu == old(
            vm,
        ).gpu,
        old(vm).wf() ==> final(vm).wf(),
{
    vm.breakpoints.push(addr);
}

/// Remove the first breakpoint equal to the address, if any.
pub fn clear_breakpoint(vm: &mut VM, addr: u16)
    ensures
        !old(vm).breakpoints@.contains(addr) ==> final(vm).breakpoints@ == old(vm).breakpoints@,
        old(vm).breakpoints@.contains(addr) ==> exists|i: int|
            0 <= i < old(vm).breakpoints@.len() && old(vm).breakpoints@[i] == addr && (forall|
                j: int,
            | 0 <= j < i ==> old(vm).breakpoints@[j] != addr) && final(vm).breakpoints@ == old(
                vm,
            ).breakpoints@.remove(i),
        final(vm).cpu == old(vm).cpu && final(vm).mem == old(vm).mem && final(vm).gpu == old(
            vm,
        ).gpu,
        old(vm).wf() ==> final(vm).wf(),
{
    let mut i: usize = 0;
    while i < vm.breakpoints.len()
        invariant
            i <= vm.breakpoints@.len(),
            forall|j: int| 0 <= j < i ==> vm.breakpoints@[j] != addr,
            *vm == *old(vm),
        decreases vm.breakpoints@.len() - i,
    {
        if vm.breakpoints[i] == addr {
            vm.breakpoints.remove(i);
            return;
        }
        i = i + 1;
    }
}

/// Press a key by index: 0-3 are the A, B, Select and Start buttons, 4-7
/// the Right, Left, Up and Down directions.  A pressed key clears its bit
/// in its group's nibble and requests the joypad interrupt; other indices
/// do nothing.
pub fn key_down(vm: &mut VM, btn: u8)
    requires
        old(vm).wf(),
    ensures
        final(vm).wf(),
        final(vm).mem@ == (if btn == 0 {
            old(vm).mem@.spec_key_down_button(0xe)
        } else if btn == 1 {
            old(vm).mem@.spec_key_down_button(0xd)
        } else if btn == 2 {
            old(vm).mem@.spec_key_down_button(0xb)
        } else if btn == 3 {
            old(vm).mem@.spec_key_down_button(0x7)
        } else if btn == 4 {
            old(vm).mem@.spec_key_down_direction(0xe)
        } else if btn == 5 {
            old(vm).mem@.spec_key_down_direction(0xd)
        } else if btn == 6 {
            old(vm).mem@.spec_key_down_direction(0xb)
        } else if btn == 7 {
            old(vm).mem@.spec_key_down_direction(0x7)
        } else {
            old(vm).mem@
        }),
        final(vm).cpu == old(vm).cpu && final(vm).gpu == old(vm).gpu && final(vm).state == old(
            vm,
        ).state && final(vm).breakpoints == old(vm).breakpoints,
{
    match btn {
        0 => vm.mem.key_down_button(0xe),
        1 => vm.mem.key_down_button(0xd),
        2 => vm.mem.key_down_button(0xb),
        3 => vm.mem.key_down_button(0x7),
        4 => vm.mem.key_down_direction(0xe),
        5 => vm.mem.key_down_direction(0xd),
        6 => vm.mem.key_down_direction(0xb),
        7 => vm.mem.key_down_direction(0x7),
        _ => (),
    };
}

/// Release a key by index; a released key sets its bit again and requests
/// the joypad interrupt; other indices do nothing.
pub fn key_up(vm: &mut VM, btn: u8)
    requires
        old(vm).wf(),
    ensures
        final(vm).wf(),
        final(vm).mem@ == (if btn == 0 {
            old(vm).mem@.spec_key_up_button(0x1)
        } else if btn == 1 {
            old(vm).mem@.spec_key_up_button(0x2)
        } else if btn == 2 {
            old(vm).mem@.spec_key_up_button(0x4)
        } else if btn == 3 {
            old(vm).mem@.spec_key_up_button(0x8)
        } else if btn == 4 {
            old(vm).mem@.spec_key_up_direction(0x1)
        } else if btn == 5 {
            old(vm).mem@.spec_key_up_direction(0x2)
        } else if btn == 6 {
            old(vm).mem@.spec_key_up_direction(0x4)
        } else if btn == 7 {
            old(vm).mem@.spec_key_up_direction(0x8)
        } else {
            old(vm).mem@
        }),
        final(vm).cpu == old(vm).cpu && final(vm).gpu == old(vm).gpu && final(vm).state == old(
            vm,
        ).state && final(vm).breakpoints == old(vm).breakpoints,
{
    match btn {
        0 => vm.mem.key_up_button(0x1),
        1 => vm.mem.key_up_button(0x2),
        2 => vm.mem.key_up_button(0x4),
        3 => vm.mem.key_up_button(0x8),
        4 => vm.mem.key_up_direction(0x1),
        5 => vm.mem.key_up_direction(0x2),
        6 => vm.mem.key_up_direction(0x4),
        7 => vm.mem.key_up_direction(0x8),
        _ => (),
    };
}

/// Set the whole button nibble at once; any key change requests the joypad
/// interrupt.
pub fn set_buttons(vm: &mut VM, buttons: u8)
    requires
        old(vm).wf(),
    ensures
        final(vm).wf(),
        final(vm).mem@ == old(vm).mem@.spec_set_buttons(buttons & 0xf),
        final(vm).cpu == old(vm).cpu && final(vm).gpu == old(vm).gpu && final(vm).state == old(
            vm,
        ).state && final(vm).breakpoints == old(vm).breakpoints,
{
    vm.mem.set_buttons(buttons & 0xf);
}

/// Set the whole direction nibble at once; any key change requests the
/// joypad interrupt.
pub fn set_directions(vm: &mut VM, directions: u8)
    requires
        old(vm).wf(),
    ensures
        final(vm).wf(),
        final(vm).mem@ == old(vm).mem@.spec_set_directions(directions & 0xf),
        final(vm).cpu == old(vm).cpu && final(vm).gpu == old(vm).gpu && final(vm).state == old(
            vm,
        ).state && final(vm).breakpoints == old(vm).breakpoints,
{
    vm.mem.set_directions(directions & 0xf);
}

/// Select the cartridge type by its header byte.
pub fn set_mbc(vm: &mut VM, mbc: u8)
    requires
        old(vm).wf(),
    ensures
        final(vm).wf(),
        final(vm).mem@.cart == old(vm).mem@.cart.spec_set_mbc(mbc),
{
    vm.set_mbc(mbc);
}

/// Report (and clear) whether cartridge RAM changed since the last call:
/// 1 when dirty, else 0.
pub fn is_sram_dirty(vm: &mut VM) -> (r: u8)
    ensures
        r == (if old(vm).mem@.cart_ram_dirty {
            1u8
        } else {
            0u8
        }),
        final(vm).mem@.cart_ram_dirty == false,
        old(vm).wf() ==> final(vm).wf(),
{
    if vm.mem.is_cart_ram_dirty() {
        1
    } else {
        0
    }
}

} // verus!
