//! The frame driver: steps the CPU, feeds its cycle count to the GPU mode
//! machine and the divider/timer, services interrupts, honours breakpoints,
//! and runs until the GPU flushes one video frame.

use vstd::prelude::*;
use crate::cpu::{CPU, RunState};
use crate::gpu::{GPU, GPUAction, GPUMode, frame_clock, law_frame_period, spec_gpu_tick,
    FRAME_CLOCKS};
use crate::memmap::{MemMap, MemState};
use crate::step::{spec_cpu_step, lemma_cpu_step_keeps_timer};

verus! {

pub struct VM {
    pub cpu: CPU,
    pub gpu: GPU,
    pub mem: MemMap,
    pub state: RunState,

    pub breakpoints: Vec<u16>,

    /// Which video regions were dirty when the last frame was flushed; the
    /// host reads these after `frame` returns and re-uploads what changed.
    pub flush_tile_data: bool,
    pub flush_tile_map_0: bool,
    pub flush_tile_map_1: bool,
}

/// The frame loop's whole state: the machine, plus the loop's locals (the
/// run state the CPU last reported, the last instruction's cycle cost, and
/// whether a breakpoint has matched this frame).
#[verifier::ext_equal]
pub struct FrameState {
    pub cpu: CPU,
    pub gpu: GPU,
    pub mem: MemState,
    pub state: RunState,
    pub breakpoints: Seq<u16>,
    pub flush_tile_data: bool,
    pub flush_tile_map_0: bool,
    pub flush_tile_map_1: bool,
    pub cpu_state: RunState,
    pub cycles: u8,
    pub breakpoint: bool,
}

/// Effect of one GPU/timer advance by `time` clocks: the mode machine moves
/// (updating the STAT low bits and the VBlank interrupt flag), the
/// divider/timer and audio advance, and the GPU's signal is acted on — the
/// new line is stored in LY, or at the frame boundary LY is set to 143 and
/// the dirty flags are captured for the host and cleared.
pub open spec fn spec_tick_timing(
    gpu: GPU,
    mem: MemState,
    ftd: bool,
    fm0: bool,
    fm1: bool,
    time: u8,
) -> (GPU, MemState, bool, bool, bool, GPUAction) {
    let g = spec_gpu_tick(gpu, mem.zero_page[0x41], mem.zero_page[0x0f], time);
    let mem2 = MemState {
        zero_page: mem.zero_page.update(0x41, g.1).update(0x0f, g.2),
        ..mem
    };
    let mem3 = mem2.spec_add_time(time);
    match g.3 {
        GPUAction::IncrementLine(line) => (g.0, mem3.spec_set_byte(0xff44, line), ftd, fm0, fm1,
            g.3),
        GPUAction::FlushBuffer => {
            let m = mem3.spec_set_byte(0xff44, 143);
            (
                g.0,
                MemState {
                    tile_data_dirty: false,
                    tile_map_0_dirty: false,
                    tile_map_1_dirty: false,
                    ..m
                },
                m.tile_data_dirty,
                m.tile_map_0_dirty,
                m.tile_map_1_dirty,
                g.3,
            )
        },
        _ => (g.0, mem3, ftd, fm0, fm1, g.3),
    }
}

/// Effect of the interrupt pass: with the master enable set and some
/// interrupt both enabled (`FFFF`) and pending (`FF0F`), a stopped CPU
/// resumes to Run, and each pending source is serviced in priority order
/// VBlank, STAT, Timer, Joypad (Serial is not modeled): its flag bit is
/// cleared and the CPU vectors to its handler, dropping the master enable.
pub open spec fn spec_service_interrupts(
    cpu: CPU,
    mem: MemState,
    state: RunState,
    cpu_state: RunState,
) -> (CPU, MemState, RunState, RunState) {
    if !cpu.ime {
        (cpu, mem, state, cpu_state)
    } else {
        let enabled = mem.spec_get_byte(0xffff);
        let pending = mem.spec_get_byte(0xff0f);
        let fired = enabled & pending;
        if fired == 0 {
            (cpu, mem, state, cpu_state)
        } else {
            let woken: (RunState, RunState) = if state != RunState::Run {
                (RunState::Run, RunState::Run)
            } else {
                (state, cpu_state)
            };
            let step1: (CPU, MemState, u8) = if fired & 1 > 0 {
                let cleared = pending & 0xfe;
                let m = mem.spec_set_byte(0xff0f, cleared);
                let ci = cpu.spec_interrupt(m, 0x40);
                (ci.0, ci.1, cleared)
            } else {
                (cpu, mem, pending)
            };
            let step2: (CPU, MemState, u8) = if fired & 2 > 0 {
                let cleared = step1.2 & 0xfd;
                let m = step1.1.spec_set_byte(0xff0f, cleared);
                let ci = step1.0.spec_interrupt(m, 0x48);
                (ci.0, ci.1, cleared)
            } else {
                step1
            };
            let step3: (CPU, MemState, u8) = if fired & 4 > 0 {
                let cleared = step2.2 & 0xfb;
                let m = step2.1.spec_set_byte(0xff0f, cleared);
                let ci = step2.0.spec_interrupt(m, 0x50);
                (ci.0, ci.1, cleared)
            } else {
                step2
            };
            let step4: (CPU, MemState, u8) = if fired & 16 > 0 {
                let cleared = step3.2 & 0xef;
                let m = step3.1.spec_set_byte(0xff0f, cleared);
                let ci = step3.0.spec_interrupt(m, 0x60);
                (ci.0, ci.1, cleared)
            } else {
                step3
            };
            (step4.0, step4.1, woken.0, woken.1)
        }
    }
}

/// One pass of the frame loop: the CPU executes an instruction unless a
/// breakpoint matched or it is not in Run; the loop notes a breakpoint match
/// on the new program counter; the GPU and timer advance by the cycle cost;
/// pending enabled interrupts are serviced unless a breakpoint matched.
#[verifier::opaque]
pub open spec fn spec_frame_tick(s: FrameState) -> (FrameState, GPUAction) {
    let stepped = if !s.breakpoint && s.cpu_state == RunState::Run {
        let e = spec_cpu_step(s.cpu, s.mem);
        FrameState { cpu: e.0, mem: e.1, cpu_state: e.2, cycles: e.3, ..s }
    } else {
        s
    };
    let hit = FrameState {
        breakpoint: stepped.breakpoint || stepped.breakpoints.contains(stepped.cpu.pc),
        ..stepped
    };
    let committed = FrameState { state: hit.cpu_state, ..hit };
    let t = spec_tick_timing(
        committed.gpu,
        committed.mem,
        committed.flush_tile_data,
        committed.flush_tile_map_0,
        committed.flush_tile_map_1,
        committed.cycles,
    );
    let timed = FrameState {
        gpu: t.0,
        mem: t.1,
        flush_tile_data: t.2,
        flush_tile_map_0: t.3,
        flush_tile_map_1: t.4,
        ..committed
    };
    let served = if !timed.breakpoint {
        let e = spec_service_interrupts(timed.cpu, timed.mem, timed.state, timed.cpu_state);
        FrameState { cpu: e.0, mem: e.1, state: e.2, cpu_state: e.3, ..timed }
    } else {
        timed
    };
    (served, t.5)
}

/// The frame loop iterated until the GPU flushes the buffer, with a fuel
/// bound: the pair is the final state and whether a flush was reached
/// within the fuel.  One frame needs at most one tick per mode-machine
/// clock, so a fuel of one frame's clocks always suffices.
pub open spec fn spec_frame_iter(s: FrameState, fuel: nat) -> (FrameState, bool)
    decreases fuel,
{
    if fuel == 0 {
        (s, false)
    } else {
        let t = spec_frame_tick(s);
        if t.1 == GPUAction::FlushBuffer {
            (t.0, true)
        } else {
            spec_frame_iter(t.0, (fuel - 1) as nat)
        }
    }
}

impl VM {
    /// Validity of the machine as a whole.
    pub open spec fn wf(self) -> bool {
        &&& self.cpu.wf()
        &&& self.gpu.wf()
        &&& self.mem@.wf()
    }

    /// The machine together with the frame loop's locals.
    pub open spec fn frame_state(self, cpu_state: RunState, cycles: u8, breakpoint: bool)
        -> FrameState {
        FrameState {
            cpu: self.cpu,
            gpu: self.gpu,
            mem: self.mem@,
            state: self.state,
            breakpoints: self.breakpoints@,
            flush_tile_data: self.flush_tile_data,
            flush_tile_map_0: self.flush_tile_map_0,
            flush_tile_map_1: self.flush_tile_map_1,
            cpu_state,
            cycles,
            breakpoint,
        }
    }

    /// Does any configured breakpoint match the current program counter?
    fn breakpoint_hit(&self) -> (r: bool)
        ensures
            r == self.breakpoints@.contains(self.cpu.pc),
    {
        let pc = self.cpu.pc;
        let mut i: usize = 0;
        while i < self.breakpoints.len()
            invariant
                i <= self.breakpoints@.len(),
                pc == self.cpu.pc,
                forall|j: int| 0 <= j < i ==> self.breakpoints@[j] != pc,
            decreases self.breakpoints@.len() - i,
        {
            if self.breakpoints[i] == pc {
                return true;
            }
            i = i + 1;
        }
        false
    }

    /// Execute exactly one CPU instruction and record the run state it
    /// reports: the debugger primitive.  The GPU and the divider/timer do
    /// not advance, and no interrupt is dispatched.
    pub fn step(&mut self)
        requires
            old(self).wf(),
        ensures
            final(self).wf(),
            ({
                let e = spec_cpu_step(old(self).cpu, old(self).mem@);
                &&& final(self).cpu == e.0
                &&& final(self).mem@ == e.1
                &&& final(self).state == e.2
            }),
            final(self).gpu == old(self).gpu,
            final(self).mem@.timer == old(self).mem@.timer,
            final(self).breakpoints == old(self).breakpoints,
            final(self).flush_tile_data == old(self).flush_tile_data,
            final(self).flush_tile_map_0 == old(self).flush_tile_map_0,
            final(self).flush_tile_map_1 == old(self).flush_tile_map_1,
    {
        proof {
            lemma_cpu_step_keeps_timer(self.cpu, self.mem@);
        }
        let (state, _) = self.cpu.step(&mut self.mem);
        self.state = state;
    }

    /// Advance the GPU mode machine and the divider/timer by one
    /// instruction's cycles, and act on the GPU's signal: store the new line
    /// in LY, or at the frame boundary write LY, capture the dirty flags for
    /// the host and clear them.
    #[verifier::rlimit(60)]
    fn tick_timing(&mut self, time: u8) -> (action: GPUAction)
        requires
            old(self).wf(),
            4 <= time <= 32,
        ensures
            final(self).wf(),
            ({
                let e = spec_tick_timing(old(self).gpu, old(self).mem@, old(self).flush_tile_data,
                    old(self).flush_tile_map_0, old(self).flush_tile_map_1, time);
                &&& final(self).gpu == e.0
                &&& final(self).mem@ == e.1
                &&& final(self).flush_tile_data == e.2
                &&& final(self).flush_tile_map_0 == e.3
                &&& final(self).flush_tile_map_1 == e.4
                &&& action == e.5
            }),
            final(self).cpu == old(self).cpu,
            final(self).state == old(self).state,
            final(self).breakpoints == old(self).breakpoints,
            frame_clock(final(self).gpu) < FRAME_CLOCKS,
            action == GPUAction::FlushBuffer ==> final(self).gpu == (GPU {
                mode: GPUMode::Mode1,
                time: 0,
                line: 143,
            }),
            action != GPUAction::FlushBuffer ==> frame_clock(final(self).gpu) > frame_clock(
                old(self).gpu,
            ),
    {
        proof {
            law_frame_period(self.gpu, self.mem@.zero_page[0x41], self.mem@.zero_page[0x0f],
                time);
        }
        let gpu_action = self.gpu.add_clock_time(&mut self.mem, time);
        self.mem.add_time(time);

        match gpu_action {
            GPUAction::RenderScanline(_line) => {
                // Rasterization is the host renderer's job.
            },
            GPUAction::IncrementLine(line) => {
                self.mem.set_byte(0xff44, line);
            },
            GPUAction::FlushBuffer => {
                self.mem.set_byte(0xff44, 143);
                self.flush_tile_data = self.mem.is_tile_data_dirty();
                self.flush_tile_map_0 = self.mem.is_tile_map_0_dirty();
                self.flush_tile_map_1 = self.mem.is_tile_map_1_dirty();
            },
            GPUAction::Noop => {},
        }
        gpu_action
    }

    /// Clear one interrupt's bits in the flag register and vector the CPU
    /// to its handler.
    fn service_interrupt(&mut self, cleared: u8, vector: u16)
        requires
            old(self).wf(),
            vector == 0x40 || vector == 0x48 || vector == 0x50 || vector == 0x60,
        ensures
            final(self).wf(),
            ({
                let m = old(self).mem@.spec_set_byte(0xff0f, cleared);
                let ci = old(self).cpu.spec_interrupt(m, vector);
                final(self).cpu == ci.0 && final(self).mem@ == ci.1
            }),
            final(self).state == old(self).state,
            final(self).gpu == old(self).gpu,
            final(self).breakpoints == old(self).breakpoints,
            final(self).flush_tile_data == old(self).flush_tile_data,
            final(self).flush_tile_map_0 == old(self).flush_tile_map_0,
            final(self).flush_tile_map_1 == old(self).flush_tile_map_1,
    {
        self.mem.set_byte(0xff0f, cleared);
        if vector == 0x40 {
            self.cpu.int_vblank(&mut self.mem);
        } else if vector == 0x48 {
            self.cpu.int_stat(&mut self.mem);
        } else if vector == 0x50 {
            self.cpu.int_timer(&mut self.mem);
        } else {
            self.cpu.int_joypad(&mut self.mem);
        }
    }

    /// Service pending, enabled interrupts in priority order: wake the CPU,
    /// clear each interrupt's flag bit and vector to its handler.
    #[verifier::rlimit(100)]
    fn tick_interrupts(&mut self, cpu_state: &mut RunState)
        requires
            old(self).wf(),
        ensures
            final(self).wf(),
            ({
                let e = spec_service_interrupts(old(self).cpu, old(self).mem@, old(self).state,
                    *old(cpu_state));
                &&& final(self).cpu == e.0
                &&& final(self).mem@ == e.1
                &&& final(self).state == e.2
                &&& *final(cpu_state) == e.3
            }),
            final(self).gpu == old(self).gpu,
            final(self).breakpoints == old(self).breakpoints,
            final(self).flush_tile_data == old(self).flush_tile_data,
            final(self).flush_tile_map_0 == old(self).flush_tile_map_0,
            final(self).flush_tile_map_1 == old(self).flush_tile_map_1,
    {
        if self.cpu.interrupt_enabled() {
            let i_enabled = self.mem.get_byte(0xffff);
            let i_fired = self.mem.get_byte(0xff0f);
            let mut i_fired_reset = i_fired;
            let fired = i_enabled & i_fired;
            if fired > 0 {
                if self.state != RunState::Run {
                    // A pending, enabled interrupt wakes the CPU.
                    self.state = RunState::Run;
                    *cpu_state = RunState::Run;
                }
                // Service triggered interrupts in priority order
                if fired & 1 > 0 {
                    // VBlank
                    i_fired_reset = i_fired_reset & 0xfe;
                    self.service_interrupt(i_fired_reset, 0x40);
                }
                if fired & 2 > 0 {
                    // LCD STAT
                    i_fired_reset = i_fired_reset & 0xfd;
                    self.service_interrupt(i_fired_reset, 0x48);
                }
                if fired & 4 > 0 {
                    // Timer
                    i_fired_reset = i_fired_reset & 0xfb;
                    self.service_interrupt(i_fired_reset, 0x50);
                }
                if fired & 8 > 0 {
                    // Serial: not modeled
                }
                if fired & 16 > 0 {
                    // Joypad
                    i_fired_reset = i_fired_reset & 0xef;
                    self.service_interrupt(i_fired_reset, 0x60);
                }
            }
        }
    }

    /// One pass of the frame loop: step the CPU if it may run, check
    /// breakpoints, advance the GPU and timer by the instruction's cycles,
    /// act on the GPU's signal, then service enabled interrupts.
    #[verifier::rlimit(60)]
    fn frame_tick(&mut self, cpu_state: &mut RunState, cycles: &mut u8, breakpoint: &mut bool)
        -> (action: GPUAction)
        requires
            old(self).wf(),
            4 <= *old(cycles) <= 32,
        ensures
            final(self).wf(),
            4 <= *final(cycles) <= 32,
            ({
                let e = spec_frame_tick(old(self).frame_state(*old(cpu_state), *old(cycles),
                    *old(breakpoint)));
                &&& final(self).frame_state(*final(cpu_state), *final(cycles), *final(breakpoint))
                    == e.0
                &&& action == e.1
            }),
            frame_clock(final(self).gpu) < FRAME_CLOCKS,
            action == GPUAction::FlushBuffer ==> final(self).gpu == (GPU {
                mode: GPUMode::Mode1,
                time: 0,
                line: 143,
            }),
            action != GPUAction::FlushBuffer ==> frame_clock(final(self).gpu) > frame_clock(
                old(self).gpu,
            ),
            final(self).breakpoints == old(self).breakpoints,
    {
        proof {
            reveal(spec_frame_tick);
        }
        if !*breakpoint && *cpu_state == RunState::Run {
            let (s, c) = self.cpu.step(&mut self.mem);
            *cpu_state = s;
            *cycles = c;
        }

        if self.breakpoint_hit() {
            *breakpoint = true;
        }

        self.state = *cpu_state;

        let time = *cycles;

        let gpu_action = self.tick_timing(time);

        if !*breakpoint {
            self.tick_interrupts(cpu_state);
        }
        gpu_action
    }

    /// Run until the GPU flushes one video frame, stepping the CPU, feeding
    /// its cycle counts to the GPU mode machine and the divider/timer, and
    /// servicing enabled interrupts in priority order.  A matching
    /// breakpoint stops further CPU stepping but the timing still runs to
    /// the frame boundary; the return value reports whether one matched.
    ///
    /// The whole run equals the iterated per-tick semantics: starting from
    /// the current run state, a fresh cycle count of 4 and no breakpoint
    /// seen, the loop reaches the flush within one frame's worth of ticks
    /// and leaves the machine and the breakpoint flag exactly as
    /// `spec_frame_iter` says.
    #[verifier::rlimit(100)]
    pub fn frame(&mut self) -> (breakpoint: bool)
        requires
            old(self).wf(),
        ensures
            final(self).wf(),
            ({
                let run = spec_frame_iter(
                    old(self).frame_state(old(self).state, 4u8, false),
                    FRAME_CLOCKS as nat,
                );
                &&& run.1 == true
                &&& final(self).frame_state(run.0.cpu_state, run.0.cycles, run.0.breakpoint)
                    == run.0
                &&& breakpoint == run.0.breakpoint
            }),
            final(self).gpu == (GPU { mode: GPUMode::Mode1, time: 0, line: 143 }),
            final(self).breakpoints == old(self).breakpoints,
    {
        let mut cpu_state = self.state;
        let mut cycles: u8 = 4;
        let mut gpu_action = GPUAction::Noop;
        let mut breakpoint = false;
        let ghost pre = self.frame_state(self.state, 4u8, false);
        let ghost mut remaining: nat = FRAME_CLOCKS as nat;
        proof {
            law_frame_period(self.gpu, 0, 0, 0);
        }
        while gpu_action != GPUAction::FlushBuffer
            invariant
                self.wf(),
                self.breakpoints == old(self).breakpoints,
                4 <= cycles <= 32,
                frame_clock(self.gpu) < FRAME_CLOCKS,
                pre == old(self).frame_state(old(self).state, 4u8, false),
                gpu_action != GPUAction::FlushBuffer ==> remaining >= FRAME_CLOCKS - frame_clock(
                    self.gpu,
                ) && spec_frame_iter(pre, FRAME_CLOCKS as nat) == spec_frame_iter(
                    self.frame_state(cpu_state, cycles, breakpoint),
                    remaining,
                ),
                gpu_action == GPUAction::FlushBuffer ==> spec_frame_iter(pre, FRAME_CLOCKS as nat)
                    == (self.frame_state(cpu_state, cycles, breakpoint), true) && self.gpu == (GPU {
                    mode: GPUMode::Mode1,
                    time: 0,
                    line: 143,
                }),
            decreases (if gpu_action == GPUAction::FlushBuffer {
                0int
            } else {
                FRAME_CLOCKS - frame_clock(self.gpu)
            }),
        {
            let ghost cur = self.frame_state(cpu_state, cycles, breakpoint);
            let ghost fuel = remaining;
            gpu_action = self.frame_tick(&mut cpu_state, &mut cycles, &mut breakpoint);
            proof {
                let t = spec_frame_tick(cur);
                assert(fuel >= 1);
                if gpu_action == GPUAction::FlushBuffer {
                    assert(spec_frame_iter(cur, fuel) == (t.0, true));
                } else {
                    assert(spec_frame_iter(cur, fuel) == spec_frame_iter(t.0, (fuel - 1) as nat));
                    remaining = (remaining - 1) as nat;
                }
            }
        }
        breakpoint
    }

    /// Select the cartridge type by its header byte.
    pub fn set_mbc(&mut self, mbc: u8)
        ensures
            final(self).mem@ == (crate::memmap::MemState {
                cart: old(self).mem@.cart.spec_set_mbc(mbc),
                ..old(self).mem@
            }),
            final(self).cpu == old(self).cpu,
            final(self).gpu == old(self).gpu,
            final(self).state == old(self).state,
            final(self).breakpoints == old(self).breakpoints,
            old(self).wf() ==> final(self).wf(),
    {
        self.mem.cart.set_mbc(mbc);
        proof {
            assert(self.mem@ =~= (crate::memmap::MemState {
                cart: old(self).mem@.cart.spec_set_mbc(mbc),
                ..old(self).mem@
            }));
        }
    }
}

} // verus!
