//! GPU timing: the four-mode scanline state machine.  It consumes CPU clocks
//! and yields rendering signals; on mode changes it updates the low bits of
//! the STAT register and the VBlank bit of the interrupt-flag register.

use vstd::prelude::*;
use crate::memmap::{MemMap, MemState};

verus! {

/// What the machine asks the frame driver to do after a time step.
#[derive(Clone, Copy, PartialEq, Eq, Structural)]
pub enum GPUAction {
    Noop,
    RenderScanline(u8),
    IncrementLine(u8),
    FlushBuffer,  // implies line 143
}

/// The scanline phase: 0 HBlank, 1 VBlank, 2 OAM scan, 3 pixel transfer.
#[derive(Clone, Copy, PartialEq, Eq, Structural)]
pub enum GPUMode {
    Mode0,
    Mode1,
    Mode2,
    Mode3,
}

#[derive(Clone, Copy, PartialEq, Eq, Structural)]
pub struct GPU {
    pub mode: GPUMode,
    pub time: u16,
    pub line: u8,
}

/// How many clocks the machine spends in a mode before moving on.
pub open spec fn mode_clocks(mode: GPUMode) -> int {
    match mode {
        GPUMode::Mode2 => 80,
        GPUMode::Mode3 => 172,
        GPUMode::Mode0 => 204,
        GPUMode::Mode1 => 456,
    }
}

/// Clocks from the start of the frame (the moment the buffer was flushed and
/// VBlank began) to the start of the current mode.  VBlank covers lines
/// 143..153; then lines 0..142 each run OAM scan, transfer and HBlank.
pub open spec fn frame_pos(g: GPU) -> int {
    match g.mode {
        GPUMode::Mode1 => (g.line - 143) * 456,
        GPUMode::Mode2 => 5016 + g.line * 456,
        GPUMode::Mode3 => 5016 + g.line * 456 + 80,
        GPUMode::Mode0 => 5016 + g.line * 456 + 252,
    }
}

/// Clocks the mode machine has consumed since the last buffer flush: the
/// position of the current mode plus the time accumulated inside it.
pub open spec fn frame_clock(g: GPU) -> int {
    frame_pos(g) + g.time
}

/// One frame of the mode machine: 154 lines of 456 clocks.
pub const FRAME_CLOCKS: u32 = 70224;

impl GPU {
    /// Validity: the accumulated time is inside the current mode, and the
    /// line is a visible one outside VBlank, a VBlank one inside it.
    pub open spec fn wf(self) -> bool {
        &&& self.time < mode_clocks(self.mode)
        &&& match self.mode {
            GPUMode::Mode1 => 143 <= self.line <= 153,
            _ => self.line <= 142,
        }
    }

    pub open spec fn spec_line(self) -> u8 {
        self.line
    }
}

/// The machine after consuming `t` more clocks, together with the STAT and
/// interrupt-flag bytes it leaves behind and the action it yields.  A mode
/// that times out starts the next one with a fresh counter (overshoot is
/// discarded); the buffer is flushed when the last visible HBlank ends.
pub open spec fn spec_gpu_tick(g: GPU, stat: u8, iflag: u8, t: u8) -> (GPU, u8, u8, GPUAction) {
    let nt = (g.time + t) as u16;
    match g.mode {
        GPUMode::Mode2 => {
            if nt >= 80 {
                (GPU { mode: GPUMode::Mode3, time: 0, line: g.line }, stat | 3, iflag, GPUAction::Noop)
            } else {
                (GPU { time: nt, ..g }, stat, iflag, GPUAction::Noop)
            }
        },
        GPUMode::Mode3 => {
            if nt >= 172 {
                (
                    GPU { mode: GPUMode::Mode0, time: 0, line: g.line },
                    stat & 0xfc,
                    iflag,
                    GPUAction::RenderScanline(g.line),
                )
            } else {
                (GPU { time: nt, ..g }, stat, iflag, GPUAction::Noop)
            }
        },
        GPUMode::Mode0 => {
            if nt >= 204 {
                let line = (g.line + 1) as u8;
                if line >= 143 {
                    (
                        GPU { mode: GPUMode::Mode1, time: 0, line },
                        (stat & 0xfc) | 1,
                        iflag | 1,
                        GPUAction::FlushBuffer,
                    )
                } else {
                    (
                        GPU { mode: GPUMode::Mode2, time: 0, line },
                        (stat & 0xfc) | 2,
                        iflag,
                        GPUAction::IncrementLine(line),
                    )
                }
            } else {
                (GPU { time: nt, ..g }, stat, iflag, GPUAction::Noop)
            }
        },
        GPUMode::Mode1 => {
            if nt >= 456 {
                let line = (g.line + 1) as u8;
                if line > 153 {
                    (
                        GPU { mode: GPUMode::Mode2, time: 0, line: 0 },
                        (stat & 0xfc) | 2,
                        iflag & 0xfe,
                        GPUAction::IncrementLine(0),
                    )
                } else {
                    (GPU { mode: GPUMode::Mode1, time: 0, line }, stat, iflag, GPUAction::IncrementLine(line))
                }
            } else {
                (GPU { time: nt, ..g }, stat, iflag, GPUAction::Noop)
            }
        },
    }
}

pub fn create_gpu() -> (r: GPU)
    ensures
        r == (GPU { mode: GPUMode::Mode2, time: 0, line: 0 }),
        r.wf(),
{
    GPU { mode: GPUMode::Mode2, time: 0, line: 0 }
}

impl GPU {
    pub fn get_line(&self) -> (r: u8)
        ensures
            r == self.spec_line(),
    {
        self.line
    }

    /// Advance the mode machine by `time` clocks, updating the GPU-owned low
    /// bits of STAT (`FF41`) and the VBlank bit of IF (`FF0F`) in place.
    pub fn add_clock_time(&mut self, mem: &mut MemMap, time: u8) -> (action: GPUAction)
        requires
            old(self).wf(),
            old(mem)@.wf(),
        ensures
            ({
                let (g2, stat2, iflag2, act) = spec_gpu_tick(
                    *old(self),
                    old(mem)@.zero_page[0x41],
                    old(mem)@.zero_page[0x0f],
                    time,
                );
                &&& *final(self) == g2
                &&& action == act
                &&& final(mem)@ == (MemState {
                    zero_page: old(mem)@.zero_page.update(0x41, stat2).update(0x0f, iflag2),
                    ..old(mem)@
                })
            }),
            final(self).wf(),
            final(mem)@.wf(),
    {
        self.time = self.time + (time as u16);
        let ghost stat0 = mem@.zero_page[0x41];
        let ghost iflag0 = mem@.zero_page[0x0f];
        let action = match self.mode {
            GPUMode::Mode2 => {
                if self.time >= 80 {
                    self.time = 0;
                    self.mode = GPUMode::Mode3;
                    let stat = mem.zero_page[0x41];
                    mem.zero_page.set(0x41, stat | 3);
                }
                GPUAction::Noop
            },
            GPUMode::Mode3 => {
                if self.time >= 172 {
                    self.time = 0;
                    self.mode = GPUMode::Mode0;
                    let stat = mem.zero_page[0x41];
                    mem.zero_page.set(0x41, stat & 0xfc);
                    GPUAction::RenderScanline(self.line)
                } else {
                    GPUAction::Noop
                }
            },
            GPUMode::Mode0 => {
                if self.time >= 204 {
                    self.time = 0;
                    self.line = self.line + 1;
                    if self.line >= 143 {
                        self.mode = GPUMode::Mode1;
                        let stat = mem.zero_page[0x41];
                        mem.zero_page.set(0x41, (stat & 0xfc) | 1);
                        // Request the VBlank interrupt
                        let iflag = mem.zero_page[0x0f];
                        mem.zero_page.set(0x0f, iflag | 1);
                        GPUAction::FlushBuffer
                    } else {
                        self.mode = GPUMode::Mode2;
                        let stat = mem.zero_page[0x41];
                        mem.zero_page.set(0x41, (stat & 0xfc) | 2);
                        GPUAction::IncrementLine(self.line)
                    }
                } else {
                    GPUAction::Noop
                }
            },
            GPUMode::Mode1 => {
                if self.time >= 456 {
                    self.time = 0;
                    self.line = self.line + 1;
                    if self.line > 153 {
                        self.line = 0;
                        self.mode = GPUMode::Mode2;
                        let stat = mem.zero_page[0x41];
                        mem.zero_page.set(0x41, (stat & 0xfc) | 2);
                        let iflag = mem.zero_page[0x0f];
                        mem.zero_page.set(0x0f, iflag & 0xfe);
                    }
                    GPUAction::IncrementLine(self.line)
                } else {
                    GPUAction::Noop
                }
            },
        };
        proof {
            let (g2, stat2, iflag2, act) = spec_gpu_tick(*old(self), stat0, iflag0, time);
            assert(mem@.zero_page =~= old(mem)@.zero_page.update(0x41, stat2).update(
                0x0f,
                iflag2,
            ));
            assert(mem@ =~= (MemState {
                zero_page: old(mem)@.zero_page.update(0x41, stat2).update(0x0f, iflag2),
                ..old(mem)@
            }));
        }
        action
    }
}

/// Between two buffer flushes the mode machine consumes exactly one frame of
/// 70 224 clocks: a step flushes exactly when the clocks consumed since the
/// previous flush reach 70 224 (the last HBlank of line 142 completing), the
/// consumed count restarts at zero on the flush, and it grows by the step
/// time while no mode times out.
pub proof fn law_frame_period(g: GPU, stat: u8, iflag: u8, t: u8)
    requires
        g.wf(),
        t <= 32,
    ensures
        ({
            let (g2, stat2, iflag2, act) = spec_gpu_tick(g, stat, iflag, t);
            let timed_out = g.time + t >= mode_clocks(g.mode);
            &&& frame_clock(g) < FRAME_CLOCKS
            &&& (act == GPUAction::FlushBuffer <==> frame_clock(g) + t >= FRAME_CLOCKS)
            &&& (act == GPUAction::FlushBuffer ==> frame_clock(g2) == 0 && frame_pos(g)
                + mode_clocks(g.mode) == FRAME_CLOCKS)
            &&& (!timed_out ==> act == GPUAction::Noop && frame_clock(g2) == frame_clock(g) + t)
            &&& (timed_out && act != GPUAction::FlushBuffer ==> frame_clock(g2) == frame_pos(g)
                + mode_clocks(g.mode))
        }),
{
    let (g2, stat2, iflag2, act) = spec_gpu_tick(g, stat, iflag, t);
    match g.mode {
        GPUMode::Mode2 => {
            assert(frame_clock(g) + t < FRAME_CLOCKS);
        },
        GPUMode::Mode3 => {
            assert(frame_clock(g) + t < FRAME_CLOCKS);
        },
        GPUMode::Mode0 => {
            if g.line == 142 {
                assert(frame_pos(g) == 70020);
            } else {
                assert(frame_pos(g) <= 5016 + 141 * 456 + 252);
            }
        },
        GPUMode::Mode1 => {
            assert(frame_pos(g) <= 10 * 456);
        },
    }
}

} // verus!
