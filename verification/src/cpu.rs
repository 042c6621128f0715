//! The LR35902 CPU: register file, flag algebra, the arithmetic/rotate/shift
//! micro-operations, stack and interrupt entry, and the instruction
//! interpreter.
//!
//! The flags byte F uses only its upper nibble: bit 7 Z (zero), bit 6 N
//! (subtract), bit 5 H (half-carry), bit 4 C (carry).  Every operation that
//! writes flags builds the byte from those four booleans, so the lower nibble
//! stays zero.

use vstd::prelude::*;
use crate::bits::lemma_flag_parts;
use crate::bits::lemma_high_nibble_mask;
use crate::bits::lemma_flag_set_clear;
use crate::bits::lemma_u8_mask_range;
use crate::memmap::{MemMap, MemState};

verus! {

#[derive(Clone, Copy, PartialEq, Eq, Structural)]
pub struct CPU {
    pub a: u8,
    pub b: u8,
    pub c: u8,
    pub d: u8,
    pub e: u8,
    pub h: u8,
    pub l: u8,
    pub flags: u8,

    pub sp: u16,
    pub pc: u16,

    pub ime: bool,
}

#[derive(Clone, Copy, PartialEq, Eq, Structural)]
pub enum Register8 {
    A,
    B,
    C,
    D,
    E,
    H,
    L,
    Flags,
}

#[derive(Clone, Copy, PartialEq, Eq, Structural)]
pub enum Register16 {
    AF,
    BC,
    DE,
    HL,
    SP,
    PC,
}

#[derive(Clone, Copy, PartialEq, Eq, Structural)]
pub enum RunState {
    Run,
    Crash,
    Halt,
    Stop,
}

/// The flags byte assembled from the four flag booleans.
pub open spec fn mk_flags(z: bool, n: bool, h: bool, c: bool) -> u8 {
    ((if z {
        0x80int
    } else {
        0int
    }) + (if n {
        0x40int
    } else {
        0int
    }) + (if h {
        0x20int
    } else {
        0int
    }) + (if c {
        0x10int
    } else {
        0int
    })) as u8
}

pub open spec fn flag_z(f: u8) -> bool {
    f & 0x80 != 0
}

pub open spec fn flag_n(f: u8) -> bool {
    f & 0x40 != 0
}

pub open spec fn flag_h(f: u8) -> bool {
    f & 0x20 != 0
}

pub open spec fn flag_c(f: u8) -> bool {
    f & 0x10 != 0
}

/// An assembled flags byte has a clear low nibble and reads back its four
/// parts.
pub proof fn lemma_mk_flags(z: bool, n: bool, h: bool, c: bool)
    ensures
        mk_flags(z, n, h, c) & 0x0f == 0,
        flag_z(mk_flags(z, n, h, c)) == z,
        flag_n(mk_flags(z, n, h, c)) == n,
        flag_h(mk_flags(z, n, h, c)) == h,
        flag_c(mk_flags(z, n, h, c)) == c,
{
    let zv: u8 = if z {
        0x80
    } else {
        0
    };
    let nv: u8 = if n {
        0x40
    } else {
        0
    };
    let hv: u8 = if h {
        0x20
    } else {
        0
    };
    let cv: u8 = if c {
        0x10
    } else {
        0
    };
    lemma_flag_parts(zv, nv, hv, cv);
}

/// The wrapped sum of two bytes and an optional carry, with the flags an
/// 8-bit addition leaves: Z from the result, N clear, H on carry out of bit
/// 3, C on carry out of bit 7.
pub open spec fn spec_add(a: u8, v: u8, carry: bool) -> (u8, u8) {
    let cin: u8 = if carry {
        1
    } else {
        0
    };
    let r = vstd::wrapping::u8_specs::wrapping_add(
        vstd::wrapping::u8_specs::wrapping_add(a, v),
        cin,
    );
    (r, mk_flags(r == 0, false, (a & 0xf) + (v & 0xf) + cin > 0xf, a + v + cin > 0xff))
}

/// The wrapped difference of two bytes and an optional borrow, with the
/// flags an 8-bit subtraction leaves: Z from the result, N set, H on borrow
/// from bit 4, C on borrow from bit 8.
pub open spec fn spec_sub(a: u8, v: u8, carry: bool) -> (u8, u8) {
    let cin: u8 = if carry {
        1
    } else {
        0
    };
    let r = vstd::wrapping::u8_specs::wrapping_sub(
        vstd::wrapping::u8_specs::wrapping_sub(a, v),
        cin,
    );
    (r, mk_flags(r == 0, true, (v & 0xf) + cin > (a & 0xf), v + cin > a))
}

/// Bitwise AND with its flags: Z from the result, H set, N and C clear.
pub open spec fn spec_and(a: u8, v: u8) -> (u8, u8) {
    let r = a & v;
    (r, mk_flags(r == 0, false, true, false))
}

/// Bitwise XOR with its flags: Z from the result, the rest clear.
pub open spec fn spec_xor(a: u8, v: u8) -> (u8, u8) {
    let r = a ^ v;
    (r, mk_flags(r == 0, false, false, false))
}

/// Bitwise OR with its flags: Z from the result, the rest clear.
pub open spec fn spec_or(a: u8, v: u8) -> (u8, u8) {
    let r = a | v;
    (r, mk_flags(r == 0, false, false, false))
}

/// The eight accumulator operations, selected as in the opcode table:
/// ADD, ADC, SUB, SBC, AND, XOR, OR, CP.  The pair is the new accumulator
/// and the new flags byte; CP keeps the accumulator.
pub open spec fn spec_alu(kind: u8, a: u8, f: u8, v: u8) -> (u8, u8) {
    if kind == 0 {
        spec_add(a, v, false)
    } else if kind == 1 {
        spec_add(a, v, flag_c(f))
    } else if kind == 2 {
        spec_sub(a, v, false)
    } else if kind == 3 {
        spec_sub(a, v, flag_c(f))
    } else if kind == 4 {
        spec_and(a, v)
    } else if kind == 5 {
        spec_xor(a, v)
    } else if kind == 6 {
        spec_or(a, v)
    } else {
        (a, spec_sub(a, v, false).1)
    }
}

/// A rotate left through bit 7 (`use_carry`) or through the carry flag, with
/// its flags.  The A-register forms clear Z (`clear_zero`); the prefixed
/// forms set Z from the result.
pub open spec fn spec_rl(v: u8, f: u8, use_carry: bool, clear_zero: bool) -> (u8, u8) {
    let cin: u8 = if use_carry {
        if v & 0x80 != 0 {
            1
        } else {
            0
        }
    } else {
        if flag_c(f) {
            1
        } else {
            0
        }
    };
    let nv = vstd::wrapping::u8_specs::wrapping_add(v << 1, cin);
    let z = if clear_zero {
        false
    } else {
        nv == 0
    };
    (nv, mk_flags(z, false, false, v & 0x80 != 0))
}

/// A rotate right through bit 0 (`use_carry`) or through the carry flag.
pub open spec fn spec_rr(v: u8, f: u8, use_carry: bool, clear_zero: bool) -> (u8, u8) {
    let cin: u8 = if use_carry {
        if v & 0x1 != 0 {
            0x80
        } else {
            0
        }
    } else {
        if flag_c(f) {
            0x80
        } else {
            0
        }
    };
    let nv = vstd::wrapping::u8_specs::wrapping_add(v >> 1, cin);
    let z = if clear_zero {
        false
    } else {
        nv == 0
    };
    (nv, mk_flags(z, false, false, v & 0x1 != 0))
}

/// An arithmetic shift left: bit 7 goes to the carry flag.
pub open spec fn spec_shl(v: u8) -> (u8, u8) {
    let nv = v << 1;
    (nv, mk_flags(nv == 0, false, false, v & 0x80 != 0))
}

/// A shift right, arithmetic (`keep_sign`: bit 7 kept) or logical; bit 0
/// goes to the carry flag.
pub open spec fn spec_shr(v: u8, keep_sign: bool) -> (u8, u8) {
    let cin: u8 = if keep_sign {
        v & 0x80
    } else {
        0
    };
    let nv = vstd::wrapping::u8_specs::wrapping_add(v >> 1, cin);
    (nv, mk_flags(nv == 0, false, false, v & 0x1 != 0))
}

/// The two nibbles exchanged, with Z from the result and the other flags
/// clear.
pub open spec fn spec_swap(v: u8) -> (u8, u8) {
    let nv = ((v & 0xf) << 4) | ((v & 0xf0) >> 4);
    (nv, mk_flags(nv == 0, false, false, false))
}

/// Decimal adjust of the accumulator after a BCD addition or subtraction,
/// steered by the N, H and C flags; H is always cleared.
pub open spec fn spec_daa(a: u8, f: u8) -> (u8, u8) {
    if !flag_n(f) {
        let low_adjust = (a & 0xf) > 9 || flag_h(f);
        let v1 = if low_adjust {
            vstd::wrapping::u8_specs::wrapping_add(a, 6)
        } else {
            a
        };
        let c1 = low_adjust && a + 6 > 0xff;
        let high_adjust = v1 > 0x9f || flag_c(f);
        let v2 = if high_adjust {
            vstd::wrapping::u8_specs::wrapping_add(v1, 0x60)
        } else {
            v1
        };
        let c2 = c1 || (high_adjust && v1 + 0x60 > 0xff);
        (v2, mk_flags(v2 == 0, flag_n(f), false, c2))
    } else {
        let v1 = if flag_h(f) {
            vstd::wrapping::u8_specs::wrapping_sub(a, 6)
        } else {
            a
        };
        let v2 = if flag_c(f) {
            vstd::wrapping::u8_specs::wrapping_sub(v1, 0x60)
        } else {
            v1
        };
        let c2 = flag_c(f) && v1 < 0x60;
        (v2, mk_flags(v2 == 0, flag_n(f), false, c2))
    }
}

impl CPU {
    /// Validity: the low nibble of the flags byte is zero.
    pub open spec fn wf(self) -> bool {
        self.flags & 0x0f == 0
    }

    pub open spec fn spec_reg8(self, reg: Register8) -> u8 {
        match reg {
            Register8::A => self.a,
            Register8::B => self.b,
            Register8::C => self.c,
            Register8::D => self.d,
            Register8::E => self.e,
            Register8::H => self.h,
            Register8::L => self.l,
            Register8::Flags => self.flags,
        }
    }

    /// The register replaced; a value written to F keeps only its upper
    /// nibble, as the hardware flags register does.
    pub open spec fn with_reg8(self, reg: Register8, v: u8) -> CPU {
        match reg {
            Register8::A => CPU { a: v, ..self },
            Register8::B => CPU { b: v, ..self },
            Register8::C => CPU { c: v, ..self },
            Register8::D => CPU { d: v, ..self },
            Register8::E => CPU { e: v, ..self },
            Register8::H => CPU { h: v, ..self },
            Register8::L => CPU { l: v, ..self },
            Register8::Flags => CPU { flags: v & 0xf0, ..self },
        }
    }

    pub open spec fn spec_reg16(self, reg: Register16) -> u16 {
        match reg {
            Register16::AF => (self.a * 256 + self.flags) as u16,
            Register16::BC => (self.b * 256 + self.c) as u16,
            Register16::DE => (self.d * 256 + self.e) as u16,
            Register16::HL => (self.h * 256 + self.l) as u16,
            Register16::SP => self.sp,
            Register16::PC => self.pc,
        }
    }

    /// The register pair replaced; a value written to AF keeps only the
    /// upper nibble of its low byte.
    pub open spec fn with_reg16(self, reg: Register16, v: u16) -> CPU {
        match reg {
            Register16::AF => CPU {
                a: (v / 256) as u8,
                flags: ((v % 256) as u8) & 0xf0,
                ..self
            },
            Register16::BC => CPU { b: (v / 256) as u8, c: (v % 256) as u8, ..self },
            Register16::DE => CPU { d: (v / 256) as u8, e: (v % 256) as u8, ..self },
            Register16::HL => CPU { h: (v / 256) as u8, l: (v % 256) as u8, ..self },
            Register16::SP => CPU { sp: v, ..self },
            Register16::PC => CPU { pc: v, ..self },
        }
    }

    /// The register slot an opcode's three-bit field names: B, C, D, E, H,
    /// L, (HL skipped), A.
    pub open spec fn spec_reg8_idx(self, idx: u8) -> u8 {
        if idx == 0 {
            self.b
        } else if idx == 1 {
            self.c
        } else if idx == 2 {
            self.d
        } else if idx == 3 {
            self.e
        } else if idx == 4 {
            self.h
        } else if idx == 5 {
            self.l
        } else {
            self.a
        }
    }

    pub open spec fn with_reg8_idx(self, idx: u8, v: u8) -> CPU {
        if idx == 0 {
            CPU { b: v, ..self }
        } else if idx == 1 {
            CPU { c: v, ..self }
        } else if idx == 2 {
            CPU { d: v, ..self }
        } else if idx == 3 {
            CPU { e: v, ..self }
        } else if idx == 4 {
            CPU { h: v, ..self }
        } else if idx == 5 {
            CPU { l: v, ..self }
        } else {
            CPU { a: v, ..self }
        }
    }

    /// Entering an interrupt handler: the master enable drops, the return
    /// address is pushed, and control moves to the vector.
    pub open spec fn spec_interrupt(self, mem: MemState, vector: u16) -> (CPU, MemState) {
        let addr = vstd::wrapping::u16_specs::wrapping_sub(self.sp, 2);
        (
            CPU { ime: false, sp: addr, pc: vector, ..self },
            mem.spec_set_word(addr, self.pc),
        )
    }
}

pub fn create_cpu() -> (r: CPU)
    ensures
        r == (CPU {
            a: 0,
            b: 0,
            c: 0,
            d: 0,
            e: 0,
            h: 0,
            l: 0,
            flags: 0,
            sp: 0,
            pc: 0,
            ime: false,
        }),
        r.wf(),
{
    let r = CPU { a: 0, b: 0, c: 0, d: 0, e: 0, h: 0, l: 0, flags: 0, sp: 0, pc: 0, ime: false };
    proof {
        assert(0u8 & 0x0f == 0) by (bit_vector);
    }
    r
}

impl CPU {
    /// All registers back to zero; the master enable is left as it was.
    pub fn reset(&mut self)
        ensures
            *final(self) == (CPU { ime: old(self).ime, ..create_cpu_state() }),
            final(self).wf(),
    {
        self.a = 0;
        self.b = 0;
        self.c = 0;
        self.d = 0;
        self.e = 0;
        self.h = 0;
        self.l = 0;
        self.flags = 0;

        self.sp = 0;
        self.pc = 0;
        proof {
            assert(0u8 & 0x0f == 0) by (bit_vector);
        }
    }

    /// The register values the boot ROM leaves behind, so a cartridge can be
    /// entered at `0x0100` directly.
    pub fn simulate_bootloader(&mut self)
        ensures
            *final(self) == (CPU {
                a: 0x01,
                b: 0,
                c: 0x13,
                d: 0,
                e: 0xd8,
                h: 0x01,
                l: 0x4d,
                flags: 0xb0,
                sp: 0xfffe,
                pc: 0x100,
                ime: old(self).ime,
            }),
            final(self).wf(),
    {
        self.a = 0x01;
        self.b = 0;
        self.c = 0x13;
        self.d = 0;
        self.e = 0xd8;
        self.h = 0x01;
        self.l = 0x4d;
        self.flags = 0xb0;
        self.sp = 0xfffe;
        self.pc = 0x100;
        proof {
            assert(0xb0u8 & 0x0f == 0) by (bit_vector);
        }
    }

    pub fn get_register_8(&self, reg: Register8) -> (r: u8)
        ensures
            r == self.spec_reg8(reg),
    {
        match reg {
            Register8::A => self.a,
            Register8::B => self.b,
            Register8::C => self.c,
            Register8::D => self.d,
            Register8::E => self.e,
            Register8::H => self.h,
            Register8::L => self.l,
            Register8::Flags => self.flags,
        }
    }

    pub fn set_register_8(&mut self, reg: Register8, value: u8)
        ensures
            *final(self) == old(self).with_reg8(reg, value),
            old(self).wf() ==> final(self).wf(),
    {
        proof {
            lemma_high_nibble_mask();
        }
        match reg {
            Register8::A => self.a = value,
            Register8::B => self.b = value,
            Register8::C => self.c = value,
            Register8::D => self.d = value,
            Register8::E => self.e = value,
            Register8::H => self.h = value,
            Register8::L => self.l = value,
            Register8::Flags => self.flags = value & 0xf0,
        };
    }

    pub fn get_register_16(&self, reg: Register16) -> (r: u16)
        ensures
            r == self.spec_reg16(reg),
    {
        match reg {
            Register16::AF => (self.a as u16) * 256 + (self.flags as u16),
            Register16::BC => (self.b as u16) * 256 + (self.c as u16),
            Register16::DE => (self.d as u16) * 256 + (self.e as u16),
            Register16::HL => (self.h as u16) * 256 + (self.l as u16),
            Register16::SP => self.sp,
            Register16::PC => self.pc,
        }
    }

    pub fn set_register_16(&mut self, reg: Register16, value: u16)
        ensures
            *final(self) == old(self).with_reg16(reg, value),
            old(self).wf() ==> final(self).wf(),
    {
        proof {
            lemma_high_nibble_mask();
        }
        match reg {
            Register16::AF => {
                self.a = (value / 256) as u8;
                self.flags = ((value % 256) as u8) & 0xf0;
            },
            Register16::BC => {
                self.b = (value / 256) as u8;
                self.c = (value % 256) as u8;
            },
            Register16::DE => {
                self.d = (value / 256) as u8;
                self.e = (value % 256) as u8;
            },
            Register16::HL => {
                self.h = (value / 256) as u8;
                self.l = (value % 256) as u8;
            },
            Register16::SP => self.sp = value,
            Register16::PC => self.pc = value,
        };
    }

    /// Set one flag bit by position (4 C, 5 H, 6 N, 7 Z).
    pub fn set_flag(&mut self, flag: u8)
        requires
            flag < 8,
        ensures
            *final(self) == (CPU { flags: old(self).flags | (1u8 << flag), ..*old(self) }),
            old(self).wf() && flag >= 4 ==> final(self).wf(),
    {
        proof {
            if self.wf() && flag >= 4 {
                lemma_flag_set_clear(self.flags, flag);
            }
        }
        self.flags = self.flags | (1u8 << flag);
    }

    /// Clear one flag bit by position.
    pub fn clear_flag(&mut self, flag: u8)
        requires
            flag < 8,
        ensures
            *final(self) == (CPU { flags: old(self).flags & !(1u8 << flag), ..*old(self) }),
            old(self).wf() && flag >= 4 ==> final(self).wf(),
    {
        proof {
            if self.wf() && flag >= 4 {
                lemma_flag_set_clear(self.flags, flag);
            }
        }
        self.flags = self.flags & !(1u8 << flag);
    }

    /// Replace the whole flags byte from its four parts.
    pub(crate) fn set_flags(&mut self, z: bool, n: bool, h: bool, c: bool)
        ensures
            *final(self) == (CPU { flags: mk_flags(z, n, h, c), ..*old(self) }),
            final(self).wf(),
    {
        let mut f: u8 = 0;
        if z {
            f = f + 0x80;
        }
        if n {
            f = f + 0x40;
        }
        if h {
            f = f + 0x20;
        }
        if c {
            f = f + 0x10;
        }
        self.flags = f;
        proof {
            lemma_mk_flags(z, n, h, c);
        }
    }

    /// Push a word: the stack pointer drops by two and the word is stored
    /// there, low byte first.
    pub fn push(&mut self, mem: &mut MemMap, val: u16)
        requires
            old(mem)@.wf(),
        ensures
            *final(self) == (CPU {
                sp: vstd::wrapping::u16_specs::wrapping_sub(old(self).sp, 2),
                ..*old(self)
            }),
            final(mem)@ == old(mem)@.spec_set_word(
                vstd::wrapping::u16_specs::wrapping_sub(old(self).sp, 2),
                val,
            ),
            final(mem)@.wf(),
            old(self).wf() ==> final(self).wf(),
    {
        let addr = self.sp.wrapping_sub(2);
        mem.set_word(addr, val);
        self.sp = addr;
    }

    /// Pop a word: the word at the stack pointer is read and the pointer
    /// rises by two.
    pub fn pop(&mut self, mem: &mut MemMap) -> (value: u16)
        requires
            old(mem)@.wf(),
        ensures
            value == old(mem)@.spec_get_word(old(self).sp),
            *final(self) == (CPU {
                sp: vstd::wrapping::u16_specs::wrapping_add(old(self).sp, 2),
                ..*old(self)
            }),
            final(mem)@ == old(mem)@,
            old(self).wf() ==> final(self).wf(),
    {
        let addr = self.sp;
        let value = mem.get_word(addr);
        self.sp = addr.wrapping_add(2);
        value
    }

    pub fn enable_interrupts(&mut self)
        ensures
            *final(self) == (CPU { ime: true, ..*old(self) }),
    {
        self.ime = true;
    }

    pub fn disable_interrupts(&mut self)
        ensures
            *final(self) == (CPU { ime: false, ..*old(self) }),
    {
        self.ime = false;
    }

    pub fn interrupt_enabled(&mut self) -> (r: bool)
        ensures
            r == old(self).ime,
            *final(self) == *old(self),
    {
        self.ime
    }

    pub fn int_vblank(&mut self, mem: &mut MemMap)
        requires
            old(mem)@.wf(),
        ensures
            (*final(self), final(mem)@) == old(self).spec_interrupt(old(mem)@, 0x40),
            final(mem)@.wf(),
            old(self).wf() ==> final(self).wf(),
    {
        self.disable_interrupts();
        let pc = self.pc;
        self.push(mem, pc);
        self.pc = 0x40;
    }

    pub fn int_stat(&mut self, mem: &mut MemMap)
        requires
            old(mem)@.wf(),
        ensures
            (*final(self), final(mem)@) == old(self).spec_interrupt(old(mem)@, 0x48),
            final(mem)@.wf(),
            old(self).wf() ==> final(self).wf(),
    {
        self.disable_interrupts();
        let pc = self.pc;
        self.push(mem, pc);
        self.pc = 0x48;
    }

    pub fn int_timer(&mut self, mem: &mut MemMap)
        requires
            old(mem)@.wf(),
        ensures
            (*final(self), final(mem)@) == old(self).spec_interrupt(old(mem)@, 0x50),
            final(mem)@.wf(),
            old(self).wf() ==> final(self).wf(),
    {
        self.disable_interrupts();
        let pc = self.pc;
        self.push(mem, pc);
        self.pc = 0x50;
    }

    pub fn int_joypad(&mut self, mem: &mut MemMap)
        requires
            old(mem)@.wf(),
        ensures
            (*final(self), final(mem)@) == old(self).spec_interrupt(old(mem)@, 0x60),
            final(mem)@.wf(),
            old(self).wf() ==> final(self).wf(),
    {
        self.disable_interrupts();
        let pc = self.pc;
        self.push(mem, pc);
        self.pc = 0x60;
    }

    /// Rotate a register left, through its own bit 7 (`use_carry`) or
    /// through the carry flag.
    pub fn rotate_register_left(&mut self, reg: Register8, use_carry: bool, clear_zero: bool)
        ensures
            ({
                let (nv, nf) = spec_rl(old(self).spec_reg8(reg), old(self).flags, use_carry,
                    clear_zero);
                *final(self) == (CPU { flags: nf, ..old(self).with_reg8(reg, nv) })
            }),
            final(self).wf(),
    {
        let orig = self.get_register_8(reg);
        let carry_in: u8 = if use_carry {
            if orig & 0x80 != 0 {
                1
            } else {
                0
            }
        } else {
            if self.flags & 0x10 != 0 {
                1
            } else {
                0
            }
        };
        let carry_out = orig & 0x80 != 0;
        let value = (orig << 1u8).wrapping_add(carry_in);
        self.set_register_8(reg, value);
        let z = if clear_zero {
            false
        } else {
            value == 0
        };
        self.set_flags(z, false, false, carry_out);
    }

    /// Rotate a register right, through its own bit 0 (`use_carry`) or
    /// through the carry flag.
    pub fn rotate_register_right(&mut self, reg: Register8, use_carry: bool, clear_zero: bool)
        ensures
            ({
                let (nv, nf) = spec_rr(old(self).spec_reg8(reg), old(self).flags, use_carry,
                    clear_zero);
                *final(self) == (CPU { flags: nf, ..old(self).with_reg8(reg, nv) })
            }),
            final(self).wf(),
    {
        let orig = self.get_register_8(reg);
        let carry_in: u8 = if use_carry {
            if orig & 0x1 != 0 {
                0x80
            } else {
                0
            }
        } else {
            if self.flags & 0x10 != 0 {
                0x80
            } else {
                0
            }
        };
        let carry_out = orig & 0x1 != 0;
        let value = (orig >> 1u8).wrapping_add(carry_in);
        self.set_register_8(reg, value);
        let z = if clear_zero {
            false
        } else {
            value == 0
        };
        self.set_flags(z, false, false, carry_out);
    }

    /// Shift a register right, keeping the sign bit (`use_carry`) or not.
    pub fn shift_register_right(&mut self, reg: Register8, use_carry: bool)
        ensures
            ({
                let (nv, nf) = spec_shr(old(self).spec_reg8(reg), use_carry);
                *final(self) == (CPU { flags: nf, ..old(self).with_reg8(reg, nv) })
            }),
            final(self).wf(),
    {
        let orig = self.get_register_8(reg);
        let carry_in: u8 = if use_carry {
            orig & 0x80
        } else {
            0
        };
        let carry_out = orig & 0x1 != 0;
        let value = (orig >> 1u8).wrapping_add(carry_in);
        self.set_register_8(reg, value);
        self.set_flags(value == 0, false, false, carry_out);
    }

    /// Shift a register left; bit 7 goes to the carry flag.
    pub fn shift_register_left(&mut self, reg: Register8)
        ensures
            ({
                let (nv, nf) = spec_shl(old(self).spec_reg8(reg));
                *final(self) == (CPU { flags: nf, ..old(self).with_reg8(reg, nv) })
            }),
            final(self).wf(),
    {
        let orig = self.get_register_8(reg);
        let carry_out = orig & 0x80 != 0;
        let value = orig << 1u8;
        self.set_register_8(reg, value);
        self.set_flags(value == 0, false, false, carry_out);
    }

    /// Increment a register: Z and H from the result, N cleared, C kept.
    pub fn inc_8(&mut self, reg: Register8)
        ensures
            ({
                let orig = old(self).spec_reg8(reg);
                let value: u8 = if orig == 0xff {
                    0
                } else {
                    (orig + 1) as u8
                };
                *final(self) == (CPU {
                    flags: mk_flags(value == 0, false, (orig & 0xf) + 1 > 0xf, flag_c(
                        old(self).flags,
                    )),
                    ..*old(self)
                }).with_reg8(reg, value)
            }),
            old(self).wf() ==> final(self).wf(),
    {
        proof {
            lemma_u8_mask_range();
        }
        let orig = self.get_register_8(reg);
        let value: u8 = if orig == 0xff {
            0
        } else {
            orig + 1
        };
        let c = self.flags & 0x10 != 0;
        self.set_flags(value == 0, false, (orig & 0xf) + 1 > 0xf, c);
        self.set_register_8(reg, value);
    }

    /// Increment a register pair, wrapping; no flags change.
    pub fn inc_16(&mut self, reg: Register16)
        ensures
            *final(self) == old(self).with_reg16(
                reg,
                vstd::wrapping::u16_specs::wrapping_add(old(self).spec_reg16(reg), 1),
            ),
            old(self).wf() ==> final(self).wf(),
    {
        let orig = self.get_register_16(reg);
        let value: u16 = if orig == 0xffff {
            0
        } else {
            orig + 1
        };
        self.set_register_16(reg, value);
    }

    /// Decrement a register: Z and H from the result, N set, C kept.
    pub fn dec_8(&mut self, reg: Register8)
        ensures
            ({
                let orig = old(self).spec_reg8(reg);
                let value: u8 = if orig == 0 {
                    0xff
                } else {
                    (orig - 1) as u8
                };
                *final(self) == (CPU {
                    flags: mk_flags(value == 0, true, (orig & 0xf) < 1, flag_c(old(self).flags)),
                    ..*old(self)
                }).with_reg8(reg, value)
            }),
            old(self).wf() ==> final(self).wf(),
    {
        let orig = self.get_register_8(reg);
        let value: u8 = if orig == 0 {
            0xff
        } else {
            orig - 1
        };
        let c = self.flags & 0x10 != 0;
        self.set_flags(value == 0, true, (orig & 0xf) < 1, c);
        self.set_register_8(reg, value);
    }

    /// Decrement a register pair, wrapping; no flags change.
    pub fn dec_16(&mut self, reg: Register16)
        ensures
            *final(self) == old(self).with_reg16(
                reg,
                vstd::wrapping::u16_specs::wrapping_sub(old(self).spec_reg16(reg), 1),
            ),
            old(self).wf() ==> final(self).wf(),
    {
        let orig = self.get_register_16(reg);
        let value: u16 = if orig == 0 {
            0xffff
        } else {
            orig - 1
        };
        self.set_register_16(reg, value);
    }

    /// Exchange a register's nibbles: Z from the result, other flags clear.
    pub fn swap(&mut self, reg: Register8)
        ensures
            ({
                let (nv, nf) = spec_swap(old(self).spec_reg8(reg));
                *final(self) == (CPU { flags: nf, ..old(self).with_reg8(reg, nv) })
            }),
            final(self).wf(),
    {
        let orig = self.get_register_8(reg);
        let low = orig & 0xf;
        let high = (orig & 0xf0) >> 4u8;
        let value = (low << 4u8) | high;
        self.set_register_8(reg, value);
        self.set_flags(value == 0, false, false, false);
    }
}

/// The all-zero register file.
pub open spec fn create_cpu_state() -> CPU {
    CPU { a: 0, b: 0, c: 0, d: 0, e: 0, h: 0, l: 0, flags: 0, sp: 0, pc: 0, ime: false }
}

/// Pushing a word and popping straight after returns the word and restores
/// the stack pointer, whenever the two stack bytes land in plain RAM.
pub proof fn law_push_pop_round_trip(cpu: CPU, mem: MemState, v: u16)
    requires
        mem.wf(),
        ({
            let a = vstd::wrapping::u16_specs::wrapping_sub(cpu.sp, 2);
            (0x8000 <= a < 0x9fff) || (0xc000 <= a < 0xfdff) || (0xfe00 <= a < 0xfe9f) || (0xff80
                <= a < 0xfffe)
        }),
    ensures
        ({
            let a = vstd::wrapping::u16_specs::wrapping_sub(cpu.sp, 2);
            let m1 = mem.spec_set_word(a, v);
            &&& m1.spec_get_word(a) == v
            &&& vstd::wrapping::u16_specs::wrapping_add(a, 2) == cpu.sp
        }),
{
    let a = vstd::wrapping::u16_specs::wrapping_sub(cpu.sp, 2);
    crate::memmap::law_word_round_trip(mem, a, v);
}

/// Loading AF keeps only the upper nibble of the flags byte, so a pushed AF
/// value reads back with its low nibble cleared.
pub proof fn law_pop_af_masks(cpu: CPU, v: u16)
    ensures
        cpu.with_reg16(Register16::AF, v).spec_reg16(Register16::AF) == v & 0xfff0,
{
    let hi = (v / 256) as u8;
    let lo = ((v % 256) as u8) & 0xf0;
    assert(hi * 256 + lo == v & 0xfff0) by (bit_vector)
        requires
            hi == (v / 256) as u8,
            lo == ((v % 256) as u8) & 0xf0,
    ;
}

} // verus!
