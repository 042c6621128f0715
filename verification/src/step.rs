//! The instruction interpreter: fetch at PC, dispatch, execute, advance PC.
//!
//! The contract of `step` pins down, for every starting state: that the flag
//! byte stays well formed; which opcodes halt, stop or crash the machine;
//! that a conditional jump, call or return whose condition is false only
//! moves PC past the instruction; and the exact effect of the two regular
//! quarters of the opcode table (the register-to-register loads and the
//! accumulator arithmetic), of their immediate forms, and of the prefixed
//! rotate/shift/bit block.

use vstd::prelude::*;
use crate::bits::lemma_ld_block_fields;
use crate::bits::lemma_negative_offset;
use crate::bits::lemma_u8_mask_range;
use crate::bits::lemma_u16_mask_range;
use crate::cpu::{
    CPU, Register8, Register16, RunState, flag_z, flag_c, mk_flags, spec_alu, spec_rl, spec_rr,
    spec_shl, spec_shr, spec_swap, spec_daa,
};
use crate::memmap::{MemMap, MemState, word_next};

verus! {

/// The opcodes that decode to no instruction; executing one crashes the
/// machine until reset.
pub open spec fn undefined_opcode(op: u8) -> bool {
    op == 0xd3 || op == 0xdb || op == 0xdd || op == 0xe3 || op == 0xe4 || op == 0xeb || op == 0xec
        || op == 0xed || op == 0xf4 || op == 0xfc || op == 0xfd
}

/// The run state one instruction leaves the machine in.
pub open spec fn spec_op_state(op: u8) -> RunState {
    if op == 0x76 {
        RunState::Halt
    } else if op == 0x10 {
        RunState::Stop
    } else if undefined_opcode(op) {
        RunState::Crash
    } else {
        RunState::Run
    }
}

/// The four conditional jump-relative opcodes.
pub open spec fn is_cond_jr(op: u8) -> bool {
    op == 0x20 || op == 0x28 || op == 0x30 || op == 0x38
}

/// The four conditional return opcodes.
pub open spec fn is_cond_ret(op: u8) -> bool {
    op == 0xc0 || op == 0xc8 || op == 0xd0 || op == 0xd8
}

/// The four conditional absolute-jump opcodes.
pub open spec fn is_cond_jp(op: u8) -> bool {
    op == 0xc2 || op == 0xca || op == 0xd2 || op == 0xda
}

/// The four conditional call opcodes.
pub open spec fn is_cond_call(op: u8) -> bool {
    op == 0xc4 || op == 0xcc || op == 0xd4 || op == 0xdc
}

/// The branch condition a conditional opcode tests: not-zero, zero,
/// not-carry or carry.
pub open spec fn spec_cond(op: u8, f: u8) -> bool {
    if op == 0x20 || op == 0xc0 || op == 0xc2 || op == 0xc4 {
        !flag_z(f)
    } else if op == 0x28 || op == 0xc8 || op == 0xca || op == 0xcc {
        flag_z(f)
    } else if op == 0x30 || op == 0xd0 || op == 0xd2 || op == 0xd4 {
        !flag_c(f)
    } else {
        flag_c(f)
    }
}

/// The eight immediate-operand arithmetic opcodes.
pub open spec fn is_alu_imm(op: u8) -> bool {
    op == 0xc6 || op == 0xce || op == 0xd6 || op == 0xde || op == 0xe6 || op == 0xee || op == 0xf6
        || op == 0xfe
}

/// The jump-relative target: the offset byte is a two's complement
/// displacement from the opcode's own address.
pub open spec fn spec_jr_target(pc: u16, offset: u8) -> u16 {
    if offset & 0x80 != 0 {
        vstd::wrapping::u16_specs::wrapping_sub(pc, ((!offset) + 1) as u16)
    } else {
        vstd::wrapping::u16_specs::wrapping_add(pc, offset as u16)
    }
}

/// The eight prefixed transforms: RLC, RRC, RL, RR, SLA, SRA, SWAP, SRL,
/// each with the flags it leaves.
pub open spec fn spec_cb_transform(sub: u8, v: u8, f: u8) -> (u8, u8) {
    if sub == 0 {
        spec_rl(v, f, true, false)
    } else if sub == 1 {
        spec_rr(v, f, true, false)
    } else if sub == 2 {
        spec_rl(v, f, false, false)
    } else if sub == 3 {
        spec_rr(v, f, false, false)
    } else if sub == 4 {
        spec_shl(v)
    } else if sub == 5 {
        spec_shr(v, true)
    } else if sub == 6 {
        spec_swap(v)
    } else {
        spec_shr(v, false)
    }
}

/// An 8-bit increment with its flags: Z and H from the result, N cleared,
/// C kept.
pub open spec fn spec_inc_r(cpu: CPU, reg: Register8) -> CPU {
    let orig = cpu.spec_reg8(reg);
    let v: u8 = if orig == 0xff {
        0
    } else {
        (orig + 1) as u8
    };
    (CPU {
        flags: mk_flags(v == 0, false, (orig & 0xf) + 1 > 0xf, flag_c(cpu.flags)),
        ..cpu
    }).with_reg8(reg, v)
}

/// An 8-bit decrement with its flags: Z and H from the result, N set, C kept.
pub open spec fn spec_dec_r(cpu: CPU, reg: Register8) -> CPU {
    let orig = cpu.spec_reg8(reg);
    let v: u8 = if orig == 0 {
        0xff
    } else {
        (orig - 1) as u8
    };
    (CPU {
        flags: mk_flags(v == 0, true, (orig & 0xf) < 1, flag_c(cpu.flags)),
        ..cpu
    }).with_reg8(reg, v)
}

/// One of the four accumulator rotates (Z always cleared).
pub open spec fn spec_rot_a(cpu: CPU, left: bool, use_carry: bool) -> CPU {
    let nvf = if left {
        spec_rl(cpu.a, cpu.flags, use_carry, true)
    } else {
        spec_rr(cpu.a, cpu.flags, use_carry, true)
    };
    CPU { a: nvf.0, flags: nvf.1, ..cpu }
}

/// ADD HL,rr: N cleared, H from bit 11, C from bit 15, Z kept.
pub open spec fn spec_add_hl(cpu: CPU, v: u16) -> CPU {
    let hl = cpu.spec_reg16(Register16::HL);
    CPU {
        flags: mk_flags(flag_z(cpu.flags), false, (hl & 0xfff) + (v & 0xfff) > 0xfff, hl + v
            > 0xffff),
        ..cpu.with_reg16(Register16::HL, vstd::wrapping::u16_specs::wrapping_add(hl, v))
    }
}

/// A word pushed: the stack pointer drops by two and the word is stored
/// there.
pub open spec fn spec_push16(cpu: CPU, mem: MemState, val: u16) -> (CPU, MemState) {
    let addr = vstd::wrapping::u16_specs::wrapping_sub(cpu.sp, 2);
    (CPU { sp: addr, ..cpu }, mem.spec_set_word(addr, val))
}

/// One instruction of the irregular low quarter (`0x00-0x3F`): the result
/// registers, the result memory, the instruction length and the cycle cost.
pub open spec fn spec_step_lo(cpu: CPU, mem: MemState, op: u8) -> (CPU, MemState, u16, u8) {
    let pc = cpu.pc;
    let imm = mem.spec_get_byte(word_next(pc));
    let immw = mem.spec_get_word(word_next(pc));
    let hl = cpu.spec_reg16(Register16::HL);
    if op == 0x00 {  // NOP
        (cpu, mem, 1, 4)
    } else if op == 0x01 {  // LD BC,nn
        (cpu.with_reg16(Register16::BC, immw), mem, 3, 12)
    } else if op == 0x02 {  // LD (BC),A
        (cpu, mem.spec_set_byte(cpu.spec_reg16(Register16::BC), cpu.a), 1, 8)
    } else if op == 0x03 {  // INC BC
        (cpu.with_reg16(Register16::BC, vstd::wrapping::u16_specs::wrapping_add(
            cpu.spec_reg16(Register16::BC), 1)), mem, 1, 8)
    } else if op == 0x04 {  // INC B
        (spec_inc_r(cpu, Register8::B), mem, 1, 4)
    } else if op == 0x05 {  // DEC B
        (spec_dec_r(cpu, Register8::B), mem, 1, 4)
    } else if op == 0x06 {  // LD B,n
        (cpu.with_reg8(Register8::B, imm), mem, 2, 8)
    } else if op == 0x07 {  // RLCA
        (spec_rot_a(cpu, true, true), mem, 1, 4)
    } else if op == 0x08 {  // LD (nn),SP
        (cpu, mem.spec_set_word(immw, cpu.sp), 3, 20)
    } else if op == 0x09 {  // ADD HL,BC
        (spec_add_hl(cpu, cpu.spec_reg16(Register16::BC)), mem, 1, 8)
    } else if op == 0x0a {  // LD A,(BC)
        (cpu.with_reg8(Register8::A, mem.spec_get_byte(cpu.spec_reg16(Register16::BC))), mem, 1, 8)
    } else if op == 0x0b {  // DEC BC
        (cpu.with_reg16(Register16::BC, vstd::wrapping::u16_specs::wrapping_sub(
            cpu.spec_reg16(Register16::BC), 1)), mem, 1, 8)
    } else if op == 0x0c {  // INC C
        (spec_inc_r(cpu, Register8::C), mem, 1, 4)
    } else if op == 0x0d {  // DEC C
        (spec_dec_r(cpu, Register8::C), mem, 1, 4)
    } else if op == 0x0e {  // LD C,n
        (cpu.with_reg8(Register8::C, imm), mem, 2, 8)
    } else if op == 0x0f {  // RRCA
        (spec_rot_a(cpu, false, true), mem, 1, 4)
    } else if op == 0x10 {  // STOP
        (cpu, mem, 1, 4)
    } else if op == 0x11 {  // LD DE,nn
        (cpu.with_reg16(Register16::DE, immw), mem, 3, 12)
    } else if op == 0x12 {  // LD (DE),A
        (cpu, mem.spec_set_byte(cpu.spec_reg16(Register16::DE), cpu.a), 1, 8)
    } else if op == 0x13 {  // INC DE
        (cpu.with_reg16(Register16::DE, vstd::wrapping::u16_specs::wrapping_add(
            cpu.spec_reg16(Register16::DE), 1)), mem, 1, 8)
    } else if op == 0x14 {  // INC D
        (spec_inc_r(cpu, Register8::D), mem, 1, 4)
    } else if op == 0x15 {  // DEC D
        (spec_dec_r(cpu, Register8::D), mem, 1, 4)
    } else if op == 0x16 {  // LD D,n
        (cpu.with_reg8(Register8::D, imm), mem, 2, 8)
    } else if op == 0x17 {  // RLA
        (spec_rot_a(cpu, true, false), mem, 1, 4)
    } else if op == 0x18 {  // JR n
        (CPU { pc: spec_jr_target(pc, imm), ..cpu }, mem, 2, 8)
    } else if op == 0x19 {  // ADD HL,DE
        (spec_add_hl(cpu, cpu.spec_reg16(Register16::DE)), mem, 1, 8)
    } else if op == 0x1a {  // LD A,(DE)
        (cpu.with_reg8(Register8::A, mem.spec_get_byte(cpu.spec_reg16(Register16::DE))), mem, 1, 8)
    } else if op == 0x1b {  // DEC DE
        (cpu.with_reg16(Register16::DE, vstd::wrapping::u16_specs::wrapping_sub(
            cpu.spec_reg16(Register16::DE), 1)), mem, 1, 8)
    } else if op == 0x1c {  // INC E
        (spec_inc_r(cpu, Register8::E), mem, 1, 4)
    } else if op == 0x1d {  // DEC E
        (spec_dec_r(cpu, Register8::E), mem, 1, 4)
    } else if op == 0x1e {  // LD E,n
        (cpu.with_reg8(Register8::E, imm), mem, 2, 8)
    } else if op == 0x1f {  // RRA
        (spec_rot_a(cpu, false, false), mem, 1, 4)
    } else if is_cond_jr(op) {  // JR cc,n
        if spec_cond(op, cpu.flags) {
            (CPU { pc: spec_jr_target(pc, imm), ..cpu }, mem, 2, 8)
        } else {
            (cpu, mem, 2, 8)
        }
    } else if op == 0x21 {  // LD HL,nn
        (cpu.with_reg16(Register16::HL, immw), mem, 3, 12)
    } else if op == 0x22 {  // LDI (HL),A
        (cpu.with_reg16(Register16::HL, vstd::wrapping::u16_specs::wrapping_add(hl, 1)),
            mem.spec_set_byte(hl, cpu.a), 1, 8)
    } else if op == 0x23 {  // INC HL
        (cpu.with_reg16(Register16::HL, vstd::wrapping::u16_specs::wrapping_add(hl, 1)), mem, 1, 8)
    } else if op == 0x24 {  // INC H
        (spec_inc_r(cpu, Register8::H), mem, 1, 4)
    } else if op == 0x25 {  // DEC H
        (spec_dec_r(cpu, Register8::H), mem, 1, 4)
    } else if op == 0x26 {  // LD H,n
        (cpu.with_reg8(Register8::H, imm), mem, 2, 8)
    } else if op == 0x27 {  // DAA
        (CPU { a: spec_daa(cpu.a, cpu.flags).0, flags: spec_daa(cpu.a, cpu.flags).1, ..cpu }, mem,
            1, 4)
    } else if op == 0x29 {  // ADD HL,HL
        (spec_add_hl(cpu, hl), mem, 1, 8)
    } else if op == 0x2a {  // LDI A,(HL)
        (cpu.with_reg8(Register8::A, mem.spec_get_byte(hl)).with_reg16(Register16::HL,
            vstd::wrapping::u16_specs::wrapping_add(hl, 1)), mem, 1, 8)
    } else if op == 0x2b {  // DEC HL
        (cpu.with_reg16(Register16::HL, vstd::wrapping::u16_specs::wrapping_sub(hl, 1)), mem, 1, 8)
    } else if op == 0x2c {  // INC L
        (spec_inc_r(cpu, Register8::L), mem, 1, 4)
    } else if op == 0x2d {  // DEC L
        (spec_dec_r(cpu, Register8::L), mem, 1, 4)
    } else if op == 0x2e {  // LD L,n
        (cpu.with_reg8(Register8::L, imm), mem, 2, 8)
    } else if op == 0x2f {  // CPL A
        (CPU {
            a: !cpu.a,
            flags: mk_flags(flag_z(cpu.flags), true, true, flag_c(cpu.flags)),
            ..cpu
        }, mem, 1, 4)
    } else if op == 0x31 {  // LD SP,nn
        (cpu.with_reg16(Register16::SP, immw), mem, 3, 12)
    } else if op == 0x32 {  // LDD (HL),A
        (cpu.with_reg16(Register16::HL, vstd::wrapping::u16_specs::wrapping_sub(hl, 1)),
            mem.spec_set_byte(hl, cpu.a), 1, 8)
    } else if op == 0x33 {  // INC SP
        (cpu.with_reg16(Register16::SP, vstd::wrapping::u16_specs::wrapping_add(cpu.sp, 1)), mem,
            1, 8)
    } else if op == 0x34 {  // INC (HL)
        ({
            let orig = mem.spec_get_byte(hl);
            let v = vstd::wrapping::u8_specs::wrapping_add(orig, 1);
            (CPU {
                flags: mk_flags(v == 0, false, (orig & 0xf) + 1 > 0xf, flag_c(cpu.flags)),
                ..cpu
            }, mem.spec_set_byte(hl, v), 1, 12)
        })
    } else if op == 0x35 {  // DEC (HL)
        ({
            let orig = mem.spec_get_byte(hl);
            let v = vstd::wrapping::u8_specs::wrapping_sub(orig, 1);
            (CPU {
                flags: mk_flags(v == 0, true, (orig & 0xf) < 1, flag_c(cpu.flags)),
                ..cpu
            }, mem.spec_set_byte(hl, v), 1, 12)
        })
    } else if op == 0x36 {  // LD (HL),n
        (cpu, mem.spec_set_byte(hl, imm), 2, 12)
    } else if op == 0x37 {  // SCF
        (CPU { flags: mk_flags(flag_z(cpu.flags), false, false, true), ..cpu }, mem, 1, 4)
    } else if op == 0x39 {  // ADD HL,SP
        (spec_add_hl(cpu, cpu.sp), mem, 1, 8)
    } else if op == 0x3a {  // LDD A,(HL)
        (cpu.with_reg8(Register8::A, mem.spec_get_byte(hl)).with_reg16(Register16::HL,
            vstd::wrapping::u16_specs::wrapping_sub(hl, 1)), mem, 1, 8)
    } else if op == 0x3b {  // DEC SP
        (cpu.with_reg16(Register16::SP, vstd::wrapping::u16_specs::wrapping_sub(cpu.sp, 1)), mem,
            1, 8)
    } else if op == 0x3c {  // INC A
        (spec_inc_r(cpu, Register8::A), mem, 1, 4)
    } else if op == 0x3d {  // DEC A
        (spec_dec_r(cpu, Register8::A), mem, 1, 4)
    } else if op == 0x3e {  // LD A,n
        (cpu.with_reg8(Register8::A, imm), mem, 2, 8)
    } else {  // CCF
        (CPU {
            flags: mk_flags(flag_z(cpu.flags), false, false, !flag_c(cpu.flags)),
            ..cpu
        }, mem, 1, 4)
    }
}

/// One instruction of the irregular high quarter (`0xC0-0xFF`, prefix
/// excepted): the result registers, the result memory, the instruction
/// length and the cycle cost.
pub open spec fn spec_step_hi(cpu: CPU, mem: MemState, op: u8) -> (CPU, MemState, u16, u8) {
    let pc = cpu.pc;
    let imm = mem.spec_get_byte(word_next(pc));
    let immw = mem.spec_get_word(word_next(pc));
    let popped = mem.spec_get_word(cpu.sp);
    let after_pop = CPU { sp: vstd::wrapping::u16_specs::wrapping_add(cpu.sp, 2), ..cpu };
    if is_cond_ret(op) {  // RET cc
        if spec_cond(op, cpu.flags) {
            (CPU { pc: popped, ..after_pop }, mem, 0, 8)
        } else {
            (cpu, mem, 1, 8)
        }
    } else if op == 0xc1 {  // POP BC
        (after_pop.with_reg16(Register16::BC, popped), mem, 1, 12)
    } else if is_cond_jp(op) {  // JP cc,nn
        if spec_cond(op, cpu.flags) {
            (CPU { pc: immw, ..cpu }, mem, 0, 12)
        } else {
            (cpu, mem, 3, 12)
        }
    } else if op == 0xc3 {  // JP nn
        (CPU { pc: immw, ..cpu }, mem, 0, 12)
    } else if is_cond_call(op) {  // CALL cc,nn
        if spec_cond(op, cpu.flags) {
            // The return address is pushed first, so the call target is read
            // after that write.
            let pushed = spec_push16(cpu, mem, vstd::wrapping::u16_specs::wrapping_add(pc, 3));
            (CPU { pc: pushed.1.spec_get_word(word_next(pc)), ..pushed.0 }, pushed.1, 0, 12)
        } else {
            (cpu, mem, 3, 12)
        }
    } else if op == 0xc5 {  // PUSH BC
        let pushed = spec_push16(cpu, mem, cpu.spec_reg16(Register16::BC));
        (pushed.0, pushed.1, 1, 16)
    } else if op == 0xc7 || op == 0xcf || op == 0xd7 || op == 0xdf || op == 0xe7 || op == 0xef
        || op == 0xf7 || op == 0xff {  // RST t
        let pushed = spec_push16(cpu, mem, vstd::wrapping::u16_specs::wrapping_add(pc, 1));
        (CPU { pc: (op - 0xc7) as u16, ..pushed.0 }, pushed.1, 0, 32)
    } else if op == 0xc9 {  // RET
        (CPU { pc: popped, ..after_pop }, mem, 0, 8)
    } else if op == 0xcd {  // CALL nn
        let pushed = spec_push16(cpu, mem, vstd::wrapping::u16_specs::wrapping_add(pc, 3));
        (CPU { pc: pushed.1.spec_get_word(word_next(pc)), ..pushed.0 }, pushed.1, 0, 12)
    } else if is_alu_imm(op) {  // ADD/ADC/SUB/SBC/AND/XOR/OR/CP A,n
        (CPU {
            a: spec_alu((op >> 3) & 0x7, cpu.a, cpu.flags, imm).0,
            flags: spec_alu((op >> 3) & 0x7, cpu.a, cpu.flags, imm).1,
            ..cpu
        }, mem, 2, 8)
    } else if op == 0xd1 {  // POP DE
        (after_pop.with_reg16(Register16::DE, popped), mem, 1, 12)
    } else if op == 0xd5 {  // PUSH DE
        let pushed = spec_push16(cpu, mem, cpu.spec_reg16(Register16::DE));
        (pushed.0, pushed.1, 1, 16)
    } else if op == 0xd9 {  // RETI
        (CPU { pc: popped, ime: true, ..after_pop }, mem, 0, 8)
    } else if op == 0xe0 {  // LDH (n),A
        (cpu, mem.spec_set_byte((0xff00 + imm) as u16, cpu.a), 2, 12)
    } else if op == 0xe1 {  // POP HL
        (after_pop.with_reg16(Register16::HL, popped), mem, 1, 12)
    } else if op == 0xe2 {  // LDH (C),A
        (cpu, mem.spec_set_byte((0xff00 + cpu.c) as u16, cpu.a), 1, 8)
    } else if op == 0xe5 {  // PUSH HL
        let pushed = spec_push16(cpu, mem, cpu.spec_reg16(Register16::HL));
        (pushed.0, pushed.1, 1, 16)
    } else if op == 0xe8 {  // ADD SP,d
        (CPU {
            sp: spec_jr_target(cpu.sp, imm),
            flags: mk_flags(false, false, (cpu.sp & 0xf) + ((imm as u16) & 0xf) > 0xf, (cpu.sp
                & 0xff) + ((imm as u16) & 0xff) > 0xff),
            ..cpu
        }, mem, 2, 16)
    } else if op == 0xe9 {  // JP (HL)
        (CPU { pc: cpu.spec_reg16(Register16::HL), ..cpu }, mem, 0, 4)
    } else if op == 0xea {  // LD (nn),A
        (cpu, mem.spec_set_byte(immw, cpu.a), 3, 16)
    } else if op == 0xf0 {  // LDH A,(n)
        (cpu.with_reg8(Register8::A, mem.spec_get_byte((0xff00 + imm) as u16)), mem, 2, 12)
    } else if op == 0xf1 {  // POP AF
        (after_pop.with_reg16(Register16::AF, popped), mem, 1, 12)
    } else if op == 0xf2 {  // LD A,(C)
        (cpu.with_reg8(Register8::A, mem.spec_get_byte((0xff00 + cpu.c) as u16)), mem, 1, 8)
    } else if op == 0xf3 {  // DI
        (CPU { ime: false, ..cpu }, mem, 1, 4)
    } else if op == 0xf5 {  // PUSH AF
        let pushed = spec_push16(cpu, mem, cpu.spec_reg16(Register16::AF));
        (pushed.0, pushed.1, 1, 16)
    } else if op == 0xf8 {  // LDHL SP,d
        ((CPU {
            flags: mk_flags(false, false, (cpu.sp & 0xf) + ((imm as u16) & 0xf) > 0xf, (cpu.sp
                & 0xff) + ((imm as u16) & 0xff) > 0xff),
            ..cpu
        }).with_reg16(Register16::HL, spec_jr_target(cpu.sp, imm)), mem, 2, 12)
    } else if op == 0xf9 {  // LD SP,HL
        (cpu.with_reg16(Register16::SP, cpu.spec_reg16(Register16::HL)), mem, 1, 8)
    } else if op == 0xfa {  // LD A,(nn)
        (cpu.with_reg8(Register8::A, mem.spec_get_byte(immw)), mem, 3, 16)
    } else if op == 0xfb {  // EI
        (CPU { ime: true, ..cpu }, mem, 1, 4)
    } else {  // no instruction decodes here
        (cpu, mem, 0, 4)
    }
}

/// One instruction of the register-to-register load block (`0x40-0x7F`,
/// HALT excepted): the result registers, the result memory and the cycle
/// cost.
pub open spec fn spec_step_ld(cpu: CPU, mem: MemState, op: u8) -> (CPU, MemState, u8) {
    let src = op & 0x7;
    let dst = (op >> 3) & 0x7;
    let hl = cpu.spec_reg16(Register16::HL);
    let v = if src == 6 {
        mem.spec_get_byte(hl)
    } else {
        cpu.spec_reg8_idx(src)
    };
    if dst == 6 {
        (cpu, mem.spec_set_byte(hl, v), 8)
    } else {
        (cpu.with_reg8_idx(dst, v), mem, if src == 6 {
            8
        } else {
            4
        })
    }
}

/// One instruction of the accumulator-arithmetic block (`0x80-0xBF`): the
/// result registers and the cycle cost; memory is only read.
pub open spec fn spec_step_alu(cpu: CPU, mem: MemState, op: u8) -> (CPU, u8) {
    let kind = (op >> 3) & 0x7;
    let idx = op & 0x7;
    let v = if idx == 6 {
        mem.spec_get_byte(cpu.spec_reg16(Register16::HL))
    } else {
        cpu.spec_reg8_idx(idx)
    };
    let af = spec_alu(kind, cpu.a, cpu.flags, v);
    (CPU { a: af.0, flags: af.1, ..cpu }, if idx == 6 {
        8
    } else {
        4
    })
}

/// One instruction of the prefixed block, selected by the second opcode
/// byte: the result registers, the result memory and the cycle cost.
pub open spec fn spec_step_cb(cpu: CPU, mem: MemState, op2: u8) -> (CPU, MemState, u8) {
    let idx = op2 & 0x7;
    let grp = op2 >> 6;
    let sub = (op2 >> 3) & 0x7;
    let hl = cpu.spec_reg16(Register16::HL);
    let v = if idx == 6 {
        mem.spec_get_byte(hl)
    } else {
        cpu.spec_reg8_idx(idx)
    };
    let cycles: u8 = if idx == 6 {
        16
    } else {
        8
    };
    if grp == 1 {
        // BIT: Z from the complement of the bit, H set, C kept
        (CPU { flags: mk_flags(v & (1u8 << sub) == 0, false, true, flag_c(cpu.flags)), ..cpu },
            mem, cycles)
    } else {
        let nvf = if grp == 0 {
            spec_cb_transform(sub, v, cpu.flags)
        } else if grp == 2 {
            (v & !(1u8 << sub), cpu.flags)
        } else {
            (v | (1u8 << sub), cpu.flags)
        };
        if idx == 6 {
            (CPU { flags: nvf.1, ..cpu }, mem.spec_set_byte(hl, nvf.0), cycles)
        } else {
            (CPU { flags: nvf.1, ..cpu.with_reg8_idx(idx, nvf.0) }, mem, cycles)
        }
    }
}

/// One whole instruction: fetch at PC, dispatch by quarter, advance PC by
/// the instruction length.  The tuple is the new registers, the new memory,
/// the run state left behind and the cycle cost — the complete semantics of
/// `CPU::step`.
pub open spec fn spec_cpu_step(cpu: CPU, mem: MemState) -> (CPU, MemState, RunState, u8) {
    let op = mem.spec_get_byte(cpu.pc);
    let pc1 = vstd::wrapping::u16_specs::wrapping_add(cpu.pc, 1);
    let pc2 = vstd::wrapping::u16_specs::wrapping_add(cpu.pc, 2);
    if op == 0x76 {
        (CPU { pc: pc1, ..cpu }, mem, RunState::Halt, 4)
    } else if 0x40 <= op < 0x80 {
        let e = spec_step_ld(cpu, mem, op);
        (CPU { pc: pc1, ..e.0 }, e.1, RunState::Run, e.2)
    } else if 0x80 <= op < 0xc0 {
        let e = spec_step_alu(cpu, mem, op);
        (CPU { pc: pc1, ..e.0 }, mem, RunState::Run, e.1)
    } else if op == 0xcb {
        let e = spec_step_cb(cpu, mem, mem.spec_get_byte(word_next(cpu.pc)));
        (CPU { pc: pc2, ..e.0 }, e.1, RunState::Run, e.2)
    } else if op < 0x40 {
        let e = spec_step_lo(cpu, mem, op);
        (CPU { pc: vstd::wrapping::u16_specs::wrapping_add(e.0.pc, e.2), ..e.0 }, e.1,
            spec_op_state(op), e.3)
    } else {
        let e = spec_step_hi(cpu, mem, op);
        (CPU { pc: vstd::wrapping::u16_specs::wrapping_add(e.0.pc, e.2), ..e.0 }, e.1,
            spec_op_state(op), e.3)
    }
}

/// A bus write never touches the divider/timer accumulator, whatever the
/// address.
pub proof fn lemma_set_byte_keeps_timer()
    ensures
        forall|s: MemState, a: u16, v: u8| #[trigger] s.spec_set_byte(a, v).timer == s.timer,
{
    assert forall|s: MemState, a: u16, v: u8| #[trigger] s.spec_set_byte(a, v).timer
        == s.timer by {
        assert(s.spec_set_byte(a, v).timer == s.timer);
    }
}

/// The low quarter of the table never touches the divider/timer.
#[verifier::rlimit(100)]
proof fn lemma_step_lo_keeps_timer(cpu: CPU, mem: MemState, op: u8)
    ensures
        spec_step_lo(cpu, mem, op).1.timer == mem.timer,
{
    lemma_set_byte_keeps_timer();
}

/// The high quarter of the table never touches the divider/timer.
#[verifier::rlimit(100)]
proof fn lemma_step_hi_keeps_timer(cpu: CPU, mem: MemState, op: u8)
    ensures
        spec_step_hi(cpu, mem, op).1.timer == mem.timer,
{
    lemma_set_byte_keeps_timer();
}

/// One instruction never advances the divider/timer accumulator: the CPU
/// reaches memory only through bus writes.
#[verifier::rlimit(100)]
pub proof fn lemma_cpu_step_keeps_timer(cpu: CPU, mem: MemState)
    ensures
        spec_cpu_step(cpu, mem).1.timer == mem.timer,
{
    lemma_set_byte_keeps_timer();
    let op = mem.spec_get_byte(cpu.pc);
    if op < 0x40 {
        lemma_step_lo_keeps_timer(cpu, mem, op);
    } else if op == 0xcb {
        assert(spec_step_cb(cpu, mem, mem.spec_get_byte(word_next(cpu.pc))).1.timer == mem.timer);
    } else if 0xc0 <= op {
        lemma_step_hi_keeps_timer(cpu, mem, op);
    }
}

/// A conditional jump, call or return whose condition is false changes no
/// register but the program counter, which moves past the instruction: by 2
/// for a relative jump, 3 for an absolute jump or call, 1 for a return.
pub proof fn law_cond_false_advances(cpu: CPU, mem: MemState, op: u8)
    requires
        !spec_cond(op, cpu.flags),
    ensures
        is_cond_jr(op) ==> spec_step_lo(cpu, mem, op) == (cpu, mem, 2u16, 8u8),
        is_cond_jp(op) ==> spec_step_hi(cpu, mem, op) == (cpu, mem, 3u16, 12u8),
        is_cond_call(op) ==> spec_step_hi(cpu, mem, op) == (cpu, mem, 3u16, 12u8),
        is_cond_ret(op) ==> spec_step_hi(cpu, mem, op) == (cpu, mem, 1u16, 8u8),
{
}

/// An opcode that decodes to no instruction crashes the machine and changes
/// nothing: the program counter stops advancing until reset.
pub proof fn law_undefined_opcode_freezes(cpu: CPU, mem: MemState, op: u8)
    requires
        undefined_opcode(op),
    ensures
        spec_step_hi(cpu, mem, op) == (cpu, mem, 0u16, 4u8),
        spec_op_state(op) == RunState::Crash,
{
}

impl CPU {
    /// One of B, C, D, E, H, L, A by its opcode field value.
    fn get_reg8_idx(&self, idx: u8) -> (r: u8)
        requires
            idx < 8,
            idx != 6,
        ensures
            r == self.spec_reg8_idx(idx),
    {
        if idx == 0 {
            self.b
        } else if idx == 1 {
            self.c
        } else if idx == 2 {
            self.d
        } else if idx == 3 {
            self.e
        } else if idx == 4 {
            self.h
        } else if idx == 5 {
            self.l
        } else {
            self.a
        }
    }

    fn set_reg8_idx(&mut self, idx: u8, v: u8)
        requires
            idx < 8,
            idx != 6,
        ensures
            *final(self) == old(self).with_reg8_idx(idx, v),
            old(self).wf() ==> final(self).wf(),
    {
        if idx == 0 {
            self.b = v;
        } else if idx == 1 {
            self.c = v;
        } else if idx == 2 {
            self.d = v;
        } else if idx == 3 {
            self.e = v;
        } else if idx == 4 {
            self.h = v;
        } else if idx == 5 {
            self.l = v;
        } else {
            self.a = v;
        }
    }

    /// Apply one of the eight accumulator operations to A.
    fn alu(&mut self, kind: u8, v: u8)
        requires
            kind < 8,
        ensures
            *final(self) == (CPU {
                a: spec_alu(kind, old(self).a, old(self).flags, v).0,
                flags: spec_alu(kind, old(self).a, old(self).flags, v).1,
                ..*old(self)
            }),
            final(self).wf(),
    {
        proof {
            lemma_u8_mask_range();
        }
        let a = self.a;
        let carry: u8 = if self.flags & 0x10 != 0 {
            1
        } else {
            0
        };
        if kind == 0 || kind == 1 {
            let cin: u8 = if kind == 1 {
                carry
            } else {
                0
            };
            let r = a.wrapping_add(v).wrapping_add(cin);
            let ovf = (a as u16) + (v as u16) + (cin as u16) > 0xff;
            let hc = (a & 0xf) + (v & 0xf) + cin > 0xf;
            self.a = r;
            self.set_flags(r == 0, false, hc, ovf);
        } else if kind == 2 || kind == 3 || kind == 7 {
            let cin: u8 = if kind == 3 {
                carry
            } else {
                0
            };
            let r = a.wrapping_sub(v).wrapping_sub(cin);
            let borrow = (v as u16) + (cin as u16) > (a as u16);
            let hb = (v & 0xf) + cin > (a & 0xf);
            if kind != 7 {
                self.a = r;
            }
            self.set_flags(r == 0, true, hb, borrow);
        } else if kind == 4 {
            let r = a & v;
            self.a = r;
            self.set_flags(r == 0, false, true, false);
        } else if kind == 5 {
            let r = a ^ v;
            self.a = r;
            self.set_flags(r == 0, false, false, false);
        } else {
            let r = a | v;
            self.a = r;
            self.set_flags(r == 0, false, false, false);
        }
    }

    /// The register-to-register load block (`0x40-0x7F`, HALT excepted).
    fn step_ld(&mut self, mem: &mut MemMap, op: u8) -> (cycles: u8)
        requires
            old(self).wf(),
            old(mem)@.wf(),
            0x40 <= op < 0x80,
            op != 0x76,
        ensures
            final(self).wf(),
            final(mem)@.wf(),
            ({
                let e = spec_step_ld(*old(self), old(mem)@, op);
                *final(self) == e.0 && final(mem)@ == e.1 && cycles == e.2
            }),
    {
        proof {
            lemma_ld_block_fields(op);
        }
        let src = op & 0x7;
        let dst = (op >> 3u8) & 0x7;
        let value = if src == 6 {
            let hl = self.get_register_16(Register16::HL);
            mem.get_byte(hl)
        } else {
            self.get_reg8_idx(src)
        };
        if dst == 6 {
            let hl = self.get_register_16(Register16::HL);
            mem.set_byte(hl, value);
            8
        } else {
            self.set_reg8_idx(dst, value);
            if src == 6 {
                8
            } else {
                4
            }
        }
    }

    /// The accumulator-arithmetic block (`0x80-0xBF`).
    fn step_alu_reg(&mut self, mem: &MemMap, op: u8) -> (cycles: u8)
        requires
            old(self).wf(),
            mem@.wf(),
            0x80 <= op < 0xc0,
        ensures
            final(self).wf(),
            ({
                let e = spec_step_alu(*old(self), mem@, op);
                *final(self) == e.0 && cycles == e.1
            }),
    {
        proof {
            lemma_u8_mask_range();
        }
        let idx = op & 0x7;
        let kind = (op >> 3u8) & 0x7;
        let v = if idx == 6 {
            let hl = self.get_register_16(Register16::HL);
            mem.get_byte(hl)
        } else {
            self.get_reg8_idx(idx)
        };
        self.alu(kind, v);
        if idx == 6 {
            8
        } else {
            4
        }
    }

    /// The prefixed block: rotates, shifts, swap, and the bit test/reset/set
    /// families, on a register or on the byte at HL.
    fn step_cb(&mut self, mem: &mut MemMap, op2: u8) -> (cycles: u8)
        requires
            old(self).wf(),
            old(mem)@.wf(),
        ensures
            final(self).wf(),
            final(mem)@.wf(),
            ({
                let e = spec_step_cb(*old(self), old(mem)@, op2);
                *final(self) == e.0 && final(mem)@ == e.1 && cycles == e.2
            }),
    {
        proof {
            lemma_u8_mask_range();
        }
        let idx = op2 & 0x7;
        let grp = op2 >> 6u8;
        let sub = (op2 >> 3u8) & 0x7;
        let hl = self.get_register_16(Register16::HL);
        let v = if idx == 6 {
            mem.get_byte(hl)
        } else {
            self.get_reg8_idx(idx)
        };
        let cycles: u8 = if idx == 6 {
            16
        } else {
            8
        };
        if grp == 1 {
            // BIT sub, r/(HL): Z from the complement of the bit, H set, C kept
            let z = v & (1u8 << sub) == 0;
            let c = self.flags & 0x10 != 0;
            self.set_flags(z, false, true, c);
            return cycles;
        }
        if grp == 0 {
            let flag_carry = self.flags & 0x10 != 0;
            let bit7 = v & 0x80 != 0;
            let bit0 = v & 0x1 != 0;
            let (nv, c_out): (u8, bool) = if sub == 0 {
                ((v << 1u8).wrapping_add(if bit7 {
                    1
                } else {
                    0
                }), bit7)
            } else if sub == 1 {
                ((v >> 1u8).wrapping_add(if bit0 {
                    0x80
                } else {
                    0
                }), bit0)
            } else if sub == 2 {
                ((v << 1u8).wrapping_add(if flag_carry {
                    1
                } else {
                    0
                }), bit7)
            } else if sub == 3 {
                ((v >> 1u8).wrapping_add(if flag_carry {
                    0x80
                } else {
                    0
                }), bit0)
            } else if sub == 4 {
                (v << 1u8, bit7)
            } else if sub == 5 {
                ((v >> 1u8).wrapping_add(v & 0x80), bit0)
            } else if sub == 6 {
                (((v & 0xf) << 4u8) | ((v & 0xf0) >> 4u8), false)
            } else {
                (v >> 1u8, bit0)
            };
            if idx == 6 {
                mem.set_byte(hl, nv);
            } else {
                self.set_reg8_idx(idx, nv);
            }
            self.set_flags(nv == 0, false, false, c_out);
            return cycles;
        }
        let nv = if grp == 2 {
            v & !(1u8 << sub)
        } else {
            v | (1u8 << sub)
        };
        if idx == 6 {
            mem.set_byte(hl, nv);
        } else {
            self.set_reg8_idx(idx, nv);
        }
        cycles
    }

    /// Jump relative: move PC by the signed offset byte.
    fn jr_offset(&mut self, offset: u8)
        ensures
            *final(self) == (CPU { pc: spec_jr_target(old(self).pc, offset), ..*old(self) }),
    {
        if offset & 0x80 != 0 {
            proof {
                lemma_negative_offset(offset);
            }
            let delta = ((!offset) + 1) as u16;
            self.pc = self.pc.wrapping_sub(delta);
        } else {
            self.pc = self.pc.wrapping_add(offset as u16);
        }
    }

    /// ADD HL,rr: clears N, sets H on carry from bit 11 and C on 16-bit
    /// overflow, keeps Z.
    fn add_hl(&mut self, v: u16)
        requires
            old(self).wf(),
        ensures
            *final(self) == (CPU {
                flags: mk_flags(
                    flag_z(old(self).flags),
                    false,
                    (old(self).spec_reg16(Register16::HL) & 0xfff) + (v & 0xfff) > 0xfff,
                    old(self).spec_reg16(Register16::HL) + v > 0xffff,
                ),
                ..old(self).with_reg16(
                    Register16::HL,
                    vstd::wrapping::u16_specs::wrapping_add(
                        old(self).spec_reg16(Register16::HL),
                        v,
                    ),
                )
            }),
            final(self).wf(),
    {
        proof {
            lemma_u16_mask_range();
        }
        let hl = self.get_register_16(Register16::HL);
        let value = hl.wrapping_add(v);
        let overflow = (hl as u32) + (v as u32) > 0xffff;
        let half = (hl & 0xfff) + (v & 0xfff) > 0xfff;
        let z = self.flags & 0x80 != 0;
        self.set_register_16(Register16::HL, value);
        self.set_flags(z, false, half, overflow);
    }

    /// The stack pointer plus a signed offset byte, with the H and C flags
    /// computed on the low nibble and low byte of the unsigned addition.
    fn sp_plus_offset(&mut self, d: u8) -> (r: u16)
        requires
            old(self).wf(),
        ensures
            r == spec_jr_target(old(self).sp, d),
            *final(self) == (CPU {
                flags: mk_flags(
                    false,
                    false,
                    (old(self).sp & 0xf) + ((d as u16) & 0xf) > 0xf,
                    (old(self).sp & 0xff) + ((d as u16) & 0xff) > 0xff,
                ),
                ..*old(self)
            }),
            final(self).wf(),
    {
        proof {
            lemma_u16_mask_range();
        }
        let orig = self.sp;
        let value: u16 = if d & 0x80 != 0 {
            proof {
                lemma_negative_offset(d);
            }
            let delta = ((!d) + 1) as u16;
            orig.wrapping_sub(delta)
        } else {
            orig.wrapping_add(d as u16)
        };
        let half = (orig & 0xf) + ((d as u16) & 0xf) > 0xf;
        let carry = (orig & 0xff) + ((d as u16) & 0xff) > 0xff;
        self.set_flags(false, false, half, carry);
        value
    }

    /// The irregular low quarter of the table (`0x00-0x3F`): immediate and
    /// indirect loads, 16-bit arithmetic, the accumulator rotates, relative
    /// jumps, DAA and the flag instructions.  Returns instruction length,
    /// cycles, and the run state it leaves.
    #[verifier::rlimit(100)]
    fn step_lo(&mut self, mem: &mut MemMap, op: u8) -> (r: (u16, u8, RunState))
        requires
            old(self).wf(),
            old(mem)@.wf(),
            op < 0x40,
        ensures
            final(self).wf(),
            final(mem)@.wf(),
            r.0 <= 3,
            4 <= r.1 <= 20,
            r.2 == spec_op_state(op),
            ({
                let effect = spec_step_lo(*old(self), old(mem)@, op);
                *final(self) == effect.0 && final(mem)@ == effect.1 && r.0 == effect.2 && r.1
                    == effect.3
            }),
    {
        let index = self.pc;
        match op {
            0x00 => (1, 4, RunState::Run),  // NOP
            0x01 => {  // LD BC,nn
                let value = mem.get_word(index.wrapping_add(1));
                self.set_register_16(Register16::BC, value);
                (3, 12, RunState::Run)
            },
            0x02 => {  // LD (BC),A
                let addr = self.get_register_16(Register16::BC);
                let value = self.a;
                mem.set_byte(addr, value);
                (1, 8, RunState::Run)
            },
            0x03 => {  // INC BC
                self.inc_16(Register16::BC);
                (1, 8, RunState::Run)
            },
            0x04 => {  // INC B
                self.inc_8(Register8::B);
                (1, 4, RunState::Run)
            },
            0x05 => {  // DEC B
                self.dec_8(Register8::B);
                (1, 4, RunState::Run)
            },
            0x06 => {  // LD B,n
                let value = mem.get_byte(index.wrapping_add(1));
                self.set_register_8(Register8::B, value);
                (2, 8, RunState::Run)
            },
            0x07 => {  // RLCA
                self.rotate_register_left(Register8::A, true, true);
                (1, 4, RunState::Run)
            },
            0x08 => {  // LD (nn),SP
                let addr = mem.get_word(index.wrapping_add(1));
                let value = self.sp;
                mem.set_word(addr, value);
                (3, 20, RunState::Run)
            },
            0x09 => {  // ADD HL,BC
                let v = self.get_register_16(Register16::BC);
                self.add_hl(v);
                (1, 8, RunState::Run)
            },
            0x0a => {  // LD A,(BC)
                let addr = self.get_register_16(Register16::BC);
                let value = mem.get_byte(addr);
                self.set_register_8(Register8::A, value);
                (1, 8, RunState::Run)
            },
            0x0b => {  // DEC BC
                self.dec_16(Register16::BC);
                (1, 8, RunState::Run)
            },
            0x0c => {  // INC C
                self.inc_8(Register8::C);
                (1, 4, RunState::Run)
            },
            0x0d => {  // DEC C
                self.dec_8(Register8::C);
                (1, 4, RunState::Run)
            },
            0x0e => {  // LD C,n
                let value = mem.get_byte(index.wrapping_add(1));
                self.set_register_8(Register8::C, value);
                (2, 8, RunState::Run)
            },
            0x0f => {  // RRCA
                self.rotate_register_right(Register8::A, true, true);
                (1, 4, RunState::Run)
            },
            0x10 => (1, 4, RunState::Stop),  // STOP
            0x11 => {  // LD DE,nn
                let value = mem.get_word(index.wrapping_add(1));
                self.set_register_16(Register16::DE, value);
                (3, 12, RunState::Run)
            },
            0x12 => {  // LD (DE),A
                let addr = self.get_register_16(Register16::DE);
                let value = self.a;
                mem.set_byte(addr, value);
                (1, 8, RunState::Run)
            },
            0x13 => {  // INC DE
                self.inc_16(Register16::DE);
                (1, 8, RunState::Run)
            },
            0x14 => {  // INC D
                self.inc_8(Register8::D);
                (1, 4, RunState::Run)
            },
            0x15 => {  // DEC D
                self.dec_8(Register8::D);
                (1, 4, RunState::Run)
            },
            0x16 => {  // LD D,n
                let value = mem.get_byte(index.wrapping_add(1));
                self.set_register_8(Register8::D, value);
                (2, 8, RunState::Run)
            },
            0x17 => {  // RLA
                self.rotate_register_left(Register8::A, false, true);
                (1, 4, RunState::Run)
            },
            0x18 => {  // JR n
                let offset = mem.get_byte(index.wrapping_add(1));
                self.jr_offset(offset);
                (2, 8, RunState::Run)
            },
            0x19 => {  // ADD HL,DE
                let v = self.get_register_16(Register16::DE);
                self.add_hl(v);
                (1, 8, RunState::Run)
            },
            0x1a => {  // LD A,(DE)
                let addr = self.get_register_16(Register16::DE);
                let value = mem.get_byte(addr);
                self.set_register_8(Register8::A, value);
                (1, 8, RunState::Run)
            },
            0x1b => {  // DEC DE
                self.dec_16(Register16::DE);
                (1, 8, RunState::Run)
            },
            0x1c => {  // INC E
                self.inc_8(Register8::E);
                (1, 4, RunState::Run)
            },
            0x1d => {  // DEC E
                self.dec_8(Register8::E);
                (1, 4, RunState::Run)
            },
            0x1e => {  // LD E,n
                let value = mem.get_byte(index.wrapping_add(1));
                self.set_register_8(Register8::E, value);
                (2, 8, RunState::Run)
            },
            0x1f => {  // RRA
                self.rotate_register_right(Register8::A, false, true);
                (1, 4, RunState::Run)
            },
            0x20 => {  // JR NZ,n
                let offset = mem.get_byte(index.wrapping_add(1));
                if self.flags & 0x80 == 0 {
                    self.jr_offset(offset);
                }
                (2, 8, RunState::Run)
            },
            0x21 => {  // LD HL,nn
                let value = mem.get_word(index.wrapping_add(1));
                self.set_register_16(Register16::HL, value);
                (3, 12, RunState::Run)
            },
            0x22 => {  // LDI (HL),A
                let addr = self.get_register_16(Register16::HL);
                let value = self.a;
                mem.set_byte(addr, value);
                self.set_register_16(Register16::HL, addr.wrapping_add(1));
                (1, 8, RunState::Run)
            },
            0x23 => {  // INC HL
                self.inc_16(Register16::HL);
                (1, 8, RunState::Run)
            },
            0x24 => {  // INC H
                self.inc_8(Register8::H);
                (1, 4, RunState::Run)
            },
            0x25 => {  // DEC H
                self.dec_8(Register8::H);
                (1, 4, RunState::Run)
            },
            0x26 => {  // LD H,n
                let value = mem.get_byte(index.wrapping_add(1));
                self.set_register_8(Register8::H, value);
                (2, 8, RunState::Run)
            },
            0x27 => {  // DAA
                self.daa();
                (1, 4, RunState::Run)
            },
            0x28 => {  // JR Z,n
                let offset = mem.get_byte(index.wrapping_add(1));
                if self.flags & 0x80 != 0 {
                    self.jr_offset(offset);
                }
                (2, 8, RunState::Run)
            },
            0x29 => {  // ADD HL,HL
                let v = self.get_register_16(Register16::HL);
                self.add_hl(v);
                (1, 8, RunState::Run)
            },
            0x2a => {  // LDI A,(HL)
                let addr = self.get_register_16(Register16::HL);
                let value = mem.get_byte(addr);
                self.set_register_8(Register8::A, value);
                self.set_register_16(Register16::HL, addr.wrapping_add(1));
                (1, 8, RunState::Run)
            },
            0x2b => {  // DEC HL
                self.dec_16(Register16::HL);
                (1, 8, RunState::Run)
            },
            0x2c => {  // INC L
                self.inc_8(Register8::L);
                (1, 4, RunState::Run)
            },
            0x2d => {  // DEC L
                self.dec_8(Register8::L);
                (1, 4, RunState::Run)
            },
            0x2e => {  // LD L,n
                let value = mem.get_byte(index.wrapping_add(1));
                self.set_register_8(Register8::L, value);
                (2, 8, RunState::Run)
            },
            0x2f => {  // CPL A
                let z = self.flags & 0x80 != 0;
                let c = self.flags & 0x10 != 0;
                let value = !self.a;
                self.a = value;
                self.set_flags(z, true, true, c);
                (1, 4, RunState::Run)
            },
            0x30 => {  // JR NC,n
                let offset = mem.get_byte(index.wrapping_add(1));
                if self.flags & 0x10 == 0 {
                    self.jr_offset(offset);
                }
                (2, 8, RunState::Run)
            },
            0x31 => {  // LD SP,nn
                let value = mem.get_word(index.wrapping_add(1));
                self.set_register_16(Register16::SP, value);
                (3, 12, RunState::Run)
            },
            0x32 => {  // LDD (HL),A
                let addr = self.get_register_16(Register16::HL);
                let value = self.a;
                mem.set_byte(addr, value);
                self.set_register_16(Register16::HL, addr.wrapping_sub(1));
                (1, 8, RunState::Run)
            },
            0x33 => {  // INC SP
                self.inc_16(Register16::SP);
                (1, 8, RunState::Run)
            },
            0x34 => {  // INC (HL)
                proof {
                    lemma_u8_mask_range();
                }
                let addr = self.get_register_16(Register16::HL);
                let orig = mem.get_byte(addr);
                let value = orig.wrapping_add(1);
                mem.set_byte(addr, value);
                let c = self.flags & 0x10 != 0;
                self.set_flags(value == 0, false, (orig & 0xf) + 1 > 0xf, c);
                (1, 12, RunState::Run)
            },
            0x35 => {  // DEC (HL)
                let addr = self.get_register_16(Register16::HL);
                let orig = mem.get_byte(addr);
                let value = orig.wrapping_sub(1);
                mem.set_byte(addr, value);
                let c = self.flags & 0x10 != 0;
                self.set_flags(value == 0, true, (orig & 0xf) < 1, c);
                (1, 12, RunState::Run)
            },
            0x36 => {  // LD (HL),n
                let addr = self.get_register_16(Register16::HL);
                let value = mem.get_byte(index.wrapping_add(1));
                mem.set_byte(addr, value);
                (2, 12, RunState::Run)
            },
            0x37 => {  // SCF
                let z = self.flags & 0x80 != 0;
                self.set_flags(z, false, false, true);
                (1, 4, RunState::Run)
            },
            0x38 => {  // JR C,n
                let offset = mem.get_byte(index.wrapping_add(1));
                if self.flags & 0x10 != 0 {
                    self.jr_offset(offset);
                }
                (2, 8, RunState::Run)
            },
            0x39 => {  // ADD HL,SP
                let v = self.sp;
                self.add_hl(v);
                (1, 8, RunState::Run)
            },
            0x3a => {  // LDD A,(HL)
                let addr = self.get_register_16(Register16::HL);
                let value = mem.get_byte(addr);
                self.set_register_8(Register8::A, value);
                self.set_register_16(Register16::HL, addr.wrapping_sub(1));
                (1, 8, RunState::Run)
            },
            0x3b => {  // DEC SP
                self.dec_16(Register16::SP);
                (1, 8, RunState::Run)
            },
            0x3c => {  // INC A
                self.inc_8(Register8::A);
                (1, 4, RunState::Run)
            },
            0x3d => {  // DEC A
                self.dec_8(Register8::A);
                (1, 4, RunState::Run)
            },
            0x3e => {  // LD A,n
                let value = mem.get_byte(index.wrapping_add(1));
                self.set_register_8(Register8::A, value);
                (2, 8, RunState::Run)
            },
            0x3f => {  // CCF
                let z = self.flags & 0x80 != 0;
                let c = self.flags & 0x10 != 0;
                self.set_flags(z, false, false, !c);
                (1, 4, RunState::Run)
            },
            _ => (1, 4, RunState::Run),
        }
    }

    /// The irregular high quarter of the table (`0xC0-0xFF`, prefix
    /// excepted): stack, jumps, calls, returns, restarts, high-RAM loads,
    /// immediate arithmetic, the stack-pointer offset forms, and the
    /// undefined opcodes, which crash the machine.
    #[verifier::rlimit(100)]
    fn step_hi(&mut self, mem: &mut MemMap, op: u8) -> (r: (u16, u8, RunState))
        requires
            old(self).wf(),
            old(mem)@.wf(),
            0xc0 <= op,
            op != 0xcb,
        ensures
            final(self).wf(),
            final(mem)@.wf(),
            r.0 <= 3,
            4 <= r.1 <= 32,
            r.2 == spec_op_state(op),
            ({
                let effect = spec_step_hi(*old(self), old(mem)@, op);
                *final(self) == effect.0 && final(mem)@ == effect.1 && r.0 == effect.2 && r.1
                    == effect.3
            }),
    {
        let index = self.pc;
        match op {
            0xc0 => {  // RET NZ
                if self.flags & 0x80 == 0 {
                    let value = self.pop(mem);
                    self.pc = value;
                    (0, 8, RunState::Run)
                } else {
                    (1, 8, RunState::Run)
                }
            },
            0xc1 => {  // POP BC
                let value = self.pop(mem);
                self.set_register_16(Register16::BC, value);
                (1, 12, RunState::Run)
            },
            0xc2 => {  // JP NZ,nn
                if self.flags & 0x80 == 0 {
                    self.pc = mem.get_word(index.wrapping_add(1));
                    (0, 12, RunState::Run)
                } else {
                    (3, 12, RunState::Run)
                }
            },
            0xc3 => {  // JP nn
                let dest = mem.get_word(index.wrapping_add(1));
                self.pc = dest;
                (0, 12, RunState::Run)
            },
            0xc4 => {  // CALL NZ,nn
                if self.flags & 0x80 == 0 {
                    let next = self.pc.wrapping_add(3);
                    self.push(mem, next);
                    self.pc = mem.get_word(index.wrapping_add(1));
                    (0, 12, RunState::Run)
                } else {
                    (3, 12, RunState::Run)
                }
            },
            0xc5 => {  // PUSH BC
                let value = self.get_register_16(Register16::BC);
                self.push(mem, value);
                (1, 16, RunState::Run)
            },
            0xc7 | 0xcf | 0xd7 | 0xdf | 0xe7 | 0xef | 0xf7 | 0xff => {  // RST t
                let next = self.pc.wrapping_add(1);
                self.push(mem, next);
                self.pc = (op - 0xc7) as u16;
                (0, 32, RunState::Run)
            },
            0xc8 => {  // RET Z
                if self.flags & 0x80 != 0 {
                    let value = self.pop(mem);
                    self.pc = value;
                    (0, 8, RunState::Run)
                } else {
                    (1, 8, RunState::Run)
                }
            },
            0xc9 => {  // RET
                let value = self.pop(mem);
                self.pc = value;
                (0, 8, RunState::Run)
            },
            0xca => {  // JP Z,nn
                if self.flags & 0x80 != 0 {
                    self.pc = mem.get_word(index.wrapping_add(1));
                    (0, 12, RunState::Run)
                } else {
                    (3, 12, RunState::Run)
                }
            },
            0xcc => {  // CALL Z,nn
                if self.flags & 0x80 != 0 {
                    let next = self.pc.wrapping_add(3);
                    self.push(mem, next);
                    self.pc = mem.get_word(index.wrapping_add(1));
                    (0, 12, RunState::Run)
                } else {
                    (3, 12, RunState::Run)
                }
            },
            0xcd => {  // CALL nn
                let next = self.pc.wrapping_add(3);
                self.push(mem, next);
                self.pc = mem.get_word(index.wrapping_add(1));
                (0, 12, RunState::Run)
            },
            0xc6 | 0xce | 0xd6 | 0xde | 0xe6 | 0xee | 0xf6 | 0xfe => {
                // ADD/ADC/SUB/SBC/AND/XOR/OR/CP A,n
                proof {
                    lemma_u8_mask_range();
                }
                let value = mem.get_byte(index.wrapping_add(1));
                self.alu((op >> 3u8) & 0x7, value);
                (2, 8, RunState::Run)
            },
            0xd0 => {  // RET NC
                if self.flags & 0x10 == 0 {
                    let value = self.pop(mem);
                    self.pc = value;
                    (0, 8, RunState::Run)
                } else {
                    (1, 8, RunState::Run)
                }
            },
            0xd1 => {  // POP DE
                let value = self.pop(mem);
                self.set_register_16(Register16::DE, value);
                (1, 12, RunState::Run)
            },
            0xd2 => {  // JP NC,nn
                if self.flags & 0x10 == 0 {
                    self.pc = mem.get_word(index.wrapping_add(1));
                    (0, 12, RunState::Run)
                } else {
                    (3, 12, RunState::Run)
                }
            },
            0xd4 => {  // CALL NC,nn
                if self.flags & 0x10 == 0 {
                    let next = self.pc.wrapping_add(3);
                    self.push(mem, next);
                    self.pc = mem.get_word(index.wrapping_add(1));
                    (0, 12, RunState::Run)
                } else {
                    (3, 12, RunState::Run)
                }
            },
            0xd5 => {  // PUSH DE
                let value = self.get_register_16(Register16::DE);
                self.push(mem, value);
                (1, 16, RunState::Run)
            },
            0xd8 => {  // RET C
                if self.flags & 0x10 != 0 {
                    let value = self.pop(mem);
                    self.pc = value;
                    (0, 8, RunState::Run)
                } else {
                    (1, 8, RunState::Run)
                }
            },
            0xd9 => {  // RETI
                self.enable_interrupts();
                let value = self.pop(mem);
                self.pc = value;
                (0, 8, RunState::Run)
            },
            0xda => {  // JP C,nn
                if self.flags & 0x10 != 0 {
                    self.pc = mem.get_word(index.wrapping_add(1));
                    (0, 12, RunState::Run)
                } else {
                    (3, 12, RunState::Run)
                }
            },
            0xdc => {  // CALL C,nn
                if self.flags & 0x10 != 0 {
                    let next = self.pc.wrapping_add(3);
                    self.push(mem, next);
                    self.pc = mem.get_word(index.wrapping_add(1));
                    (0, 12, RunState::Run)
                } else {
                    (3, 12, RunState::Run)
                }
            },
            0xe0 => {  // LDH (n),A
                let value = self.a;
                let addr = 0xff00 + (mem.get_byte(index.wrapping_add(1)) as u16);
                mem.set_byte(addr, value);
                (2, 12, RunState::Run)
            },
            0xe1 => {  // POP HL
                let value = self.pop(mem);
                self.set_register_16(Register16::HL, value);
                (1, 12, RunState::Run)
            },
            0xe2 => {  // LDH (C),A
                let value = self.a;
                let addr = 0xff00 + (self.c as u16);
                mem.set_byte(addr, value);
                (1, 8, RunState::Run)
            },
            0xe5 => {  // PUSH HL
                let value = self.get_register_16(Register16::HL);
                self.push(mem, value);
                (1, 16, RunState::Run)
            },
            0xe8 => {  // ADD SP,d
                let d = mem.get_byte(index.wrapping_add(1));
                let value = self.sp_plus_offset(d);
                self.sp = value;
                (2, 16, RunState::Run)
            },
            0xe9 => {  // JP (HL)
                let addr = self.get_register_16(Register16::HL);
                self.pc = addr;
                (0, 4, RunState::Run)
            },
            0xea => {  // LD (nn),A
                let addr = mem.get_word(index.wrapping_add(1));
                let value = self.a;
                mem.set_byte(addr, value);
                (3, 16, RunState::Run)
            },
            0xf0 => {  // LDH A,(n)
                let addr = 0xff00 + (mem.get_byte(index.wrapping_add(1)) as u16);
                let value = mem.get_byte(addr);
                self.set_register_8(Register8::A, value);
                (2, 12, RunState::Run)
            },
            0xf1 => {  // POP AF
                let value = self.pop(mem);
                self.set_register_16(Register16::AF, value);
                (1, 12, RunState::Run)
            },
            0xf2 => {  // LD A,(C)
                let addr = 0xff00 + (self.c as u16);
                let value = mem.get_byte(addr);
                self.set_register_8(Register8::A, value);
                (1, 8, RunState::Run)
            },
            0xf3 => {  // DI
                self.disable_interrupts();
                (1, 4, RunState::Run)
            },
            0xf5 => {  // PUSH AF
                let value = self.get_register_16(Register16::AF);
                self.push(mem, value);
                (1, 16, RunState::Run)
            },
            0xf8 => {  // LDHL SP,d
                let d = mem.get_byte(index.wrapping_add(1));
                let value = self.sp_plus_offset(d);
                self.set_register_16(Register16::HL, value);
                (2, 12, RunState::Run)
            },
            0xf9 => {  // LD SP,HL
                let value = self.get_register_16(Register16::HL);
                self.set_register_16(Register16::SP, value);
                (1, 8, RunState::Run)
            },
            0xfa => {  // LD A,(nn)
                let addr = mem.get_word(index.wrapping_add(1));
                let value = mem.get_byte(addr);
                self.set_register_8(Register8::A, value);
                (3, 16, RunState::Run)
            },
            0xfb => {  // EI
                self.enable_interrupts();
                (1, 4, RunState::Run)
            },
            _ => {
                // No instruction decodes here: the machine crashes and PC
                // stops advancing until reset.
                (0, 4, RunState::Crash)
            },
        }
    }

    /// Fetch, decode and execute one instruction; the pair returned is the
    /// run state it leaves and its cycle cost.
    #[verifier::rlimit(100)]
    pub fn step(&mut self, mem: &mut MemMap) -> (r: (RunState, u8))
        requires
            old(self).wf(),
            old(mem)@.wf(),
        ensures
            final(self).wf(),
            final(mem)@.wf(),
            4 <= r.1 <= 32,
            ({
                let e = spec_cpu_step(*old(self), old(mem)@);
                *final(self) == e.0 && final(mem)@ == e.1 && r.0 == e.2 && r.1 == e.3
            }),
            r.0 == spec_op_state(old(mem)@.spec_get_byte(old(self).pc)),
    {
        let index = self.pc;
        let op = mem.get_byte(index);
        if op == 0x76 {
            // HALT
            self.pc = self.pc.wrapping_add(1);
            return (RunState::Halt, 4);
        }
        if 0x40 <= op && op < 0x80 {
            let cycles = self.step_ld(mem, op);
            self.pc = self.pc.wrapping_add(1);
            return (RunState::Run, cycles);
        }
        if 0x80 <= op && op < 0xc0 {
            let cycles = self.step_alu_reg(mem, op);
            self.pc = self.pc.wrapping_add(1);
            return (RunState::Run, cycles);
        }
        if op == 0xcb {
            // Two-byte instruction: the second byte selects the operation.
            let op2 = mem.get_byte(index.wrapping_add(1));
            let cycles = self.step_cb(mem, op2);
            self.pc = self.pc.wrapping_add(2);
            return (RunState::Run, cycles);
        }
        if op < 0x40 {
            let (len, cycles, state) = self.step_lo(mem, op);
            self.pc = self.pc.wrapping_add(len);
            return (state, cycles);
        }
        let (len, cycles, state) = self.step_hi(mem, op);
        self.pc = self.pc.wrapping_add(len);
        (state, cycles)
    }

    /// Decimal adjust of A.
    fn daa(&mut self)
        requires
            old(self).wf(),
        ensures
            *final(self) == (CPU {
                a: spec_daa(old(self).a, old(self).flags).0,
                flags: spec_daa(old(self).a, old(self).flags).1,
                ..*old(self)
            }),
            final(self).wf(),
    {
        proof {
            lemma_u8_mask_range();
        }
        let orig = self.a;
        let n = self.flags & 0x40 != 0;
        let h = self.flags & 0x20 != 0;
        let c = self.flags & 0x10 != 0;
        let mut value = orig;
        let mut carry = false;
        if !n {
            if (orig & 0xf) > 9 || h {
                carry = (orig as u16) + 6 > 0xff;
                value = orig.wrapping_add(6);
            }
            if value > 0x9f || c {
                carry = carry || (value as u16) + 0x60 > 0xff;
                value = value.wrapping_add(0x60);
            }
        } else {
            if h {
                value = value.wrapping_sub(6);
            }
            if c {
                carry = value < 0x60;
                value = value.wrapping_sub(0x60);
            }
        }
        self.a = value;
        self.set_flags(value == 0, n, false, carry);
    }
}

} // verus!
