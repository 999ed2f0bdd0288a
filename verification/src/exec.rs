//! Instruction execution: the base opcode page and the CB-prefixed page.
//!
//! [`spec_exec_base`] is the semantics: a total function from CPU, bus
//! and opcode to the next CPU, the next bus and the instruction's result.
//! The executable decoder is proved to return exactly that. Illegal
//! opcodes fail with [`EmuError::IllegalOpcode`] and change nothing.

use vstd::prelude::*;

use crate::alu::{
    spec_add_a, spec_add_hl, spec_add_signed_u16, spec_add_sp_offset, spec_and_a, spec_condition,
    spec_cp_a, spec_daa, spec_dec8, spec_inc8, spec_or_a, spec_rl, spec_rlc, spec_rr, spec_rrc,
    spec_sla, spec_sra, spec_srl, spec_sub_a, spec_swap, spec_xor_a, flags_nhc, flags_znh,
    flags_znhc,
};
use crate::bus::{bus_wf, spec_bus_write, spec_bus_write_word, spec_pending, Bus, BusModel};
use crate::cpu::{
    cpu_wf, spec_fetch_byte, spec_fetch_word, spec_pop_word, spec_push_word, spec_read_r8,
    spec_write_r8, Cpu, EmuError,
};
use crate::regs::{
    spec_bc, spec_c, spec_de, spec_hl, spec_set_flag, with_af, with_bc, with_de, with_hl,
    Registers, FLAG_H, FLAG_N,
};

verus! {

/// The eleven undefined base opcodes.
pub open spec fn spec_is_illegal(op: u8) -> bool {
    ||| op == 0xD3
    ||| op == 0xDB
    ||| op == 0xDD
    ||| op == 0xE3
    ||| op == 0xE4
    ||| op == 0xEB
    ||| op == 0xEC
    ||| op == 0xED
    ||| op == 0xF4
    ||| op == 0xFC
    ||| op == 0xFD
}

/// One CB-prefixed instruction, with `op` the byte after the prefix; the
/// result is the next CPU, the next bus and the cycle cost. Every CB
/// opcode is defined.
pub open spec fn spec_exec_cb(c: Cpu, b: BusModel, op: u8) -> (Cpu, BusModel, u32) {
    let register = (op & 0x07) as u8;
    let value = spec_read_r8(c, b, register);
    let rw_cycles: u32 = if register == 6 { 16u32 } else { 8u32 };
    if op <= 0x07 {
        let t = spec_rlc(c.regs, value, true);
        let w = spec_write_r8(Cpu { regs: t.1, ..c }, b, register, t.0);
        (w.0, w.1, rw_cycles)
    } else if op <= 0x0F {
        let t = spec_rrc(c.regs, value, true);
        let w = spec_write_r8(Cpu { regs: t.1, ..c }, b, register, t.0);
        (w.0, w.1, rw_cycles)
    } else if op <= 0x17 {
        let t = spec_rl(c.regs, value, true);
        let w = spec_write_r8(Cpu { regs: t.1, ..c }, b, register, t.0);
        (w.0, w.1, rw_cycles)
    } else if op <= 0x1F {
        let t = spec_rr(c.regs, value, true);
        let w = spec_write_r8(Cpu { regs: t.1, ..c }, b, register, t.0);
        (w.0, w.1, rw_cycles)
    } else if op <= 0x27 {
        let t = spec_sla(c.regs, value);
        let w = spec_write_r8(Cpu { regs: t.1, ..c }, b, register, t.0);
        (w.0, w.1, rw_cycles)
    } else if op <= 0x2F {
        let t = spec_sra(c.regs, value);
        let w = spec_write_r8(Cpu { regs: t.1, ..c }, b, register, t.0);
        (w.0, w.1, rw_cycles)
    } else if op <= 0x37 {
        let t = spec_swap(c.regs, value);
        let w = spec_write_r8(Cpu { regs: t.1, ..c }, b, register, t.0);
        (w.0, w.1, rw_cycles)
    } else if op <= 0x3F {
        let t = spec_srl(c.regs, value);
        let w = spec_write_r8(Cpu { regs: t.1, ..c }, b, register, t.0);
        (w.0, w.1, rw_cycles)
    } else if op <= 0x7F {
        let bit = ((op >> 3) & 0x07) as u8;
        let f2 = flags_znh(c.regs.f, (value & (1u8 << bit)) == 0, false, true);
        (
            Cpu { regs: Registers { f: f2, ..c.regs }, ..c },
            b,
            if register == 6 { 12u32 } else { 8u32 },
        )
    } else if op <= 0xBF {
        let bit = ((op >> 3) & 0x07) as u8;
        let w = spec_write_r8(c, b, register, (value & !(1u8 << bit)) as u8);
        (w.0, w.1, rw_cycles)
    } else {
        let bit = ((op >> 3) & 0x07) as u8;
        let w = spec_write_r8(c, b, register, (value | (1u8 << bit)) as u8);
        (w.0, w.1, rw_cycles)
    }
}

/// One legal base-page instruction: the next CPU, the next bus and the
/// cycle cost. Only called on opcodes outside [`spec_is_illegal`]; the
/// final arm is never reached for those.
pub open spec fn spec_exec_legal(c: Cpu, b: BusModel, op: u8) -> (Cpu, BusModel, u32) {
    if op == 0x00 {
        (c, b, 4u32)
    } else if op == 0x01 || op == 0x11 || op == 0x21 || op == 0x31 {
        let fw = spec_fetch_word(c, b);
        let c2 = if op == 0x01 {
            Cpu { regs: with_bc(fw.0.regs, fw.1), ..fw.0 }
        } else if op == 0x11 {
            Cpu { regs: with_de(fw.0.regs, fw.1), ..fw.0 }
        } else if op == 0x21 {
            Cpu { regs: with_hl(fw.0.regs, fw.1), ..fw.0 }
        } else {
            Cpu { sp: fw.1, ..fw.0 }
        };
        (c2, b, 12u32)
    } else if op == 0x02 {
        (c, spec_bus_write(b, spec_bc(c.regs), c.regs.a), 8u32)
    } else if op == 0x12 {
        (c, spec_bus_write(b, spec_de(c.regs), c.regs.a), 8u32)
    } else if op == 0x22 {
        let hl = spec_hl(c.regs);
        let b2 = spec_bus_write(b, hl, c.regs.a);
        (
            Cpu { regs: with_hl(c.regs, vstd::wrapping::u16_specs::wrapping_add(hl, 1)), ..c },
            b2,
            8u32,
        )
    } else if op == 0x32 {
        let hl = spec_hl(c.regs);
        let b2 = spec_bus_write(b, hl, c.regs.a);
        (
            Cpu { regs: with_hl(c.regs, vstd::wrapping::u16_specs::wrapping_sub(hl, 1)), ..c },
            b2,
            8u32,
        )
    } else if op == 0x03 || op == 0x13 || op == 0x23 || op == 0x33 {
        let c2 = if op == 0x03 {
            Cpu {
                regs: with_bc(
                    c.regs,
                    vstd::wrapping::u16_specs::wrapping_add(spec_bc(c.regs), 1),
                ),
                ..c
            }
        } else if op == 0x13 {
            Cpu {
                regs: with_de(
                    c.regs,
                    vstd::wrapping::u16_specs::wrapping_add(spec_de(c.regs), 1),
                ),
                ..c
            }
        } else if op == 0x23 {
            Cpu {
                regs: with_hl(
                    c.regs,
                    vstd::wrapping::u16_specs::wrapping_add(spec_hl(c.regs), 1),
                ),
                ..c
            }
        } else {
            Cpu { sp: vstd::wrapping::u16_specs::wrapping_add(c.sp, 1), ..c }
        };
        (c2, b, 8u32)
    } else if op & 0xC7 == 0x04 {
        let register = ((op >> 3) & 0x07) as u8;
        let value = spec_read_r8(c, b, register);
        let t = spec_inc8(c.regs, value);
        let w = spec_write_r8(Cpu { regs: t.1, ..c }, b, register, t.0);
        (w.0, w.1, if register == 6 { 12u32 } else { 4u32 })
    } else if op & 0xC7 == 0x05 {
        let register = ((op >> 3) & 0x07) as u8;
        let value = spec_read_r8(c, b, register);
        let t = spec_dec8(c.regs, value);
        let w = spec_write_r8(Cpu { regs: t.1, ..c }, b, register, t.0);
        (w.0, w.1, if register == 6 { 12u32 } else { 4u32 })
    } else if op & 0xC7 == 0x06 {
        let register = ((op >> 3) & 0x07) as u8;
        let fb = spec_fetch_byte(c, b);
        let w = spec_write_r8(fb.0, b, register, fb.1);
        (w.0, w.1, if register == 6 { 12u32 } else { 8u32 })
    } else if op == 0x07 {
        let t = spec_rlc(c.regs, c.regs.a, false);
        (Cpu { regs: Registers { a: t.0, ..t.1 }, ..c }, b, 4u32)
    } else if op == 0x08 {
        let fw = spec_fetch_word(c, b);
        (fw.0, spec_bus_write_word(b, fw.1, fw.0.sp), 20u32)
    } else if op == 0x09 || op == 0x19 || op == 0x29 || op == 0x39 {
        let value = if op == 0x09 {
            spec_bc(c.regs)
        } else if op == 0x19 {
            spec_de(c.regs)
        } else if op == 0x29 {
            spec_hl(c.regs)
        } else {
            c.sp
        };
        (Cpu { regs: spec_add_hl(c.regs, value), ..c }, b, 8u32)
    } else if op == 0x0A {
        (
            Cpu { regs: Registers { a: crate::bus::spec_bus_read(b, spec_bc(c.regs)), ..c.regs }, ..c },
            b,
            8u32,
        )
    } else if op == 0x1A {
        (
            Cpu { regs: Registers { a: crate::bus::spec_bus_read(b, spec_de(c.regs)), ..c.regs }, ..c },
            b,
            8u32,
        )
    } else if op == 0x2A {
        let hl = spec_hl(c.regs);
        let loaded = Registers { a: crate::bus::spec_bus_read(b, hl), ..c.regs };
        (
            Cpu { regs: with_hl(loaded, vstd::wrapping::u16_specs::wrapping_add(hl, 1)), ..c },
            b,
            8u32,
        )
    } else if op == 0x3A {
        let hl = spec_hl(c.regs);
        let loaded = Registers { a: crate::bus::spec_bus_read(b, hl), ..c.regs };
        (
            Cpu { regs: with_hl(loaded, vstd::wrapping::u16_specs::wrapping_sub(hl, 1)), ..c },
            b,
            8u32,
        )
    } else if op == 0x0B || op == 0x1B || op == 0x2B || op == 0x3B {
        let c2 = if op == 0x0B {
            Cpu {
                regs: with_bc(
                    c.regs,
                    vstd::wrapping::u16_specs::wrapping_sub(spec_bc(c.regs), 1),
                ),
                ..c
            }
        } else if op == 0x1B {
            Cpu {
                regs: with_de(
                    c.regs,
                    vstd::wrapping::u16_specs::wrapping_sub(spec_de(c.regs), 1),
                ),
                ..c
            }
        } else if op == 0x2B {
            Cpu {
                regs: with_hl(
                    c.regs,
                    vstd::wrapping::u16_specs::wrapping_sub(spec_hl(c.regs), 1),
                ),
                ..c
            }
        } else {
            Cpu { sp: vstd::wrapping::u16_specs::wrapping_sub(c.sp, 1), ..c }
        };
        (c2, b, 8u32)
    } else if op == 0x0F {
        let t = spec_rrc(c.regs, c.regs.a, false);
        (Cpu { regs: Registers { a: t.0, ..t.1 }, ..c }, b, 4u32)
    } else if op == 0x10 {
        let fb = spec_fetch_byte(c, b);
        (Cpu { stopped: true, ..fb.0 }, b, 4u32)
    } else if op == 0x17 {
        let t = spec_rl(c.regs, c.regs.a, false);
        (Cpu { regs: Registers { a: t.0, ..t.1 }, ..c }, b, 4u32)
    } else if op == 0x18 {
        let fb = spec_fetch_byte(c, b);
        (Cpu { pc: spec_add_signed_u16(fb.0.pc, fb.1), ..fb.0 }, b, 12u32)
    } else if op == 0x20 || op == 0x28 || op == 0x30 || op == 0x38 {
        let fb = spec_fetch_byte(c, b);
        if spec_condition(fb.0.regs, ((op >> 3) & 0x03) as u8) {
            (Cpu { pc: spec_add_signed_u16(fb.0.pc, fb.1), ..fb.0 }, b, 12u32)
        } else {
            (fb.0, b, 8u32)
        }
    } else if op == 0x1F {
        let t = spec_rr(c.regs, c.regs.a, false);
        (Cpu { regs: Registers { a: t.0, ..t.1 }, ..c }, b, 4u32)
    } else if op == 0x27 {
        (Cpu { regs: spec_daa(c.regs), ..c }, b, 4u32)
    } else if op == 0x2F {
        let flipped = Registers { a: !c.regs.a, ..c.regs };
        let f2 = spec_set_flag(spec_set_flag(flipped.f, FLAG_N, true), FLAG_H, true);
        (Cpu { regs: Registers { f: f2, ..flipped }, ..c }, b, 4u32)
    } else if op == 0x37 {
        (Cpu { regs: Registers { f: flags_nhc(c.regs.f, false, false, true), ..c.regs }, ..c }, b, 4u32)
    } else if op == 0x3F {
        let carry = spec_c(c.regs);
        (
            Cpu { regs: Registers { f: flags_nhc(c.regs.f, false, false, !carry), ..c.regs }, ..c },
            b,
            4u32,
        )
    } else if 0x40 <= op && op <= 0x7F {
        if op == 0x76 {
            let c2 = if c.ime {
                Cpu { halted: true, ..c }
            } else if spec_pending(b) != 0 {
                Cpu { halt_bug: true, ..c }
            } else {
                Cpu { halted: true, ..c }
            };
            (c2, b, 4u32)
        } else {
            let destination = ((op >> 3) & 0x07) as u8;
            let source = (op & 0x07) as u8;
            let value = spec_read_r8(c, b, source);
            let w = spec_write_r8(c, b, destination, value);
            (w.0, w.1, if source == 6 || destination == 6 { 8u32 } else { 4u32 })
        }
    } else if 0x80 <= op && op <= 0xBF {
        let source = (op & 0x07) as u8;
        let value = spec_read_r8(c, b, source);
        let sel = ((op >> 3) & 0x07) as u8;
        let regs2 = if sel == 0 {
            spec_add_a(c.regs, value, false)
        } else if sel == 1 {
            spec_add_a(c.regs, value, true)
        } else if sel == 2 {
            spec_sub_a(c.regs, value, false)
        } else if sel == 3 {
            spec_sub_a(c.regs, value, true)
        } else if sel == 4 {
            spec_and_a(c.regs, value)
        } else if sel == 5 {
            spec_xor_a(c.regs, value)
        } else if sel == 6 {
            spec_or_a(c.regs, value)
        } else {
            spec_cp_a(c.regs, value)
        };
        (Cpu { regs: regs2, ..c }, b, if source == 6 { 8u32 } else { 4u32 })
    } else if op == 0xC0 || op == 0xC8 || op == 0xD0 || op == 0xD8 {
        if spec_condition(c.regs, ((op >> 3) & 0x03) as u8) {
            let pp = spec_pop_word(c, b);
            (Cpu { pc: pp.1, ..pp.0 }, b, 20u32)
        } else {
            (c, b, 8u32)
        }
    } else if op == 0xC1 || op == 0xD1 || op == 0xE1 || op == 0xF1 {
        let pp = spec_pop_word(c, b);
        let c2 = if op == 0xC1 {
            Cpu { regs: with_bc(pp.0.regs, pp.1), ..pp.0 }
        } else if op == 0xD1 {
            Cpu { regs: with_de(pp.0.regs, pp.1), ..pp.0 }
        } else if op == 0xE1 {
            Cpu { regs: with_hl(pp.0.regs, pp.1), ..pp.0 }
        } else {
            Cpu { regs: with_af(pp.0.regs, pp.1), ..pp.0 }
        };
        (c2, b, 12u32)
    } else if op == 0xC2 || op == 0xCA || op == 0xD2 || op == 0xDA {
        let fw = spec_fetch_word(c, b);
        if spec_condition(fw.0.regs, ((op >> 3) & 0x03) as u8) {
            (Cpu { pc: fw.1, ..fw.0 }, b, 16u32)
        } else {
            (fw.0, b, 12u32)
        }
    } else if op == 0xC3 {
        let fw = spec_fetch_word(c, b);
        (Cpu { pc: fw.1, ..fw.0 }, b, 16u32)
    } else if op == 0xC4 || op == 0xCC || op == 0xD4 || op == 0xDC {
        let fw = spec_fetch_word(c, b);
        if spec_condition(fw.0.regs, ((op >> 3) & 0x03) as u8) {
            let pushed = spec_push_word(fw.0, b, fw.0.pc);
            (Cpu { pc: fw.1, ..pushed.0 }, pushed.1, 24u32)
        } else {
            (fw.0, b, 12u32)
        }
    } else if op == 0xC5 || op == 0xD5 || op == 0xE5 || op == 0xF5 {
        let value = if op == 0xC5 {
            spec_bc(c.regs)
        } else if op == 0xD5 {
            spec_de(c.regs)
        } else if op == 0xE5 {
            spec_hl(c.regs)
        } else {
            crate::regs::spec_af(c.regs)
        };
        let pushed = spec_push_word(c, b, value);
        (pushed.0, pushed.1, 16u32)
    } else if op == 0xC6 {
        let fb = spec_fetch_byte(c, b);
        (Cpu { regs: spec_add_a(fb.0.regs, fb.1, false), ..fb.0 }, b, 8u32)
    } else if op & 0xC7 == 0xC7 {
        let vector = (op & 0x38) as u16;
        let pushed = spec_push_word(c, b, c.pc);
        (Cpu { pc: vector, ..pushed.0 }, pushed.1, 16u32)
    } else if op == 0xC9 {
        let pp = spec_pop_word(c, b);
        (Cpu { pc: pp.1, ..pp.0 }, b, 16u32)
    } else if op == 0xCB {
        let fb = spec_fetch_byte(c, b);
        spec_exec_cb(fb.0, b, fb.1)
    } else if op == 0xCD {
        let fw = spec_fetch_word(c, b);
        let pushed = spec_push_word(fw.0, b, fw.0.pc);
        (Cpu { pc: fw.1, ..pushed.0 }, pushed.1, 24u32)
    } else if op == 0xCE {
        let fb = spec_fetch_byte(c, b);
        (Cpu { regs: spec_add_a(fb.0.regs, fb.1, true), ..fb.0 }, b, 8u32)
    } else if op == 0xD6 {
        let fb = spec_fetch_byte(c, b);
        (Cpu { regs: spec_sub_a(fb.0.regs, fb.1, false), ..fb.0 }, b, 8u32)
    } else if op == 0xD9 {
        let pp = spec_pop_word(c, b);
        (Cpu { pc: pp.1, ime: true, ime_delay: 0u8, ..pp.0 }, b, 16u32)
    } else if op == 0xDE {
        let fb = spec_fetch_byte(c, b);
        (Cpu { regs: spec_sub_a(fb.0.regs, fb.1, true), ..fb.0 }, b, 8u32)
    } else if op == 0xE0 {
        let fb = spec_fetch_byte(c, b);
        (fb.0, spec_bus_write(b, (0xFF00u16 | (fb.1 as u16)) as u16, fb.0.regs.a), 12u32)
    } else if op == 0xE2 {
        (c, spec_bus_write(b, (0xFF00u16 | (c.regs.c as u16)) as u16, c.regs.a), 8u32)
    } else if op == 0xE6 {
        let fb = spec_fetch_byte(c, b);
        (Cpu { regs: spec_and_a(fb.0.regs, fb.1), ..fb.0 }, b, 8u32)
    } else if op == 0xE8 {
        let fb = spec_fetch_byte(c, b);
        let t = spec_add_sp_offset(fb.0.sp, fb.1);
        (
            Cpu {
                sp: t.0,
                regs: Registers { f: flags_znhc(fb.0.regs.f, false, false, t.1, t.2), ..fb.0.regs },
                ..fb.0
            },
            b,
            16u32,
        )
    } else if op == 0xE9 {
        (Cpu { pc: spec_hl(c.regs), ..c }, b, 4u32)
    } else if op == 0xEA {
        let fw = spec_fetch_word(c, b);
        (fw.0, spec_bus_write(b, fw.1, fw.0.regs.a), 16u32)
    } else if op == 0xEE {
        let fb = spec_fetch_byte(c, b);
        (Cpu { regs: spec_xor_a(fb.0.regs, fb.1), ..fb.0 }, b, 8u32)
    } else if op == 0xF0 {
        let fb = spec_fetch_byte(c, b);
        (
            Cpu {
                regs: Registers {
                    a: crate::bus::spec_bus_read(b, (0xFF00u16 | (fb.1 as u16)) as u16),
                    ..fb.0.regs
                },
                ..fb.0
            },
            b,
            12u32,
        )
    } else if op == 0xF2 {
        (
            Cpu {
                regs: Registers {
                    a: crate::bus::spec_bus_read(b, (0xFF00u16 | (c.regs.c as u16)) as u16),
                    ..c.regs
                },
                ..c
            },
            b,
            8u32,
        )
    } else if op == 0xF3 {
        (Cpu { ime: false, ime_delay: 0u8, ..c }, b, 4u32)
    } else if op == 0xF6 {
        let fb = spec_fetch_byte(c, b);
        (Cpu { regs: spec_or_a(fb.0.regs, fb.1), ..fb.0 }, b, 8u32)
    } else if op == 0xF8 {
        let fb = spec_fetch_byte(c, b);
        let t = spec_add_sp_offset(fb.0.sp, fb.1);
        let flagged = Registers {
            f: flags_znhc(fb.0.regs.f, false, false, t.1, t.2),
            ..fb.0.regs
        };
        (Cpu { regs: with_hl(flagged, t.0), ..fb.0 }, b, 12u32)
    } else if op == 0xF9 {
        (Cpu { sp: spec_hl(c.regs), ..c }, b, 8u32)
    } else if op == 0xFA {
        let fw = spec_fetch_word(c, b);
        (
            Cpu {
                regs: Registers { a: crate::bus::spec_bus_read(b, fw.1), ..fw.0.regs },
                ..fw.0
            },
            b,
            16u32,
        )
    } else if op == 0xFB {
        (Cpu { ime_delay: 2u8, ..c }, b, 4u32)
    } else if op == 0xFE {
        let fb = spec_fetch_byte(c, b);
        (Cpu { regs: spec_cp_a(fb.0.regs, fb.1), ..fb.0 }, b, 8u32)
    } else {
        (c, b, 4u32)
    }
}

/// One base-page instruction: illegal opcodes fail and change nothing,
/// every other opcode steps per [`spec_exec_legal`].
pub open spec fn spec_exec_base(c: Cpu, b: BusModel, op: u8) -> (
    Cpu,
    BusModel,
    Result<u32, EmuError>,
) {
    if spec_is_illegal(op) {
        (c, b, Err(EmuError::IllegalOpcode(op)))
    } else {
        let t = spec_exec_legal(c, b, op);
        (t.0, t.1, Ok(t.2))
    }
}

/// Decoder coverage: every opcode outside the illegal set is matched by
/// one of the decoder's arms, so the catch-all is reached only for
/// illegal opcodes.
proof fn lemma_base_decoder_total(op: u8)
    by (bit_vector)
    ensures
        !spec_is_illegal(op) ==> {
            ||| op == 0x00
            ||| op == 0x01 || op == 0x11 || op == 0x21 || op == 0x31
            ||| op == 0x02
            ||| op == 0x12
            ||| op == 0x22
            ||| op == 0x32
            ||| op == 0x03 || op == 0x13 || op == 0x23 || op == 0x33
            ||| op & 0xC7 == 0x04
            ||| op & 0xC7 == 0x05
            ||| op & 0xC7 == 0x06
            ||| op == 0x07
            ||| op == 0x08
            ||| op == 0x09 || op == 0x19 || op == 0x29 || op == 0x39
            ||| op == 0x0A
            ||| op == 0x1A
            ||| op == 0x2A
            ||| op == 0x3A
            ||| op == 0x0B || op == 0x1B || op == 0x2B || op == 0x3B
            ||| op == 0x0F
            ||| op == 0x10
            ||| op == 0x17
            ||| op == 0x18
            ||| op == 0x20 || op == 0x28 || op == 0x30 || op == 0x38
            ||| op == 0x1F
            ||| op == 0x27
            ||| op == 0x2F
            ||| op == 0x37
            ||| op == 0x3F
            ||| 0x40 <= op && op <= 0x7F
            ||| 0x80 <= op && op <= 0xBF
            ||| op == 0xC0 || op == 0xC8 || op == 0xD0 || op == 0xD8
            ||| op == 0xC1 || op == 0xD1 || op == 0xE1 || op == 0xF1
            ||| op == 0xC2 || op == 0xCA || op == 0xD2 || op == 0xDA
            ||| op == 0xC3
            ||| op == 0xC4 || op == 0xCC || op == 0xD4 || op == 0xDC
            ||| op == 0xC5 || op == 0xD5 || op == 0xE5 || op == 0xF5
            ||| op == 0xC6
            ||| op & 0xC7 == 0xC7
            ||| op == 0xC9
            ||| op == 0xCB
            ||| op == 0xCD
            ||| op == 0xCE
            ||| op == 0xD6
            ||| op == 0xD9
            ||| op == 0xDE
            ||| op == 0xE0
            ||| op == 0xE2
            ||| op == 0xE6
            ||| op == 0xE8
            ||| op == 0xE9
            ||| op == 0xEA
            ||| op == 0xEE
            ||| op == 0xF0
            ||| op == 0xF2
            ||| op == 0xF3
            ||| op == 0xF6
            ||| op == 0xF8
            ||| op == 0xF9
            ||| op == 0xFA
            ||| op == 0xFB
            ||| op == 0xFE
        },
{
}

/// Every three-bit field extracted from an opcode is small enough to
/// index a register or a bit position, and an opcode matched by one of
/// the masked decoder patterns is never one of the illegal opcodes.
proof fn lemma_opcode_fields()
    by (bit_vector)
    ensures
        forall|x: u8| #[trigger] ((x >> 3) & 0x07) < 8,
        forall|x: u8| #[trigger] (x & 0x07) < 8,
        forall|x: u8|
            #![trigger x & 0xC7]
            (x & 0xC7 == 0x04 || x & 0xC7 == 0x05 || x & 0xC7 == 0x06 || x & 0xC7 == 0xC7) ==> !(
            x == 0xD3 || x == 0xDB || x == 0xDD || x == 0xE3 || x == 0xE4 || x == 0xEB || x == 0xEC
                || x == 0xED || x == 0xF4 || x == 0xFC || x == 0xFD),
{
}

impl Cpu {
    pub(crate) fn execute_cb(&mut self, opcode: u8, bus: &mut Bus) -> (cycles: u32)
        requires
            bus_wf(old(bus)@),
            cpu_wf(*old(self)),
        ensures
            bus_wf(final(bus)@),
            cpu_wf(*final(self)),
            ({
                let t = spec_exec_cb(*old(self), old(bus)@, opcode);
                *final(self) == t.0 && final(bus)@ == t.1 && cycles == t.2
            }),
            cycles <= 16,
    {
        proof {
            crate::regs::lemma_flag_nibble_facts();
            lemma_opcode_fields();
        }
        let register = opcode & 0x07;
        let value = self.read_r8(bus, register);
        let rw_cycles: u32 = if register == 6 { 16 } else { 8 };

        if opcode <= 0x07 {
            let result = self.regs.rlc(value, true);
            self.write_r8(bus, register, result);
            rw_cycles
        } else if opcode <= 0x0F {
            let result = self.regs.rrc(value, true);
            self.write_r8(bus, register, result);
            rw_cycles
        } else if opcode <= 0x17 {
            let result = self.regs.rl(value, true);
            self.write_r8(bus, register, result);
            rw_cycles
        } else if opcode <= 0x1F {
            let result = self.regs.rr(value, true);
            self.write_r8(bus, register, result);
            rw_cycles
        } else if opcode <= 0x27 {
            let result = self.regs.sla(value);
            self.write_r8(bus, register, result);
            rw_cycles
        } else if opcode <= 0x2F {
            let result = self.regs.sra(value);
            self.write_r8(bus, register, result);
            rw_cycles
        } else if opcode <= 0x37 {
            let result = self.regs.swap(value);
            self.write_r8(bus, register, result);
            rw_cycles
        } else if opcode <= 0x3F {
            let result = self.regs.srl(value);
            self.write_r8(bus, register, result);
            rw_cycles
        } else if opcode <= 0x7F {
            let bit = (opcode >> 3) & 0x07;
            self.regs.set_z((value & (1u8 << bit)) == 0);
            self.regs.set_n(false);
            self.regs.set_h(true);
            if register == 6 { 12 } else { 8 }
        } else if opcode <= 0xBF {
            let bit = (opcode >> 3) & 0x07;
            self.write_r8(bus, register, value & !(1u8 << bit));
            rw_cycles
        } else {
            let bit = (opcode >> 3) & 0x07;
            self.write_r8(bus, register, value | (1u8 << bit));
            rw_cycles
        }
    }

    #[verifier::rlimit(100)]
    #[verifier::spinoff_prover]
    pub(crate) fn execute_base(&mut self, opcode: u8, bus: &mut Bus) -> (r: Result<u32, EmuError>)
        requires
            bus_wf(old(bus)@),
            cpu_wf(*old(self)),
            !old(self).halted,
            !old(self).stopped,
        ensures
            bus_wf(final(bus)@),
            cpu_wf(*final(self)),
            ({
                let t = spec_exec_base(*old(self), old(bus)@, opcode);
                *final(self) == t.0 && final(bus)@ == t.1 && r == t.2
            }),
            r is Ok ==> r.unwrap() <= 24,
            r is Err ==> r == Err::<u32, EmuError>(EmuError::IllegalOpcode(opcode)),
    {
        proof {
            crate::regs::lemma_flag_nibble_facts();
            lemma_opcode_fields();
        }
        if opcode == 0x00 {
            return Ok(4)
        } else if opcode == 0x01 || opcode == 0x11 || opcode == 0x21 || opcode == 0x31 {
            let value = self.fetch_word(bus);
            if opcode == 0x01 {
                self.regs.set_bc(value);
            } else if opcode == 0x11 {
                self.regs.set_de(value);
            } else if opcode == 0x21 {
                self.regs.set_hl(value);
            } else {
                self.sp = value;
            }
            return Ok(12)
        } else if opcode == 0x02 {
            bus.write_byte(self.regs.bc(), self.regs.a);
            return Ok(8)
        } else if opcode == 0x12 {
            bus.write_byte(self.regs.de(), self.regs.a);
            return Ok(8)
        } else if opcode == 0x22 {
            let hl = self.regs.hl();
            bus.write_byte(hl, self.regs.a);
            self.regs.set_hl(hl.wrapping_add(1));
            return Ok(8)
        } else if opcode == 0x32 {
            let hl = self.regs.hl();
            bus.write_byte(hl, self.regs.a);
            self.regs.set_hl(hl.wrapping_sub(1));
            return Ok(8)
        } else if opcode == 0x03 || opcode == 0x13 || opcode == 0x23 || opcode == 0x33 {
            if opcode == 0x03 {
                let bc = self.regs.bc();
                self.regs.set_bc(bc.wrapping_add(1));
            } else if opcode == 0x13 {
                let de = self.regs.de();
                self.regs.set_de(de.wrapping_add(1));
            } else if opcode == 0x23 {
                let hl = self.regs.hl();
                self.regs.set_hl(hl.wrapping_add(1));
            } else {
                self.sp = self.sp.wrapping_add(1);
            }
            return Ok(8)
        } else if opcode & 0xC7 == 0x04 {
            let register = (opcode >> 3) & 0x07;
            let value = self.read_r8(bus, register);
            let result = self.regs.inc8(value);
            self.write_r8(bus, register, result);
            return Ok(if register == 6 { 12 } else { 4 })
        } else if opcode & 0xC7 == 0x05 {
            let register = (opcode >> 3) & 0x07;
            let value = self.read_r8(bus, register);
            let result = self.regs.dec8(value);
            self.write_r8(bus, register, result);
            return Ok(if register == 6 { 12 } else { 4 })
        } else if opcode & 0xC7 == 0x06 {
            let register = (opcode >> 3) & 0x07;
            let value = self.fetch_byte(bus);
            self.write_r8(bus, register, value);
            return Ok(if register == 6 { 12 } else { 8 })
        } else if opcode == 0x07 {
            let rotated = self.regs.rlc(self.regs.a, false);
            self.regs.a = rotated;
            return Ok(4)
        } else if opcode == 0x08 {
            let address = self.fetch_word(bus);
            bus.write_word(address, self.sp);
            return Ok(20)
        } else if opcode == 0x09 || opcode == 0x19 || opcode == 0x29 || opcode == 0x39 {
            let value = if opcode == 0x09 {
                self.regs.bc()
            } else if opcode == 0x19 {
                self.regs.de()
            } else if opcode == 0x29 {
                self.regs.hl()
            } else {
                self.sp
            };
            self.regs.add_hl(value);
            return Ok(8)
        } else if opcode == 0x0A {
            self.regs.a = bus.read_byte(self.regs.bc());
            return Ok(8)
        } else if opcode == 0x1A {
            self.regs.a = bus.read_byte(self.regs.de());
            return Ok(8)
        } else if opcode == 0x2A {
            let hl = self.regs.hl();
            self.regs.a = bus.read_byte(hl);
            self.regs.set_hl(hl.wrapping_add(1));
            return Ok(8)
        } else if opcode == 0x3A {
            let hl = self.regs.hl();
            self.regs.a = bus.read_byte(hl);
            self.regs.set_hl(hl.wrapping_sub(1));
            return Ok(8)
        } else if opcode == 0x0B || opcode == 0x1B || opcode == 0x2B || opcode == 0x3B {
            if opcode == 0x0B {
                let bc = self.regs.bc();
                self.regs.set_bc(bc.wrapping_sub(1));
            } else if opcode == 0x1B {
                let de = self.regs.de();
                self.regs.set_de(de.wrapping_sub(1));
            } else if opcode == 0x2B {
                let hl = self.regs.hl();
                self.regs.set_hl(hl.wrapping_sub(1));
            } else {
                self.sp = self.sp.wrapping_sub(1);
            }
            return Ok(8)
        } else if opcode == 0x0F {
            let rotated = self.regs.rrc(self.regs.a, false);
            self.regs.a = rotated;
            return Ok(4)
        } else if opcode == 0x10 {
            let _padding = self.fetch_byte(bus);
            self.stopped = true;
            return Ok(4)
        } else if opcode == 0x17 {
            let rotated = self.regs.rl(self.regs.a, false);
            self.regs.a = rotated;
            return Ok(4)
        } else if opcode == 0x18 {
            let offset = self.fetch_byte(bus);
            self.pc = Self::add_signed_u16(self.pc, offset);
            return Ok(12)
        } else if opcode == 0x20 || opcode == 0x28 || opcode == 0x30 || opcode == 0x38 {
            let offset = self.fetch_byte(bus);
            let condition = self.regs.condition((opcode >> 3) & 0x03);
            if condition {
                self.pc = Self::add_signed_u16(self.pc, offset);
                return Ok(12)
            } else {
                return Ok(8)
            }
        } else if opcode == 0x1F {
            let rotated = self.regs.rr(self.regs.a, false);
            self.regs.a = rotated;
            return Ok(4)
        } else if opcode == 0x27 {
            self.regs.daa();
            return Ok(4)
        } else if opcode == 0x2F {
            self.regs.a = !self.regs.a;
            self.regs.set_n(true);
            self.regs.set_h(true);
            return Ok(4)
        } else if opcode == 0x37 {
            self.regs.set_n(false);
            self.regs.set_h(false);
            self.regs.set_c(true);
            return Ok(4)
        } else if opcode == 0x3F {
            let carry = self.regs.flag_c();
            self.regs.set_n(false);
            self.regs.set_h(false);
            self.regs.set_c(!carry);
            return Ok(4)
        } else if 0x40 <= opcode && opcode <= 0x7F {
            if opcode == 0x76 {
                if self.ime {
                    self.halted = true;
                } else if bus.pending_interrupts() != 0 {
                    self.halt_bug = true;
                } else {
                    self.halted = true;
                }
                return Ok(4)
            } else {
                let destination = (opcode >> 3) & 0x07;
                let source = opcode & 0x07;
                let value = self.read_r8(bus, source);
                self.write_r8(bus, destination, value);
                return Ok(if source == 6 || destination == 6 { 8 } else { 4 })
            }
        } else if 0x80 <= opcode && opcode <= 0xBF {
            let source = opcode & 0x07;
            let value = self.read_r8(bus, source);
            let sel = (opcode >> 3) & 0x07;
            if sel == 0 {
                self.regs.add_a(value, false);
            } else if sel == 1 {
                self.regs.add_a(value, true);
            } else if sel == 2 {
                self.regs.sub_a(value, false);
            } else if sel == 3 {
                self.regs.sub_a(value, true);
            } else if sel == 4 {
                self.regs.and_a(value);
            } else if sel == 5 {
                self.regs.xor_a(value);
            } else if sel == 6 {
                self.regs.or_a(value);
            } else {
                self.regs.cp_a(value);
            }
            return Ok(if source == 6 { 8 } else { 4 })
        } else if opcode == 0xC0 || opcode == 0xC8 || opcode == 0xD0 || opcode == 0xD8 {
            let condition = self.regs.condition((opcode >> 3) & 0x03);
            if condition {
                self.pc = self.pop_word(bus);
                return Ok(20)
            } else {
                return Ok(8)
            }
        } else if opcode == 0xC1 || opcode == 0xD1 || opcode == 0xE1 || opcode == 0xF1 {
            let value = self.pop_word(bus);
            if opcode == 0xC1 {
                self.regs.set_bc(value);
            } else if opcode == 0xD1 {
                self.regs.set_de(value);
            } else if opcode == 0xE1 {
                self.regs.set_hl(value);
            } else {
                self.regs.set_af(value);
            }
            return Ok(12)
        } else if opcode == 0xC2 || opcode == 0xCA || opcode == 0xD2 || opcode == 0xDA {
            let address = self.fetch_word(bus);
            let condition = self.regs.condition((opcode >> 3) & 0x03);
            if condition {
                self.pc = address;
                return Ok(16)
            } else {
                return Ok(12)
            }
        } else if opcode == 0xC3 {
            self.pc = self.fetch_word(bus);
            return Ok(16)
        } else if opcode == 0xC4 || opcode == 0xCC || opcode == 0xD4 || opcode == 0xDC {
            let address = self.fetch_word(bus);
            let condition = self.regs.condition((opcode >> 3) & 0x03);
            if condition {
                let return_pc = self.pc;
                self.push_word(bus, return_pc);
                self.pc = address;
                return Ok(24)
            } else {
                return Ok(12)
            }
        } else if opcode == 0xC5 || opcode == 0xD5 || opcode == 0xE5 || opcode == 0xF5 {
            let value = if opcode == 0xC5 {
                self.regs.bc()
            } else if opcode == 0xD5 {
                self.regs.de()
            } else if opcode == 0xE5 {
                self.regs.hl()
            } else {
                self.regs.af()
            };
            self.push_word(bus, value);
            return Ok(16)
        } else if opcode == 0xC6 {
            let value = self.fetch_byte(bus);
            self.regs.add_a(value, false);
            return Ok(8)
        } else if opcode & 0xC7 == 0xC7 {
            let vector = (opcode & 0x38) as u16;
            let return_pc = self.pc;
            self.push_word(bus, return_pc);
            self.pc = vector;
            return Ok(16)
        } else if opcode == 0xC9 {
            self.pc = self.pop_word(bus);
            return Ok(16)
        } else if opcode == 0xCB {
            let cb_opcode = self.fetch_byte(bus);
            let cycles = self.execute_cb(cb_opcode, bus);
            return Ok(cycles)
        } else if opcode == 0xCD {
            let address = self.fetch_word(bus);
            let return_pc = self.pc;
            self.push_word(bus, return_pc);
            self.pc = address;
            return Ok(24)
        } else if opcode == 0xCE {
            let value = self.fetch_byte(bus);
            self.regs.add_a(value, true);
            return Ok(8)
        } else if opcode == 0xD6 {
            let value = self.fetch_byte(bus);
            self.regs.sub_a(value, false);
            return Ok(8)
        } else if opcode == 0xD9 {
            self.pc = self.pop_word(bus);
            self.ime = true;
            self.ime_delay = 0;
            return Ok(16)
        } else if opcode == 0xDE {
            let value = self.fetch_byte(bus);
            self.regs.sub_a(value, true);
            return Ok(8)
        } else if opcode == 0xE0 {
            let offset = self.fetch_byte(bus);
            let address = 0xFF00 | (offset as u16);
            bus.write_byte(address, self.regs.a);
            return Ok(12)
        } else if opcode == 0xE2 {
            let address = 0xFF00 | (self.regs.c as u16);
            bus.write_byte(address, self.regs.a);
            return Ok(8)
        } else if opcode == 0xE6 {
            let value = self.fetch_byte(bus);
            self.regs.and_a(value);
            return Ok(8)
        } else if opcode == 0xE8 {
            let offset = self.fetch_byte(bus);
            let (result, half_carry, carry) = Self::add_sp_offset(self.sp, offset);
            self.sp = result;
            self.regs.set_z(false);
            self.regs.set_n(false);
            self.regs.set_h(half_carry);
            self.regs.set_c(carry);
            return Ok(16)
        } else if opcode == 0xE9 {
            self.pc = self.regs.hl();
            return Ok(4)
        } else if opcode == 0xEA {
            let address = self.fetch_word(bus);
            bus.write_byte(address, self.regs.a);
            return Ok(16)
        } else if opcode == 0xEE {
            let value = self.fetch_byte(bus);
            self.regs.xor_a(value);
            return Ok(8)
        } else if opcode == 0xF0 {
            let offset = self.fetch_byte(bus);
            let address = 0xFF00 | (offset as u16);
            self.regs.a = bus.read_byte(address);
            return Ok(12)
        } else if opcode == 0xF2 {
            let address = 0xFF00 | (self.regs.c as u16);
            self.regs.a = bus.read_byte(address);
            return Ok(8)
        } else if opcode == 0xF3 {
            self.ime = false;
            self.ime_delay = 0;
            return Ok(4)
        } else if opcode == 0xF6 {
            let value = self.fetch_byte(bus);
            self.regs.or_a(value);
            return Ok(8)
        } else if opcode == 0xF8 {
            let offset = self.fetch_byte(bus);
            let (result, half_carry, carry) = Self::add_sp_offset(self.sp, offset);
            self.regs.set_z(false);
            self.regs.set_n(false);
            self.regs.set_h(half_carry);
            self.regs.set_c(carry);
            self.regs.set_hl(result);
            return Ok(12)
        } else if opcode == 0xF9 {
            self.sp = self.regs.hl();
            return Ok(8)
        } else if opcode == 0xFA {
            let address = self.fetch_word(bus);
            self.regs.a = bus.read_byte(address);
            return Ok(16)
        } else if opcode == 0xFB {
            self.ime_delay = 2;
            return Ok(4)
        } else if opcode == 0xFE {
            let value = self.fetch_byte(bus);
            self.regs.cp_a(value);
            return Ok(8)
        } else {
            proof {
                lemma_base_decoder_total(opcode);
            }
            return Err(EmuError::IllegalOpcode(opcode));
        }
    }
}

} // verus!
