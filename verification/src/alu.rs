//! Flag-exact arithmetic and rotate operations on the register file: the
//! 8-bit ALU, the 16-bit HL adds, DAA, the four accumulator rotates and
//! the CB-prefixed shift family, and the SP-relative offset math.
//!
//! Every operation is specified as a pure function of the register file,
//! and every flag write goes through [`crate::regs::spec_set_flag`], so the
//! low nibble of `f` provably stays clear.

use vstd::prelude::*;

use crate::regs::{
    spec_c, spec_h, spec_n, spec_set_flag, with_hl, Registers, FLAG_C, FLAG_H, FLAG_N, FLAG_Z,
};

verus! {

/// The flag byte after writing all four flags, in Z, N, H, C order.
pub open spec fn flags_znhc(f: u8, z: bool, n: bool, h: bool, c: bool) -> u8 {
    spec_set_flag(spec_set_flag(spec_set_flag(spec_set_flag(f, FLAG_Z, z), FLAG_N, n), FLAG_H, h), FLAG_C, c)
}

/// The flag byte after writing Z, N and H, leaving C alone.
pub open spec fn flags_znh(f: u8, z: bool, n: bool, h: bool) -> u8 {
    spec_set_flag(spec_set_flag(spec_set_flag(f, FLAG_Z, z), FLAG_N, n), FLAG_H, h)
}

/// The flag byte after writing N, H and C, leaving Z alone.
pub open spec fn flags_nhc(f: u8, n: bool, h: bool, c: bool) -> u8 {
    spec_set_flag(spec_set_flag(spec_set_flag(f, FLAG_N, n), FLAG_H, h), FLAG_C, c)
}

/// The flag byte after writing Z, H and C, leaving N alone.
pub open spec fn flags_zhc(f: u8, z: bool, h: bool, c: bool) -> u8 {
    spec_set_flag(spec_set_flag(spec_set_flag(f, FLAG_Z, z), FLAG_H, h), FLAG_C, c)
}

/// INC r: the incremented value and the register file with Z, N and H
/// updated (C is untouched; the increment wraps).
pub open spec fn spec_inc8(r: Registers, value: u8) -> (u8, Registers) {
    let result = vstd::wrapping::u8_specs::wrapping_add(value, 1);
    (
        result,
        Registers {
            f: flags_znh(r.f, result == 0, false, (value & 0x0F) + 1 > 0x0F),
            ..r
        },
    )
}

/// DEC r: the decremented value and the register file with Z, N and H
/// updated (C is untouched; the decrement wraps).
pub open spec fn spec_dec8(r: Registers, value: u8) -> (u8, Registers) {
    let result = vstd::wrapping::u8_specs::wrapping_sub(value, 1);
    (
        result,
        Registers {
            f: flags_znh(r.f, result == 0, true, (value & 0x0F) == 0),
            ..r
        },
    )
}

/// ADD/ADC A,v: A takes the (wrapping) sum; H is the carry out of bit 3,
/// C the carry out of bit 7.
pub open spec fn spec_add_a(r: Registers, value: u8, with_carry: bool) -> Registers {
    let carry_in: u8 = if with_carry && spec_c(r) { 1u8 } else { 0u8 };
    let a = r.a;
    let result = vstd::wrapping::u8_specs::wrapping_add(
        vstd::wrapping::u8_specs::wrapping_add(a, value),
        carry_in,
    );
    Registers {
        a: result,
        f: flags_znhc(
            r.f,
            result == 0,
            false,
            (a & 0x0F) + (value & 0x0F) + carry_in > 0x0F,
            a + value + carry_in > 0xFF,
        ),
        ..r
    }
}

/// SUB/SBC A,v: A takes the (wrapping) difference; H is the borrow into
/// bit 4, C the full borrow.
pub open spec fn spec_sub_a(r: Registers, value: u8, with_carry: bool) -> Registers {
    let carry_in: u8 = if with_carry && spec_c(r) { 1u8 } else { 0u8 };
    let a = r.a;
    let result = vstd::wrapping::u8_specs::wrapping_sub(
        vstd::wrapping::u8_specs::wrapping_sub(a, value),
        carry_in,
    );
    Registers {
        a: result,
        f: flags_znhc(
            r.f,
            result == 0,
            true,
            (a & 0x0F) < (value & 0x0F) + carry_in,
            (a as int) < value + carry_in,
        ),
        ..r
    }
}

/// AND A,v: H is forced on, C off.
pub open spec fn spec_and_a(r: Registers, value: u8) -> Registers {
    let result = (r.a & value) as u8;
    Registers { a: result, f: flags_znhc(r.f, result == 0, false, true, false), ..r }
}

/// XOR A,v: all of N, H, C clear.
pub open spec fn spec_xor_a(r: Registers, value: u8) -> Registers {
    let result = (r.a ^ value) as u8;
    Registers { a: result, f: flags_znhc(r.f, result == 0, false, false, false), ..r }
}

/// OR A,v: all of N, H, C clear.
pub open spec fn spec_or_a(r: Registers, value: u8) -> Registers {
    let result = (r.a | value) as u8;
    Registers { a: result, f: flags_znhc(r.f, result == 0, false, false, false), ..r }
}

/// CP A,v: the flags of a subtraction, with A left unchanged.
pub open spec fn spec_cp_a(r: Registers, value: u8) -> Registers {
    let a = r.a;
    let result = vstd::wrapping::u8_specs::wrapping_sub(a, value);
    Registers {
        f: flags_znhc(r.f, result == 0, true, (a & 0x0F) < (value & 0x0F), a < value),
        ..r
    }
}

/// ADD HL,v: HL takes the (wrapping) sum; H is the carry out of bit 11, C
/// out of bit 15; Z is untouched.
pub open spec fn spec_add_hl(r: Registers, value: u16) -> Registers {
    let hl = crate::regs::spec_hl(r);
    let result = vstd::wrapping::u16_specs::wrapping_add(hl, value);
    let flagged = Registers {
        f: flags_nhc(
            r.f,
            false,
            (hl & 0x0FFF) + (value & 0x0FFF) > 0x0FFF,
            hl + value > 0xFFFF,
        ),
        ..r
    };
    with_hl(flagged, result)
}

/// DAA: the BCD correction of A after an add or subtract, per the
/// N/H/C flags and the value of A.
pub open spec fn spec_daa(r: Registers) -> Registers {
    let a = r.a;
    let carry0 = spec_c(r);
    if !spec_n(r) {
        let correction1: u8 = if spec_h(r) || (a & 0x0F) > 0x09 { 0x06u8 } else { 0u8 };
        let hit_high = carry0 || a > 0x99;
        let correction: u8 = if hit_high { (correction1 | 0x60) as u8 } else { correction1 };
        let carry = if hit_high { true } else { carry0 };
        let adjusted = vstd::wrapping::u8_specs::wrapping_add(a, correction);
        Registers { a: adjusted, f: flags_zhc(r.f, adjusted == 0, false, carry), ..r }
    } else {
        let correction1: u8 = if spec_h(r) { 0x06u8 } else { 0u8 };
        let correction: u8 = if carry0 { (correction1 | 0x60) as u8 } else { correction1 };
        let adjusted = vstd::wrapping::u8_specs::wrapping_sub(a, correction);
        Registers { a: adjusted, f: flags_zhc(r.f, adjusted == 0, false, carry0), ..r }
    }
}

/// The rotate/shift flag write shared by the whole CB family: Z only when
/// asked for, N and H clear, C from the shifted-out bit.
pub open spec fn rotate_flags(f: u8, result: u8, carry: bool, set_zero: bool) -> u8 {
    flags_znhc(f, set_zero && result == 0, false, false, carry)
}

/// RLC: rotate left, bit 7 into both C and bit 0.
pub open spec fn spec_rlc(r: Registers, value: u8, set_zero: bool) -> (u8, Registers) {
    let carry = (value & 0x80) != 0;
    let result = ((value << 1) | (if carry { 1u8 } else { 0u8 })) as u8;
    (result, Registers { f: rotate_flags(r.f, result, carry, set_zero), ..r })
}

/// RRC: rotate right, bit 0 into both C and bit 7.
pub open spec fn spec_rrc(r: Registers, value: u8, set_zero: bool) -> (u8, Registers) {
    let carry = (value & 0x01) != 0;
    let result = ((value >> 1) | (if carry { 0x80u8 } else { 0u8 })) as u8;
    (result, Registers { f: rotate_flags(r.f, result, carry, set_zero), ..r })
}

/// RL: rotate left through the carry flag.
pub open spec fn spec_rl(r: Registers, value: u8, set_zero: bool) -> (u8, Registers) {
    let carry_in: u8 = if spec_c(r) { 1u8 } else { 0u8 };
    let carry = (value & 0x80) != 0;
    let result = ((value << 1) | carry_in) as u8;
    (result, Registers { f: rotate_flags(r.f, result, carry, set_zero), ..r })
}

/// RR: rotate right through the carry flag.
pub open spec fn spec_rr(r: Registers, value: u8, set_zero: bool) -> (u8, Registers) {
    let carry_in: u8 = if spec_c(r) { 0x80u8 } else { 0u8 };
    let carry = (value & 0x01) != 0;
    let result = ((value >> 1) | carry_in) as u8;
    (result, Registers { f: rotate_flags(r.f, result, carry, set_zero), ..r })
}

/// SLA: shift left, zero into bit 0, bit 7 into C.
pub open spec fn spec_sla(r: Registers, value: u8) -> (u8, Registers) {
    let carry = (value & 0x80) != 0;
    let result = (value << 1) as u8;
    (result, Registers { f: rotate_flags(r.f, result, carry, true), ..r })
}

/// SRA: arithmetic shift right, bit 7 preserved, bit 0 into C.
pub open spec fn spec_sra(r: Registers, value: u8) -> (u8, Registers) {
    let carry = (value & 0x01) != 0;
    let result = ((value >> 1) | (value & 0x80)) as u8;
    (result, Registers { f: rotate_flags(r.f, result, carry, true), ..r })
}

/// SRL: logical shift right, zero into bit 7, bit 0 into C.
pub open spec fn spec_srl(r: Registers, value: u8) -> (u8, Registers) {
    let carry = (value & 0x01) != 0;
    let result = (value >> 1) as u8;
    (result, Registers { f: rotate_flags(r.f, result, carry, true), ..r })
}

/// SWAP: exchange the two nibbles; only Z can end up set.
pub open spec fn spec_swap(r: Registers, value: u8) -> (u8, Registers) {
    let result = ((value << 4) | (value >> 4)) as u8;
    (result, Registers { f: flags_znhc(r.f, result == 0, false, false, false), ..r })
}

/// A signed 8-bit displacement added to a 16-bit base, wrapping: the
/// operand of relative jumps.
pub open spec fn spec_add_signed_u16(base: u16, offset: u8) -> u16 {
    vstd::wrapping::u16_specs::wrapping_add(base, offset as i8 as i16 as u16)
}

/// ADD SP,e / LD HL,SP+e: the (wrapping) sum of SP and the sign-extended
/// offset, with H and C computed from the unsigned low-byte arithmetic.
pub open spec fn spec_add_sp_offset(sp: u16, offset: u8) -> (u16, bool, bool) {
    let signed = offset as i8 as i16 as u16;
    let result = vstd::wrapping::u16_specs::wrapping_add(sp, signed);
    let half_carry = ((sp ^ signed ^ result) & 0x0010) != 0;
    let carry = ((sp ^ signed ^ result) & 0x0100) != 0;
    (result, half_carry, carry)
}

/// The branch condition selected by an opcode's condition-code field:
/// NZ, Z, NC or C.
pub open spec fn spec_condition(r: Registers, code: u8) -> bool {
    let sel = code & 0x03;
    if sel == 0 {
        !crate::regs::spec_z(r)
    } else if sel == 1 {
        crate::regs::spec_z(r)
    } else if sel == 2 {
        !spec_c(r)
    } else {
        spec_c(r)
    }
}

impl Registers {
    pub fn inc8(&mut self, value: u8) -> (r: u8)
        ensures
            (r, *final(self)) == spec_inc8(*old(self), value),
    {
        let result = value.wrapping_add(1);
        self.set_z(result == 0);
        self.set_n(false);
        self.set_h(((value & 0x0F) as u16) + 1 > 0x0F);
        result
    }

    pub fn dec8(&mut self, value: u8) -> (r: u8)
        ensures
            (r, *final(self)) == spec_dec8(*old(self), value),
    {
        let result = value.wrapping_sub(1);
        self.set_z(result == 0);
        self.set_n(true);
        self.set_h((value & 0x0F) == 0);
        result
    }

    pub fn add_a(&mut self, value: u8, with_carry: bool)
        ensures
            *final(self) == spec_add_a(*old(self), value, with_carry),
    {
        let carry_in: u8 = if with_carry && self.flag_c() { 1 } else { 0 };
        let a = self.a;
        let result = a.wrapping_add(value).wrapping_add(carry_in);
        self.set_z(result == 0);
        self.set_n(false);
        self.set_h(((a & 0x0F) as u16) + ((value & 0x0F) as u16) + (carry_in as u16) > 0x0F);
        self.set_c((a as u16) + (value as u16) + (carry_in as u16) > 0xFF);
        self.a = result;
    }

    pub fn sub_a(&mut self, value: u8, with_carry: bool)
        ensures
            *final(self) == spec_sub_a(*old(self), value, with_carry),
    {
        let carry_in: u8 = if with_carry && self.flag_c() { 1 } else { 0 };
        let a = self.a;
        let result = a.wrapping_sub(value).wrapping_sub(carry_in);
        self.set_z(result == 0);
        self.set_n(true);
        self.set_h(((a & 0x0F) as u16) < ((value & 0x0F) as u16) + (carry_in as u16));
        self.set_c((a as u16) < (value as u16) + (carry_in as u16));
        self.a = result;
    }

    pub fn and_a(&mut self, value: u8)
        ensures
            *final(self) == spec_and_a(*old(self), value),
    {
        self.a = self.a & value;
        let zero = self.a == 0;
        self.set_z(zero);
        self.set_n(false);
        self.set_h(true);
        self.set_c(false);
    }

    pub fn xor_a(&mut self, value: u8)
        ensures
            *final(self) == spec_xor_a(*old(self), value),
    {
        self.a = self.a ^ value;
        let zero = self.a == 0;
        self.set_z(zero);
        self.set_n(false);
        self.set_h(false);
        self.set_c(false);
    }

    pub fn or_a(&mut self, value: u8)
        ensures
            *final(self) == spec_or_a(*old(self), value),
    {
        self.a = self.a | value;
        let zero = self.a == 0;
        self.set_z(zero);
        self.set_n(false);
        self.set_h(false);
        self.set_c(false);
    }

    pub fn cp_a(&mut self, value: u8)
        ensures
            *final(self) == spec_cp_a(*old(self), value),
    {
        let a = self.a;
        let result = a.wrapping_sub(value);
        self.set_z(result == 0);
        self.set_n(true);
        self.set_h((a & 0x0F) < (value & 0x0F));
        self.set_c(a < value);
    }

    pub fn add_hl(&mut self, value: u16)
        ensures
            *final(self) == spec_add_hl(*old(self), value),
    {
        let hl = self.hl();
        let result = hl.wrapping_add(value);
        self.set_n(false);
        self.set_h(((hl & 0x0FFF) as u32) + ((value & 0x0FFF) as u32) > 0x0FFF);
        self.set_c((hl as u32) + (value as u32) > 0xFFFF);
        self.set_hl(result);
    }

    pub fn daa(&mut self)
        ensures
            *final(self) == spec_daa(*old(self)),
    {
        let a = self.a;
        let carry0 = self.flag_c();
        if !self.flag_n() {
            let correction1: u8 = if self.flag_h() || (a & 0x0F) > 0x09 { 0x06 } else { 0x00 };
            let hit_high = carry0 || a > 0x99;
            let correction: u8 = if hit_high { correction1 | 0x60 } else { correction1 };
            let carry = if hit_high { true } else { carry0 };
            let adjusted = a.wrapping_add(correction);
            self.a = adjusted;
            self.set_z(adjusted == 0);
            self.set_h(false);
            self.set_c(carry);
        } else {
            let correction1: u8 = if self.flag_h() { 0x06 } else { 0x00 };
            let correction: u8 = if carry0 { correction1 | 0x60 } else { correction1 };
            let adjusted = a.wrapping_sub(correction);
            self.a = adjusted;
            self.set_z(adjusted == 0);
            self.set_h(false);
            self.set_c(carry0);
        }
    }

    pub fn rlc(&mut self, value: u8, set_zero: bool) -> (r: u8)
        ensures
            (r, *final(self)) == spec_rlc(*old(self), value, set_zero),
    {
        let carry = (value & 0x80) != 0;
        let result = (value << 1u8) | (if carry { 1 } else { 0 });
        self.set_rotate_flags(result, carry, set_zero);
        result
    }

    pub fn rrc(&mut self, value: u8, set_zero: bool) -> (r: u8)
        ensures
            (r, *final(self)) == spec_rrc(*old(self), value, set_zero),
    {
        let carry = (value & 0x01) != 0;
        let result = (value >> 1u8) | (if carry { 0x80 } else { 0 });
        self.set_rotate_flags(result, carry, set_zero);
        result
    }

    pub fn rl(&mut self, value: u8, set_zero: bool) -> (r: u8)
        ensures
            (r, *final(self)) == spec_rl(*old(self), value, set_zero),
    {
        let carry_in: u8 = if self.flag_c() { 1 } else { 0 };
        let carry = (value & 0x80) != 0;
        let result = (value << 1u8) | carry_in;
        self.set_rotate_flags(result, carry, set_zero);
        result
    }

    pub fn rr(&mut self, value: u8, set_zero: bool) -> (r: u8)
        ensures
            (r, *final(self)) == spec_rr(*old(self), value, set_zero),
    {
        let carry_in: u8 = if self.flag_c() { 0x80 } else { 0 };
        let carry = (value & 0x01) != 0;
        let result = (value >> 1u8) | carry_in;
        self.set_rotate_flags(result, carry, set_zero);
        result
    }

    pub fn sla(&mut self, value: u8) -> (r: u8)
        ensures
            (r, *final(self)) == spec_sla(*old(self), value),
    {
        let carry = (value & 0x80) != 0;
        let result = value << 1u8;
        self.set_rotate_flags(result, carry, true);
        result
    }

    pub fn sra(&mut self, value: u8) -> (r: u8)
        ensures
            (r, *final(self)) == spec_sra(*old(self), value),
    {
        let carry = (value & 0x01) != 0;
        let result = (value >> 1u8) | (value & 0x80);
        self.set_rotate_flags(result, carry, true);
        result
    }

    pub fn srl(&mut self, value: u8) -> (r: u8)
        ensures
            (r, *final(self)) == spec_srl(*old(self), value),
    {
        let carry = (value & 0x01) != 0;
        let result = value >> 1u8;
        self.set_rotate_flags(result, carry, true);
        result
    }

    pub fn swap(&mut self, value: u8) -> (r: u8)
        ensures
            (r, *final(self)) == spec_swap(*old(self), value),
    {
        let result = (value << 4u8) | (value >> 4u8);
        self.set_z(result == 0);
        self.set_n(false);
        self.set_h(false);
        self.set_c(false);
        result
    }

    fn set_rotate_flags(&mut self, result: u8, carry: bool, set_zero: bool)
        ensures
            final(self).f == rotate_flags(old(self).f, result, carry, set_zero),
            final(self).a == old(self).a,
            final(self).b == old(self).b,
            final(self).c == old(self).c,
            final(self).d == old(self).d,
            final(self).e == old(self).e,
            final(self).h == old(self).h,
            final(self).l == old(self).l,
    {
        self.set_z(set_zero && result == 0);
        self.set_n(false);
        self.set_h(false);
        self.set_c(carry);
    }

    /// The branch condition selected by `code`.
    pub fn condition(&self, code: u8) -> (r: bool)
        ensures
            r == spec_condition(*self, code),
    {
        let sel = code & 0x03;
        if sel == 0 {
            !self.flag_z()
        } else if sel == 1 {
            self.flag_z()
        } else if sel == 2 {
            !self.flag_c()
        } else {
            self.flag_c()
        }
    }

}

} // verus!
