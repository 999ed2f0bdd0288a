//! The eight 8-bit CPU registers, their 16-bit pairings and the four
//! condition flags held in the low register `f`.
//!
//! The flag register only ever holds its four defined bits: every write to
//! `f` re-masks with `0xF0`, so `f & 0x0F == 0` is an invariant of the type.

use vstd::prelude::*;

verus! {

/// Zero flag bit in `f`.
pub const FLAG_Z: u8 = 0x80;

/// Subtraction flag bit in `f`.
pub const FLAG_N: u8 = 0x40;

/// Half-carry flag bit in `f`.
pub const FLAG_H: u8 = 0x20;

/// Carry flag bit in `f`.
pub const FLAG_C: u8 = 0x10;

/// The CPU register file: A, B, C, D, E, H, L and the flag register F.
#[derive(Debug, Clone, Copy, PartialEq, Eq, Structural)]
pub struct Registers {
    pub a: u8,
    pub b: u8,
    pub c: u8,
    pub d: u8,
    pub e: u8,
    pub h: u8,
    pub l: u8,
    pub f: u8,
}

/// The flag register never holds anything in its low nibble.
pub open spec fn regs_wf(r: Registers) -> bool {
    r.f & 0x0F == 0
}

/// The AF pair: A is the high byte, F (masked) the low byte.
pub open spec fn spec_af(r: Registers) -> u16 {
    (((r.a as u16) << 8) | ((r.f & 0xF0) as u16)) as u16
}

/// The BC pair: B high, C low.
pub open spec fn spec_bc(r: Registers) -> u16 {
    (((r.b as u16) << 8) | (r.c as u16)) as u16
}

/// The DE pair: D high, E low.
pub open spec fn spec_de(r: Registers) -> u16 {
    (((r.d as u16) << 8) | (r.e as u16)) as u16
}

/// The HL pair: H high, L low.
pub open spec fn spec_hl(r: Registers) -> u16 {
    (((r.h as u16) << 8) | (r.l as u16)) as u16
}

/// The register file after a 16-bit write to AF; the low nibble of the
/// incoming F byte is discarded.
pub open spec fn with_af(r: Registers, value: u16) -> Registers {
    Registers { a: (value >> 8) as u8, f: ((value as u8) & 0xF0) as u8, ..r }
}

/// The register file after a 16-bit write to BC.
pub open spec fn with_bc(r: Registers, value: u16) -> Registers {
    Registers { b: (value >> 8) as u8, c: value as u8, ..r }
}

/// The register file after a 16-bit write to DE.
pub open spec fn with_de(r: Registers, value: u16) -> Registers {
    Registers { d: (value >> 8) as u8, e: value as u8, ..r }
}

/// The register file after a 16-bit write to HL.
pub open spec fn with_hl(r: Registers, value: u16) -> Registers {
    Registers { h: (value >> 8) as u8, l: value as u8, ..r }
}

/// The flag byte after setting or clearing one flag bit; the result is
/// re-masked so the low nibble stays clear.
pub open spec fn spec_set_flag(f: u8, mask: u8, value: bool) -> u8 {
    if value {
        ((f | mask) & 0xF0) as u8
    } else {
        ((f & !mask) & 0xF0) as u8
    }
}

/// Whether the Z flag is set.
pub open spec fn spec_z(r: Registers) -> bool {
    r.f & FLAG_Z != 0
}

/// Whether the N flag is set.
pub open spec fn spec_n(r: Registers) -> bool {
    r.f & FLAG_N != 0
}

/// Whether the H flag is set.
pub open spec fn spec_h(r: Registers) -> bool {
    r.f & FLAG_H != 0
}

/// Whether the C flag is set.
pub open spec fn spec_c(r: Registers) -> bool {
    r.f & FLAG_C != 0
}

impl Default for Registers {
    /// All registers start at zero.
    fn default() -> (r: Registers)
        ensures
            r == (Registers { a: 0u8, b: 0u8, c: 0u8, d: 0u8, e: 0u8, h: 0u8, l: 0u8, f: 0u8 }),
    {
        Registers { a: 0, b: 0, c: 0, d: 0, e: 0, h: 0, l: 0, f: 0 }
    }
}

impl Registers {
    pub fn af(&self) -> (r: u16)
        ensures
            r == spec_af(*self),
    {
        ((self.a as u16) << 8) | (((self.f & 0xF0) as u16))
    }

    pub fn set_af(&mut self, value: u16)
        ensures
            *final(self) == with_af(*old(self), value),
    {
        self.a = (value >> 8) as u8;
        self.f = (value as u8) & 0xF0;
    }

    pub fn bc(&self) -> (r: u16)
        ensures
            r == spec_bc(*self),
    {
        ((self.b as u16) << 8) | (self.c as u16)
    }

    pub fn set_bc(&mut self, value: u16)
        ensures
            *final(self) == with_bc(*old(self), value),
    {
        self.b = (value >> 8) as u8;
        self.c = value as u8;
    }

    pub fn de(&self) -> (r: u16)
        ensures
            r == spec_de(*self),
    {
        ((self.d as u16) << 8) | (self.e as u16)
    }

    pub fn set_de(&mut self, value: u16)
        ensures
            *final(self) == with_de(*old(self), value),
    {
        self.d = (value >> 8) as u8;
        self.e = value as u8;
    }

    pub fn hl(&self) -> (r: u16)
        ensures
            r == spec_hl(*self),
    {
        ((self.h as u16) << 8) | (self.l as u16)
    }

    pub fn set_hl(&mut self, value: u16)
        ensures
            *final(self) == with_hl(*old(self), value),
    {
        self.h = (value >> 8) as u8;
        self.l = value as u8;
    }

    pub fn flag_z(&self) -> (r: bool)
        ensures
            r == spec_z(*self),
    {
        self.f & FLAG_Z != 0
    }

    pub fn flag_n(&self) -> (r: bool)
        ensures
            r == spec_n(*self),
    {
        self.f & FLAG_N != 0
    }

    pub fn flag_h(&self) -> (r: bool)
        ensures
            r == spec_h(*self),
    {
        self.f & FLAG_H != 0
    }

    pub fn flag_c(&self) -> (r: bool)
        ensures
            r == spec_c(*self),
    {
        self.f & FLAG_C != 0
    }

    pub fn set_z(&mut self, value: bool)
        ensures
            final(self).f == spec_set_flag(old(self).f, FLAG_Z, value),
            final(self).a == old(self).a,
            final(self).b == old(self).b,
            final(self).c == old(self).c,
            final(self).d == old(self).d,
            final(self).e == old(self).e,
            final(self).h == old(self).h,
            final(self).l == old(self).l,
    {
        self.set_flag(FLAG_Z, value);
    }

    pub fn set_n(&mut self, value: bool)
        ensures
            final(self).f == spec_set_flag(old(self).f, FLAG_N, value),
            final(self).a == old(self).a,
            final(self).b == old(self).b,
            final(self).c == old(self).c,
            final(self).d == old(self).d,
            final(self).e == old(self).e,
            final(self).h == old(self).h,
            final(self).l == old(self).l,
    {
        self.set_flag(FLAG_N, value);
    }

    pub fn set_h(&mut self, value: bool)
        ensures
            final(self).f == spec_set_flag(old(self).f, FLAG_H, value),
            final(self).a == old(self).a,
            final(self).b == old(self).b,
            final(self).c == old(self).c,
            final(self).d == old(self).d,
            final(self).e == old(self).e,
            final(self).h == old(self).h,
            final(self).l == old(self).l,
    {
        self.set_flag(FLAG_H, value);
    }

    pub fn set_c(&mut self, value: bool)
        ensures
            final(self).f == spec_set_flag(old(self).f, FLAG_C, value),
            final(self).a == old(self).a,
            final(self).b == old(self).b,
            final(self).c == old(self).c,
            final(self).d == old(self).d,
            final(self).e == old(self).e,
            final(self).h == old(self).h,
            final(self).l == old(self).l,
    {
        self.set_flag(FLAG_C, value);
    }

    fn set_flag(&mut self, mask: u8, value: bool)
        ensures
            final(self).f == spec_set_flag(old(self).f, mask, value),
            final(self).a == old(self).a,
            final(self).b == old(self).b,
            final(self).c == old(self).c,
            final(self).d == old(self).d,
            final(self).e == old(self).e,
            final(self).h == old(self).h,
            final(self).l == old(self).l,
    {
        if value {
            self.f |= mask;
        } else {
            self.f &= !mask;
        }
        self.f &= 0xF0;
    }
}

/// The bit-level facts behind the flag-register invariant: any byte
/// masked with `0xF0` has a clear low nibble, so every masked flag write
/// (and the zero byte itself) is well formed.
pub proof fn lemma_flag_nibble_facts()
    by (bit_vector)
    ensures
        forall|x: u8| #[trigger] ((x & 0xF0) & 0x0F) == 0u8,
        0u8 & 0x0F == 0u8,
{
}

} // verus!
