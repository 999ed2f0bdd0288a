//! The CPU proper: program counter, stack pointer, interrupt-master
//! state, HALT/STOP state, and the fetch, stack and interrupt-dispatch
//! machinery. Instruction execution lives in [`crate::exec`].

use vstd::prelude::*;

use crate::bus::{
    bus_wf, spec_bus_read, spec_bus_write, spec_pending, Bus, BusModel, INTERRUPT_JOYPAD,
    INTERRUPT_LCD, INTERRUPT_SERIAL, INTERRUPT_TIMER, INTERRUPT_VBLANK,
};
use crate::regs::{regs_wf, Registers};

verus! {

/// The one core-level failure: an undefined base opcode was fetched.
#[derive(Debug, Clone, Copy, PartialEq, Eq, Structural)]
pub enum EmuError {
    IllegalOpcode(u8),
}

/// CPU state. `ime_delay` is the EI latency countdown; `halt_bug` makes
/// the next fetch read without advancing PC.
#[derive(Debug, Clone, Copy, PartialEq, Eq, Structural)]
pub struct Cpu {
    pub regs: Registers,
    pub pc: u16,
    pub sp: u16,
    pub ime: bool,
    pub halted: bool,
    pub stopped: bool,
    pub ime_delay: u8,
    pub halt_bug: bool,
}

/// The display message of an emulator error.
pub open spec fn spec_emu_error_message(e: EmuError) -> Seq<char> {
    match e {
        EmuError::IllegalOpcode(opcode) => "illegal opcode 0x"@ + crate::text::spec_hex2(opcode),
    }
}

impl EmuError {
    /// The error rendered for display.
    pub fn message(&self) -> (r: String)
        ensures
            r@ == spec_emu_error_message(*self),
    {
        match self {
            EmuError::IllegalOpcode(opcode) => {
                let mut s = String::new();
                s.append("illegal opcode 0x");
                let hex = crate::text::fmt_hex2(*opcode);
                s.append(hex.as_str());
                s
            },
        }
    }
}

/// A well-formed CPU: the flag register's low nibble is clear, the EI
/// countdown never exceeds two, and HALT and STOP are never simultaneous.
pub open spec fn cpu_wf(c: Cpu) -> bool {
    &&& regs_wf(c.regs)
    &&& c.ime_delay <= 2
    &&& !(c.halted && c.stopped)
}

/// The reset state: everything zero but for SP at 0xFFFE.
pub open spec fn cpu_init() -> Cpu {
    Cpu {
        regs: Registers { a: 0u8, b: 0u8, c: 0u8, d: 0u8, e: 0u8, h: 0u8, l: 0u8, f: 0u8 },
        pc: 0u16,
        sp: 0xFFFEu16,
        ime: false,
        halted: false,
        stopped: false,
        ime_delay: 0u8,
        halt_bug: false,
    }
}

/// One opcode/operand fetch: normally the byte at PC with PC advancing;
/// under the HALT bug the byte is read but PC stays put and the bug flag
/// clears.
pub open spec fn spec_fetch_byte(c: Cpu, b: BusModel) -> (Cpu, u8) {
    if c.halt_bug {
        (Cpu { halt_bug: false, ..c }, spec_bus_read(b, c.pc))
    } else {
        (
            Cpu { pc: vstd::wrapping::u16_specs::wrapping_add(c.pc, 1), ..c },
            spec_bus_read(b, c.pc),
        )
    }
}

/// A little-endian immediate word: low byte fetched first.
pub open spec fn spec_fetch_word(c: Cpu, b: BusModel) -> (Cpu, u16) {
    let first = spec_fetch_byte(c, b);
    let second = spec_fetch_byte(first.0, b);
    (second.0, (((second.1 as u16) << 8) | (first.1 as u16)) as u16)
}

/// A stack push: SP decrements before each byte, high byte first.
pub open spec fn spec_push_word(c: Cpu, b: BusModel, value: u16) -> (Cpu, BusModel) {
    let sp_hi = vstd::wrapping::u16_specs::wrapping_sub(c.sp, 1);
    let b_hi = spec_bus_write(b, sp_hi, (value >> 8) as u8);
    let sp_lo = vstd::wrapping::u16_specs::wrapping_sub(sp_hi, 1);
    let b_lo = spec_bus_write(b_hi, sp_lo, value as u8);
    (Cpu { sp: sp_lo, ..c }, b_lo)
}

/// A stack pop: low byte read first, SP increments after each byte.
pub open spec fn spec_pop_word(c: Cpu, b: BusModel) -> (Cpu, u16) {
    let lo = spec_bus_read(b, c.sp);
    let sp_mid = vstd::wrapping::u16_specs::wrapping_add(c.sp, 1);
    let hi = spec_bus_read(b, sp_mid);
    (
        Cpu { sp: vstd::wrapping::u16_specs::wrapping_add(sp_mid, 1), ..c },
        (((hi as u16) << 8) | (lo as u16)) as u16,
    )
}

/// The 8-bit operand selected by a three-bit register index:
/// B,C,D,E,H,L,(HL),A, with index 6 reading memory at HL.
pub open spec fn spec_read_r8(c: Cpu, b: BusModel, index: u8) -> u8 {
    let sel = index & 0x07;
    if sel == 0 {
        c.regs.b
    } else if sel == 1 {
        c.regs.c
    } else if sel == 2 {
        c.regs.d
    } else if sel == 3 {
        c.regs.e
    } else if sel == 4 {
        c.regs.h
    } else if sel == 5 {
        c.regs.l
    } else if sel == 6 {
        spec_bus_read(b, crate::regs::spec_hl(c.regs))
    } else {
        c.regs.a
    }
}

/// Writing the 8-bit operand selected by a three-bit register index, with
/// index 6 writing memory at HL.
pub open spec fn spec_write_r8(c: Cpu, b: BusModel, index: u8, value: u8) -> (Cpu, BusModel) {
    let sel = index & 0x07;
    if sel == 0 {
        (Cpu { regs: Registers { b: value, ..c.regs }, ..c }, b)
    } else if sel == 1 {
        (Cpu { regs: Registers { c: value, ..c.regs }, ..c }, b)
    } else if sel == 2 {
        (Cpu { regs: Registers { d: value, ..c.regs }, ..c }, b)
    } else if sel == 3 {
        (Cpu { regs: Registers { e: value, ..c.regs }, ..c }, b)
    } else if sel == 4 {
        (Cpu { regs: Registers { h: value, ..c.regs }, ..c }, b)
    } else if sel == 5 {
        (Cpu { regs: Registers { l: value, ..c.regs }, ..c }, b)
    } else if sel == 6 {
        (c, spec_bus_write(b, crate::regs::spec_hl(c.regs), value))
    } else {
        (Cpu { regs: Registers { a: value, ..c.regs }, ..c }, b)
    }
}

/// The highest-priority pending interrupt: its mask bit and its vector,
/// VBlank first, Joypad last.
pub open spec fn spec_interrupt_vector(pending: u8) -> (u8, u16) {
    if pending & INTERRUPT_VBLANK != 0 {
        (INTERRUPT_VBLANK, 0x40u16)
    } else if pending & INTERRUPT_LCD != 0 {
        (INTERRUPT_LCD, 0x48u16)
    } else if pending & INTERRUPT_TIMER != 0 {
        (INTERRUPT_TIMER, 0x50u16)
    } else if pending & INTERRUPT_SERIAL != 0 {
        (INTERRUPT_SERIAL, 0x58u16)
    } else {
        (INTERRUPT_JOYPAD, 0x60u16)
    }
}

/// The EI latency countdown after a normally retired instruction: a
/// nonzero countdown decrements, and IME turns on as it reaches zero.
pub open spec fn spec_advance_ime_delay(c: Cpu) -> Cpu {
    if c.ime_delay > 0 {
        let next = (c.ime_delay - 1) as u8;
        Cpu { ime_delay: next, ime: if next == 0 { true } else { c.ime }, ..c }
    } else {
        c
    }
}

/// Interrupt dispatch. IME, the EI countdown, HALT and STOP all clear;
/// the high byte of PC is pushed; the pending set is then re-read, so a
/// push that lands on IE can cancel the dispatch (PC goes to 0x0000 and
/// no IF bit clears) or retarget it; otherwise the low byte is pushed,
/// the chosen IF bit clears and PC takes the vector.
pub open spec fn spec_service_interrupt(c: Cpu, b: BusModel) -> (Cpu, BusModel) {
    let entered = Cpu { ime: false, ime_delay: 0u8, halted: false, stopped: false, ..c };
    let pc_lo = c.pc as u8;
    let pc_hi = (c.pc >> 8) as u8;
    let sp_hi = vstd::wrapping::u16_specs::wrapping_sub(entered.sp, 1);
    let b_hi = spec_bus_write(b, sp_hi, pc_hi);
    let pending_after_hi = spec_pending(b_hi);
    if pending_after_hi == 0 {
        let sp_lo = vstd::wrapping::u16_specs::wrapping_sub(sp_hi, 1);
        let b_lo = spec_bus_write(b_hi, sp_lo, pc_lo);
        (Cpu { sp: sp_lo, pc: 0u16, ..entered }, b_lo)
    } else {
        let choice = spec_interrupt_vector(pending_after_hi);
        let sp_lo = vstd::wrapping::u16_specs::wrapping_sub(sp_hi, 1);
        let b_lo = spec_bus_write(b_hi, sp_lo, pc_lo);
        let b_cleared = BusModel { iflags: (b_lo.iflags & !(choice.0 & 0x1F)) as u8, ..b_lo };
        (Cpu { sp: sp_lo, pc: choice.1, ..entered }, b_cleared)
    }
}

/// One step of the machine: a stopped or halted CPU idles four cycles
/// until an interrupt is pending; an enabled pending interrupt dispatches
/// for twenty cycles; otherwise one instruction is fetched and executed,
/// the bus then ticks by its cost and the EI countdown advances. The EI
/// countdown does not advance after idling or dispatch, and on an illegal
/// opcode nothing changes beyond the fetch and no time passes.
pub open spec fn spec_step(c: Cpu, b: BusModel) -> (Cpu, BusModel, Result<u32, EmuError>) {
    if c.stopped && spec_pending(b) == 0 {
        (c, crate::bus::spec_bus_tick(b, 4), Ok(4u32))
    } else {
        let c0 = if c.stopped {
            Cpu { stopped: false, ..c }
        } else {
            c
        };
        let pending = spec_pending(b);
        if c0.ime && pending != 0 {
            let sv = spec_service_interrupt(c0, b);
            (sv.0, crate::bus::spec_bus_tick(sv.1, 20), Ok(20u32))
        } else if c0.halted && pending == 0 {
            (c0, crate::bus::spec_bus_tick(b, 4), Ok(4u32))
        } else {
            let c1 = if c0.halted {
                Cpu { halted: false, ..c0 }
            } else {
                c0
            };
            let fetched = spec_fetch_byte(c1, b);
            let ex = crate::exec::spec_exec_base(fetched.0, b, fetched.1);
            match ex.2 {
                Result::Ok(cycles) => (
                    spec_advance_ime_delay(ex.0),
                    crate::bus::spec_bus_tick(ex.1, cycles as nat),
                    Ok(cycles),
                ),
                Result::Err(e) => (ex.0, ex.1, Err(e)),
            }
        }
    }
}

impl Default for Cpu {
    /// The reset state: everything zero but for SP at 0xFFFE.
    fn default() -> (r: Cpu)
        ensures
            r == cpu_init(),
            cpu_wf(r),
    {
        proof {
            crate::regs::lemma_flag_nibble_facts();
        }
        Cpu {
            regs: Registers { a: 0, b: 0, c: 0, d: 0, e: 0, h: 0, l: 0, f: 0 },
            pc: 0x0000,
            sp: 0xFFFE,
            ime: false,
            halted: false,
            stopped: false,
            ime_delay: 0,
            halt_bug: false,
        }
    }
}

impl Cpu {
    pub(crate) fn fetch_byte(&mut self, bus: &Bus) -> (r: u8)
        requires
            bus_wf(bus@),
        ensures
            (*final(self), r) == spec_fetch_byte(*old(self), bus@),
    {
        if self.halt_bug {
            self.halt_bug = false;
            bus.read_byte(self.pc)
        } else {
            let byte = bus.read_byte(self.pc);
            self.pc = self.pc.wrapping_add(1);
            byte
        }
    }

    pub(crate) fn fetch_word(&mut self, bus: &Bus) -> (r: u16)
        requires
            bus_wf(bus@),
        ensures
            (*final(self), r) == spec_fetch_word(*old(self), bus@),
    {
        let lo = self.fetch_byte(bus);
        let hi = self.fetch_byte(bus);
        ((hi as u16) << 8) | (lo as u16)
    }

    pub(crate) fn push_word(&mut self, bus: &mut Bus, value: u16)
        requires
            bus_wf(old(bus)@),
        ensures
            bus_wf(final(bus)@),
            (*final(self), final(bus)@) == spec_push_word(*old(self), old(bus)@, value),
    {
        self.sp = self.sp.wrapping_sub(1);
        bus.write_byte(self.sp, (value >> 8) as u8);
        self.sp = self.sp.wrapping_sub(1);
        bus.write_byte(self.sp, value as u8);
    }

    pub(crate) fn pop_word(&mut self, bus: &Bus) -> (r: u16)
        requires
            bus_wf(bus@),
        ensures
            (*final(self), r) == spec_pop_word(*old(self), bus@),
    {
        let lo = bus.read_byte(self.sp);
        self.sp = self.sp.wrapping_add(1);
        let hi = bus.read_byte(self.sp);
        self.sp = self.sp.wrapping_add(1);
        ((hi as u16) << 8) | (lo as u16)
    }

    pub(crate) fn read_r8(&self, bus: &Bus, index: u8) -> (r: u8)
        requires
            bus_wf(bus@),
        ensures
            r == spec_read_r8(*self, bus@, index),
    {
        let sel = index & 0x07;
        if sel == 0 {
            self.regs.b
        } else if sel == 1 {
            self.regs.c
        } else if sel == 2 {
            self.regs.d
        } else if sel == 3 {
            self.regs.e
        } else if sel == 4 {
            self.regs.h
        } else if sel == 5 {
            self.regs.l
        } else if sel == 6 {
            bus.read_byte(self.regs.hl())
        } else {
            self.regs.a
        }
    }

    pub(crate) fn write_r8(&mut self, bus: &mut Bus, index: u8, value: u8)
        requires
            bus_wf(old(bus)@),
        ensures
            bus_wf(final(bus)@),
            (*final(self), final(bus)@) == spec_write_r8(*old(self), old(bus)@, index, value),
    {
        let sel = index & 0x07;
        if sel == 0 {
            self.regs.b = value;
        } else if sel == 1 {
            self.regs.c = value;
        } else if sel == 2 {
            self.regs.d = value;
        } else if sel == 3 {
            self.regs.e = value;
        } else if sel == 4 {
            self.regs.h = value;
        } else if sel == 5 {
            self.regs.l = value;
        } else if sel == 6 {
            let address = self.regs.hl();
            bus.write_byte(address, value);
        } else {
            self.regs.a = value;
        }
    }

    /// Add a signed 8-bit displacement to a 16-bit value, wrapping.
    pub(crate) fn add_signed_u16(base: u16, offset: u8) -> (r: u16)
        ensures
            r == crate::alu::spec_add_signed_u16(base, offset),
    {
        base.wrapping_add(offset as i8 as i16 as u16)
    }

    /// The SP-relative sum and its H and C flags.
    pub(crate) fn add_sp_offset(sp: u16, offset: u8) -> (r: (u16, bool, bool))
        ensures
            r == crate::alu::spec_add_sp_offset(sp, offset),
    {
        let signed = offset as i8 as i16 as u16;
        let result = sp.wrapping_add(signed);
        let half_carry = ((sp ^ signed ^ result) & 0x0010) != 0;
        let carry = ((sp ^ signed ^ result) & 0x0100) != 0;
        (result, half_carry, carry)
    }

    fn interrupt_vector(pending: u8) -> (r: (u8, u16))
        ensures
            r == spec_interrupt_vector(pending),
    {
        if pending & INTERRUPT_VBLANK != 0 {
            (INTERRUPT_VBLANK, 0x40)
        } else if pending & INTERRUPT_LCD != 0 {
            (INTERRUPT_LCD, 0x48)
        } else if pending & INTERRUPT_TIMER != 0 {
            (INTERRUPT_TIMER, 0x50)
        } else if pending & INTERRUPT_SERIAL != 0 {
            (INTERRUPT_SERIAL, 0x58)
        } else {
            (INTERRUPT_JOYPAD, 0x60)
        }
    }

    pub(crate) fn advance_ime_delay(&mut self)
        ensures
            *final(self) == spec_advance_ime_delay(*old(self)),
    {
        if self.ime_delay > 0 {
            self.ime_delay = self.ime_delay - 1;
            if self.ime_delay == 0 {
                self.ime = true;
            }
        }
    }

    pub(crate) fn service_interrupt(&mut self, bus: &mut Bus) -> (cycles: u32)
        requires
            bus_wf(old(bus)@),
            cpu_wf(*old(self)),
        ensures
            bus_wf(final(bus)@),
            cpu_wf(*final(self)),
            (*final(self), final(bus)@) == spec_service_interrupt(*old(self), old(bus)@),
            cycles == 20,
    {
        self.ime = false;
        self.ime_delay = 0;
        self.halted = false;
        self.stopped = false;

        let pc_lo = self.pc as u8;
        let pc_hi = (self.pc >> 8) as u8;

        self.sp = self.sp.wrapping_sub(1);
        bus.write_byte(self.sp, pc_hi);

        let pending_after_hi = bus.pending_interrupts();
        if pending_after_hi == 0 {
            self.sp = self.sp.wrapping_sub(1);
            bus.write_byte(self.sp, pc_lo);
            self.pc = 0x0000;
            return 20;
        }

        let (mask, vector) = Self::interrupt_vector(pending_after_hi);

        self.sp = self.sp.wrapping_sub(1);
        bus.write_byte(self.sp, pc_lo);

        bus.clear_interrupt(mask);
        self.pc = vector;
        20
    }

    /// Run the machine for one step over the given bus; the result is the
    /// cycle cost, or the illegal opcode that was fetched.
    pub fn step(&mut self, bus: &mut Bus) -> (r: Result<u32, EmuError>)
        requires
            bus_wf(old(bus)@),
            cpu_wf(*old(self)),
        ensures
            bus_wf(final(bus)@),
            cpu_wf(*final(self)),
            ({
                let t = spec_step(*old(self), old(bus)@);
                *final(self) == t.0 && final(bus)@ == t.1 && r == t.2
            }),
            r is Ok ==> r.unwrap() <= 24,
    {
        if self.stopped {
            if bus.pending_interrupts() != 0 {
                self.stopped = false;
            } else {
                bus.tick(4);
                return Ok(4);
            }
        }

        let pending = bus.pending_interrupts();
        if self.ime && pending != 0 {
            let cycles = self.service_interrupt(bus);
            bus.tick(cycles);
            return Ok(cycles);
        }

        if self.halted {
            if pending != 0 {
                self.halted = false;
            } else {
                bus.tick(4);
                return Ok(4);
            }
        }

        let opcode = self.fetch_byte(bus);
        match self.execute_base(opcode, bus) {
            Result::Ok(cycles) => {
                bus.tick(cycles);
                self.advance_ime_delay();
                Ok(cycles)
            },
            Result::Err(e) => Err(e),
        }
    }
}

} // verus!
