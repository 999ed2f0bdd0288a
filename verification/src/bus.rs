//! The memory bus: a flat 64 KiB byte array overlaid with memory-mapped
//! I/O for the timer, the interrupt-flag and interrupt-enable registers,
//! and the serial port, whose outgoing bytes are captured in a buffer.
//!
//! The bus is specified through [`BusModel`], its mathematical view: the
//! memory as a sequence of bytes, the timer state, the two interrupt
//! registers and the captured serial bytes.

use vstd::prelude::*;

use crate::timer::{
    spec_tac_read, spec_tick_n, spec_write_div, spec_write_tac, spec_write_tima, Timer,
};

verus! {

/// Address of the DIV register.
pub const DIV_ADDR: u16 = 0xFF04;

/// Address of the TIMA register.
pub const TIMA_ADDR: u16 = 0xFF05;

/// Address of the TMA register.
pub const TMA_ADDR: u16 = 0xFF06;

/// Address of the TAC register.
pub const TAC_ADDR: u16 = 0xFF07;

/// Address of the interrupt-flag register.
pub const IF_ADDR: u16 = 0xFF0F;

/// Address of the interrupt-enable register.
pub const IE_ADDR: u16 = 0xFFFF;

/// Address of the serial data register.
pub const SB_ADDR: u16 = 0xFF01;

/// Address of the serial control register.
pub const SC_ADDR: u16 = 0xFF02;

/// VBlank interrupt bit.
pub const INTERRUPT_VBLANK: u8 = 0x01;

/// LCD interrupt bit.
pub const INTERRUPT_LCD: u8 = 0x02;

/// Timer interrupt bit.
pub const INTERRUPT_TIMER: u8 = 0x04;

/// Serial interrupt bit.
pub const INTERRUPT_SERIAL: u8 = 0x08;

/// Joypad interrupt bit.
pub const INTERRUPT_JOYPAD: u8 = 0x10;

/// The bus: memory, timer, interrupt registers and the serial capture
/// buffer.
#[derive(Debug, Clone)]
pub struct Bus {
    memory: Vec<u8>,
    timer: Timer,
    interrupt_enable: u8,
    interrupt_flags: u8,
    serial_output: Vec<u8>,
}

/// The mathematical view of a [`Bus`].
#[verifier::ext_equal]
pub struct BusModel {
    /// The 64 KiB backing memory.
    pub mem: Seq<u8>,
    /// The timer state.
    pub timer: Timer,
    /// The interrupt-enable register (5 low bits meaningful).
    pub ie: u8,
    /// The interrupt-flag register (5 low bits meaningful).
    pub iflags: u8,
    /// Every byte captured from the serial port, oldest first.
    pub serial: Seq<u8>,
}

impl View for Bus {
    type V = BusModel;

    closed spec fn view(&self) -> BusModel {
        BusModel {
            mem: self.memory@,
            timer: self.timer,
            ie: self.interrupt_enable,
            iflags: self.interrupt_flags,
            serial: self.serial_output@,
        }
    }
}

/// A well-formed bus holds exactly 64 KiB of backing memory.
pub open spec fn bus_wf(b: BusModel) -> bool {
    b.mem.len() == 0x10000
}

/// The set of interrupts both requested and enabled.
pub open spec fn spec_pending(b: BusModel) -> u8 {
    (b.ie & b.iflags & 0x1F) as u8
}

/// What a byte read returns at each address: the timer and interrupt
/// registers are overlaid on the flat memory, with their documented read
/// masks.
pub open spec fn spec_bus_read(b: BusModel, address: u16) -> u8 {
    if address == DIV_ADDR {
        (b.timer.divider >> 8) as u8
    } else if address == TIMA_ADDR {
        b.timer.tima
    } else if address == TMA_ADDR {
        b.timer.tma
    } else if address == TAC_ADDR {
        spec_tac_read(b.timer)
    } else if address == IF_ADDR {
        (0xE0u8 | (b.iflags & 0x1F)) as u8
    } else if address == IE_ADDR {
        (b.ie & 0x1F) as u8
    } else {
        b.mem[address as int]
    }
}

/// The bus after a byte write: timer registers go through their edge
/// logic, IF/IE writes keep five bits, and a serial-control write with the
/// start+internal-clock bits set captures the SB byte and clears the
/// transfer bit.
pub open spec fn spec_bus_write(b: BusModel, address: u16, value: u8) -> BusModel {
    if address == DIV_ADDR {
        BusModel { timer: spec_write_div(b.timer), ..b }
    } else if address == TIMA_ADDR {
        BusModel { timer: spec_write_tima(b.timer, value), ..b }
    } else if address == TMA_ADDR {
        BusModel { timer: Timer { tma: value, ..b.timer }, ..b }
    } else if address == TAC_ADDR {
        BusModel { timer: spec_write_tac(b.timer, value), ..b }
    } else if address == IF_ADDR {
        BusModel { iflags: (value & 0x1F) as u8, ..b }
    } else if address == IE_ADDR {
        BusModel { ie: (value & 0x1F) as u8, ..b }
    } else if address == SB_ADDR {
        BusModel { mem: b.mem.update(SB_ADDR as int, value), ..b }
    } else if address == SC_ADDR {
        let stored = b.mem.update(SC_ADDR as int, value);
        if value & 0x81 == 0x81 {
            BusModel {
                mem: stored.update(SC_ADDR as int, (value & !0x80) as u8),
                serial: b.serial.push(b.mem[SB_ADDR as int]),
                ..b
            }
        } else {
            BusModel { mem: stored, ..b }
        }
    } else {
        BusModel { mem: b.mem.update(address as int, value), ..b }
    }
}

/// A little-endian word read: low byte at `address`, high byte at
/// `address + 1` (wrapping).
pub open spec fn spec_bus_read_word(b: BusModel, address: u16) -> u16 {
    let lo = spec_bus_read(b, address);
    let hi = spec_bus_read(b, vstd::wrapping::u16_specs::wrapping_add(address, 1));
    (((hi as u16) << 8) | (lo as u16)) as u16
}

/// A little-endian word write: low byte first, then the high byte at the
/// next (wrapping) address.
pub open spec fn spec_bus_write_word(b: BusModel, address: u16, value: u16) -> BusModel {
    let after_lo = spec_bus_write(b, address, value as u8);
    spec_bus_write(after_lo, vstd::wrapping::u16_specs::wrapping_add(address, 1), (value >> 8) as u8)
}

/// The bus after ticking `n` machine cycles: the timer advances and may
/// raise the timer interrupt bit; nothing else changes.
pub open spec fn spec_bus_tick(b: BusModel, n: nat) -> BusModel {
    let advanced = spec_tick_n(b.timer, b.iflags, n);
    BusModel { timer: advanced.0, iflags: advanced.1, ..b }
}

/// The memory after loading `data` at `start`, truncated at the 64 KiB
/// boundary.
pub open spec fn spec_load_bytes(mem: Seq<u8>, start: u16, data: Seq<u8>) -> Seq<u8> {
    let count = if data.len() <= 0x10000 - start {
        data.len() as int
    } else {
        0x10000 - start
    };
    Seq::new(mem.len(), |i: int| if start <= i < start + count {
        data[i - start]
    } else {
        mem[i]
    })
}

/// The bus's initial state: zeroed memory, a fresh timer, no interrupts
/// requested or enabled, and an empty serial buffer.
pub open spec fn bus_init() -> BusModel {
    BusModel {
        mem: Seq::new(0x10000, |i: int| 0u8),
        timer: crate::timer::timer_init(),
        ie: 0u8,
        iflags: 0u8,
        serial: Seq::<u8>::empty(),
    }
}

impl Default for Bus {
    /// A bus in its initial state.
    fn default() -> (r: Bus)
        ensures
            bus_wf(r@),
            r@ == bus_init(),
    {
        let memory = vec![0u8; 0x10000];
        proof {
            assert(memory@ =~= Seq::new(0x10000, |i: int| 0u8));
        }
        Bus {
            memory,
            timer: Timer::default(),
            interrupt_enable: 0,
            interrupt_flags: 0,
            serial_output: Vec::new(),
        }
    }
}

impl Bus {
    /// Read one byte, applying the memory-mapped register overlays.
    pub fn read_byte(&self, address: u16) -> (r: u8)
        requires
            bus_wf(self@),
        ensures
            r == spec_bus_read(self@, address),
    {
        if address == DIV_ADDR {
            self.timer.div()
        } else if address == TIMA_ADDR {
            self.timer.tima
        } else if address == TMA_ADDR {
            self.timer.tma
        } else if address == TAC_ADDR {
            self.timer.tac_read()
        } else if address == IF_ADDR {
            0xE0 | (self.interrupt_flags & 0x1F)
        } else if address == IE_ADDR {
            self.interrupt_enable & 0x1F
        } else {
            self.memory[address as usize]
        }
    }

    /// Write one byte, applying the memory-mapped register overlays.
    pub fn write_byte(&mut self, address: u16, value: u8)
        requires
            bus_wf(old(self)@),
        ensures
            bus_wf(final(self)@),
            final(self)@ == spec_bus_write(old(self)@, address, value),
    {
        if address == DIV_ADDR {
            self.timer.write_div();
        } else if address == TIMA_ADDR {
            self.timer.write_tima(value);
        } else if address == TMA_ADDR {
            self.timer.write_tma(value);
        } else if address == TAC_ADDR {
            self.timer.write_tac(value);
        } else if address == IF_ADDR {
            self.interrupt_flags = value & 0x1F;
        } else if address == IE_ADDR {
            self.interrupt_enable = value & 0x1F;
        } else if address == SB_ADDR {
            self.memory[SB_ADDR as usize] = value;
        } else if address == SC_ADDR {
            self.memory[SC_ADDR as usize] = value;
            if value & 0x81 == 0x81 {
                self.serial_output.push(self.memory[SB_ADDR as usize]);
                self.memory[SC_ADDR as usize] = value & !0x80;
            }
        } else {
            self.memory[address as usize] = value;
        }
        proof {
            assert(final(self)@ =~= spec_bus_write(old(self)@, address, value));
        }
    }

    /// Read a little-endian word over two byte reads.
    pub fn read_word(&self, address: u16) -> (r: u16)
        requires
            bus_wf(self@),
        ensures
            r == spec_bus_read_word(self@, address),
    {
        let lo = self.read_byte(address);
        let hi = self.read_byte(address.wrapping_add(1));
        ((hi as u16) << 8) | (lo as u16)
    }

    /// Write a little-endian word over two byte writes.
    pub fn write_word(&mut self, address: u16, value: u16)
        requires
            bus_wf(old(self)@),
        ensures
            bus_wf(final(self)@),
            final(self)@ == spec_bus_write_word(old(self)@, address, value),
    {
        self.write_byte(address, value as u8);
        self.write_byte(address.wrapping_add(1), (value >> 8) as u8);
    }

    /// Copy `data` into memory starting at `start`, truncating at the end
    /// of the address space. The bytes land in backing memory directly,
    /// without the register overlays.
    pub fn load_bytes(&mut self, start: u16, data: &[u8])
        requires
            bus_wf(old(self)@),
        ensures
            bus_wf(final(self)@),
            final(self)@ == (BusModel {
                mem: spec_load_bytes(old(self)@.mem, start, data@),
                ..old(self)@
            }),
    {
        let start_usize = start as usize;
        let room = 0x10000 - start_usize;
        let max = if data.len() <= room {
            data.len()
        } else {
            room
        };
        let mut j: usize = 0;
        while j < max
            invariant
                max <= data.len(),
                start_usize == start as int,
                start_usize + max <= 0x10000,
                j <= max,
                self.memory@.len() == 0x10000,
                self.timer == old(self).timer,
                self.interrupt_enable == old(self).interrupt_enable,
                self.interrupt_flags == old(self).interrupt_flags,
                self.serial_output == old(self).serial_output,
                forall|i: int|
                    0 <= i < 0x10000 ==> self.memory@[i] == (if start_usize <= i
                        < start_usize + j {
                        data@[i - start_usize]
                    } else {
                        old(self)@.mem[i]
                    }),
            decreases max - j,
        {
            self.memory[start_usize + j] = data[j];
            j = j + 1;
        }
        proof {
            assert(final(self)@.mem =~= spec_load_bytes(old(self)@.mem, start, data@));
            assert(final(self)@ =~= (BusModel {
                mem: spec_load_bytes(old(self)@.mem, start, data@),
                ..old(self)@
            }));
        }
    }

    /// Advance the timer by `cycles` machine cycles, accumulating any
    /// timer interrupt into the interrupt-flag register.
    pub fn tick(&mut self, cycles: u32)
        ensures
            final(self)@ == spec_bus_tick(old(self)@, cycles as nat),
            bus_wf(old(self)@) ==> bus_wf(final(self)@),
    {
        self.timer.tick(cycles, &mut self.interrupt_flags);
        proof {
            assert(final(self)@ =~= spec_bus_tick(old(self)@, cycles as nat));
        }
    }

    /// The interrupts both requested and enabled.
    pub fn pending_interrupts(&self) -> (r: u8)
        ensures
            r == spec_pending(self@),
    {
        self.interrupt_enable & self.interrupt_flags & 0x1F
    }

    /// Request the interrupts in `mask` (5 low bits meaningful).
    pub fn request_interrupt(&mut self, mask: u8)
        ensures
            final(self)@ == (BusModel {
                iflags: (old(self)@.iflags | (mask & 0x1F)) as u8,
                ..old(self)@
            }),
    {
        self.interrupt_flags = self.interrupt_flags | (mask & 0x1F);
        proof {
            assert(final(self)@ =~= (BusModel {
                iflags: (old(self)@.iflags | (mask & 0x1F)) as u8,
                ..old(self)@
            }));
        }
    }

    /// Drop the interrupts in `mask` from the requested set.
    pub fn clear_interrupt(&mut self, mask: u8)
        ensures
            final(self)@ == (BusModel {
                iflags: (old(self)@.iflags & !(mask & 0x1F)) as u8,
                ..old(self)@
            }),
    {
        self.interrupt_flags = self.interrupt_flags & !(mask & 0x1F);
        proof {
            assert(final(self)@ =~= (BusModel {
                iflags: (old(self)@.iflags & !(mask & 0x1F)) as u8,
                ..old(self)@
            }));
        }
    }

    /// Borrow the captured serial bytes, oldest first.
    pub fn serial_output(&self) -> (r: &[u8])
        ensures
            r@ == self@.serial,
    {
        self.serial_output.as_slice()
    }

    /// Drain the captured serial bytes, leaving the buffer empty.
    pub fn take_serial_output(&mut self) -> (r: Vec<u8>)
        ensures
            r@ == old(self)@.serial,
            final(self)@ == (BusModel { serial: Seq::<u8>::empty(), ..old(self)@ }),
    {
        let mut drained: Vec<u8> = Vec::new();
        core::mem::swap(&mut self.serial_output, &mut drained);
        proof {
            assert(final(self)@ =~= (BusModel { serial: Seq::<u8>::empty(), ..old(self)@ }));
        }
        drained
    }
}

} // verus!
