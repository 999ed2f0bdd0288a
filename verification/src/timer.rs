//! The hardware timer: DIV/TIMA/TMA/TAC backed by a 16-bit internal
//! counter, with falling-edge TIMA increments and the 4-cycle delayed
//! overflow reload.
//!
//! The timer is modelled edge-exactly: the timer input signal is a pure
//! function of the divider and TAC, and TIMA increments precisely on a
//! falling edge of that signal, whether caused by a tick, a DIV write or a
//! TAC write.

use vstd::prelude::*;

verus! {

/// Interrupt-flag bit raised when TIMA reloads after overflow.
pub const INTERRUPT_TIMER_BIT: u8 = 0x04;

/// Timer state: the internal divider counter, the three byte registers and
/// the pending overflow-reload countdown.
#[derive(Debug, Clone, Copy, PartialEq, Eq, Structural)]
pub struct Timer {
    /// Internal 16-bit counter; the DIV register reads its high byte.
    pub divider: u16,
    pub tima: u8,
    pub tma: u8,
    pub tac: u8,
    /// `Some(d)`: TIMA overflowed and will be reloaded from TMA once `d`
    /// reaches zero, unless a TIMA write cancels it.
    pub overflow_reload_delay: Option<u8>,
}

/// The divider bit selected by TAC bits 1-0: 9, 3, 5 or 7.
pub open spec fn spec_selected_bit(tac: u8) -> u16 {
    let sel = tac & 0x03;
    if sel == 0 {
        9
    } else if sel == 1 {
        3
    } else if sel == 2 {
        5
    } else {
        7
    }
}

/// The timer input signal for a given divider value: timer enabled (TAC
/// bit 2) and the selected divider bit set.
pub open spec fn spec_timer_input(tac: u8, divider: u16) -> bool {
    (tac & 0x04) != 0 && (divider & (1u16 << spec_selected_bit(tac))) != 0
}

/// TIMA increment: on overflow TIMA drops to zero and the 4-cycle reload
/// countdown starts; otherwise TIMA goes up by one.
pub open spec fn spec_increment_tima(t: Timer) -> Timer {
    if t.tima == 0xFF {
        Timer { tima: 0u8, overflow_reload_delay: Some(4u8), ..t }
    } else {
        Timer { tima: (t.tima + 1) as u8, ..t }
    }
}

/// The reload countdown after one cycle: on reaching zero, TIMA (if still
/// zero) takes TMA and the timer interrupt bit is raised; a nonzero count
/// just decrements.
pub open spec fn spec_handle_reload(t: Timer, interrupt_flags: u8) -> (Timer, u8) {
    match t.overflow_reload_delay {
        Some(delay) => {
            if delay == 0 {
                if t.tima == 0 {
                    (
                        Timer { tima: t.tma, overflow_reload_delay: None, ..t },
                        (interrupt_flags | INTERRUPT_TIMER_BIT) as u8,
                    )
                } else {
                    (Timer { overflow_reload_delay: None, ..t }, interrupt_flags)
                }
            } else {
                (Timer { overflow_reload_delay: Some((delay - 1) as u8), ..t }, interrupt_flags)
            }
        },
        None => (t, interrupt_flags),
    }
}

/// One machine cycle: the divider increments (wrapping), TIMA increments on
/// a falling edge of the timer input, then the reload countdown advances.
pub open spec fn spec_tick_one(t: Timer, interrupt_flags: u8) -> (Timer, u8) {
    let previous_input = spec_timer_input(t.tac, t.divider);
    let divider = vstd::wrapping::u16_specs::wrapping_add(t.divider, 1);
    let next_input = spec_timer_input(t.tac, divider);
    let stepped = Timer { divider, ..t };
    let bumped = if previous_input && !next_input {
        spec_increment_tima(stepped)
    } else {
        stepped
    };
    spec_handle_reload(bumped, interrupt_flags)
}

/// `n` machine cycles, applied one at a time.
pub open spec fn spec_tick_n(t: Timer, interrupt_flags: u8, n: nat) -> (Timer, u8)
    decreases n,
{
    if n == 0 {
        (t, interrupt_flags)
    } else {
        let prev = spec_tick_n(t, interrupt_flags, (n - 1) as nat);
        spec_tick_one(prev.0, prev.1)
    }
}

/// A DIV write resets the divider to zero; if that causes a falling edge of
/// the timer input, TIMA increments.
pub open spec fn spec_write_div(t: Timer) -> Timer {
    let previous_input = spec_timer_input(t.tac, t.divider);
    let reset = Timer { divider: 0u16, ..t };
    let next_input = spec_timer_input(t.tac, 0u16);
    if previous_input && !next_input {
        spec_increment_tima(reset)
    } else {
        reset
    }
}

/// A TIMA write stores the byte and cancels any pending overflow reload.
pub open spec fn spec_write_tima(t: Timer, value: u8) -> Timer {
    Timer { tima: value, overflow_reload_delay: None, ..t }
}

/// A TAC write keeps bits 0-2 only; if the new selection causes a falling
/// edge of the timer input, TIMA increments.
pub open spec fn spec_write_tac(t: Timer, value: u8) -> Timer {
    let previous_input = spec_timer_input(t.tac, t.divider);
    let updated = Timer { tac: (value & 0x07) as u8, ..t };
    let next_input = spec_timer_input(updated.tac, t.divider);
    if previous_input && !next_input {
        spec_increment_tima(updated)
    } else {
        updated
    }
}

/// What the TAC register reads back: the three writable bits under a high
/// mask of `0xF8`.
pub open spec fn spec_tac_read(t: Timer) -> u8 {
    (0xF8u8 | (t.tac & 0x07)) as u8
}

/// The timer's initial state: everything zero, no reload pending.
pub open spec fn timer_init() -> Timer {
    Timer { divider: 0u16, tima: 0u8, tma: 0u8, tac: 0u8, overflow_reload_delay: None::<u8> }
}

impl Default for Timer {
    /// The timer starts zeroed with no reload pending.
    fn default() -> (r: Timer)
        ensures
            r == timer_init(),
    {
        Timer { divider: 0, tima: 0, tma: 0, tac: 0, overflow_reload_delay: None }
    }
}

impl Timer {
    /// The DIV register: high byte of the internal divider.
    pub fn div(&self) -> (r: u8)
        ensures
            r == (self.divider >> 8) as u8,
    {
        (self.divider >> 8) as u8
    }

    /// The TAC register read, with unimplemented bits high.
    pub fn tac_read(&self) -> (r: u8)
        ensures
            r == spec_tac_read(*self),
    {
        0xF8 | (self.tac & 0x07)
    }

    fn selected_bit(&self) -> (r: u16)
        ensures
            r == spec_selected_bit(self.tac),
            r < 16,
    {
        let sel = self.tac & 0x03;
        if sel == 0 {
            9
        } else if sel == 1 {
            3
        } else if sel == 2 {
            5
        } else {
            7
        }
    }

    fn timer_input(&self, divider: u16) -> (r: bool)
        ensures
            r == spec_timer_input(self.tac, divider),
    {
        (self.tac & 0x04) != 0 && (divider & (1u16 << self.selected_bit())) != 0
    }

    fn increment_tima(&mut self)
        ensures
            *final(self) == spec_increment_tima(*old(self)),
    {
        if self.tima == 0xFF {
            self.tima = 0x00;
            self.overflow_reload_delay = Some(4);
        } else {
            self.tima = self.tima + 1;
        }
    }

    fn handle_reload(&mut self, interrupt_flags: &mut u8)
        ensures
            (*final(self), *final(interrupt_flags)) == spec_handle_reload(
                *old(self),
                *old(interrupt_flags),
            ),
    {
        if let Some(delay) = self.overflow_reload_delay {
            if delay == 0 {
                if self.tima == 0 {
                    self.tima = self.tma;
                    *interrupt_flags = *interrupt_flags | INTERRUPT_TIMER_BIT;
                }
                self.overflow_reload_delay = None;
            } else {
                self.overflow_reload_delay = Some(delay - 1);
            }
        }
    }

    fn tick_one(&mut self, interrupt_flags: &mut u8)
        ensures
            (*final(self), *final(interrupt_flags)) == spec_tick_one(
                *old(self),
                *old(interrupt_flags),
            ),
    {
        let previous_input = self.timer_input(self.divider);
        self.divider = self.divider.wrapping_add(1);
        let next_input = self.timer_input(self.divider);
        if previous_input && !next_input {
            self.increment_tima();
        }
        self.handle_reload(interrupt_flags);
    }

    /// Advance the timer by `cycles` machine cycles, raising the timer
    /// interrupt bit in `interrupt_flags` on delayed overflow reloads.
    pub fn tick(&mut self, cycles: u32, interrupt_flags: &mut u8)
        ensures
            (*final(self), *final(interrupt_flags)) == spec_tick_n(
                *old(self),
                *old(interrupt_flags),
                cycles as nat,
            ),
    {
        let mut i: u32 = 0;
        while i < cycles
            invariant
                i <= cycles,
                (*self, *interrupt_flags) == spec_tick_n(
                    *old(self),
                    *old(interrupt_flags),
                    i as nat,
                ),
            decreases cycles - i,
        {
            self.tick_one(interrupt_flags);
            i = i + 1;
        }
    }

    /// A DIV write: reset the divider, with the falling-edge check.
    pub fn write_div(&mut self)
        ensures
            *final(self) == spec_write_div(*old(self)),
    {
        let previous_input = self.timer_input(self.divider);
        self.divider = 0;
        let next_input = self.timer_input(self.divider);
        if previous_input && !next_input {
            self.increment_tima();
        }
    }

    /// A TIMA write: store the byte and cancel any pending reload.
    pub fn write_tima(&mut self, value: u8)
        ensures
            *final(self) == spec_write_tima(*old(self), value),
    {
        self.tima = value;
        self.overflow_reload_delay = None;
    }

    /// A TMA write.
    pub fn write_tma(&mut self, value: u8)
        ensures
            *final(self) == (Timer { tma: value, ..*old(self) }),
    {
        self.tma = value;
    }

    /// A TAC write: bits 0-2 only, with the falling-edge check.
    pub fn write_tac(&mut self, value: u8)
        ensures
            *final(self) == spec_write_tac(*old(self), value),
    {
        let previous_input = self.timer_input(self.divider);
        self.tac = value & 0x07;
        let next_input = self.timer_input(self.divider);
        if previous_input && !next_input {
            self.increment_tima();
        }
    }
}

} // verus!
