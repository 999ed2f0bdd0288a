//! Machine-level laws, stated over the spec model and proved once for
//! all states.

use vstd::prelude::*;

use crate::bus::{spec_bus_read, spec_bus_write, BusModel, IF_ADDR, TAC_ADDR};
use crate::cpu::{cpu_wf, spec_fetch_byte, spec_step, Cpu, EmuError};
use crate::exec::{spec_exec_base, spec_exec_cb, spec_is_illegal};
use crate::machine::{spec_prepend_cycles, spec_run_steps};

verus! {

/// Masking with a mask is idempotent: the three TAC bits and the five
/// interrupt bits survive a second application of their masks.
proof fn lemma_mask_idempotent()
    by (bit_vector)
    ensures
        forall|x: u8| #[trigger] ((x & 0x07) & 0x07) == x & 0x07,
        forall|x: u8| #[trigger] ((x & 0x1F) & 0x1F) == x & 0x1F,
{
}

/// The flag mask invariant: a well-formed CPU never holds anything in
/// the low nibble of the flag register. Together with `step`'s guarantee
/// that well-formedness is preserved, `F & 0x0F == 0` holds after every
/// step.
pub proof fn lemma_flag_mask_invariant(c: Cpu)
    requires
        cpu_wf(c),
    ensures
        c.regs.f & 0x0F == 0,
{
}

/// Opcode coverage: executing a base opcode fails exactly on the eleven
/// illegal opcodes, and an illegal opcode reports itself and changes
/// nothing.
pub proof fn lemma_opcode_coverage(c: Cpu, b: BusModel, op: u8)
    ensures
        spec_exec_base(c, b, op).2 is Err <==> spec_is_illegal(op),
        spec_is_illegal(op) ==> spec_exec_base(c, b, op) == (
            c,
            b,
            Err::<u32, EmuError>(EmuError::IllegalOpcode(op)),
        ),
{
}

/// Step-level opcode coverage: a step of a machine that is not stopped,
/// not halted, without interrupt dispatch enabled and without the HALT
/// bug pending, fetches the byte at PC and fails exactly when that byte
/// is an illegal opcode, reporting that byte.
pub proof fn lemma_step_opcode_coverage(c: Cpu, b: BusModel)
    requires
        !c.stopped,
        !c.halted,
        !c.ime,
        !c.halt_bug,
    ensures
        ({
            let op = spec_bus_read(b, c.pc);
            &&& (spec_step(c, b).2 is Err <==> spec_is_illegal(op))
            &&& spec_is_illegal(op) ==> spec_step(c, b).2 == Err::<u32, EmuError>(
                EmuError::IllegalOpcode(op),
            )
        }),
{
}

/// CB coverage: the CB prefix never fails, whatever the second opcode
/// byte at PC holds; its result is the CB instruction's cycle cost.
pub proof fn lemma_cb_coverage(c: Cpu, b: BusModel)
    ensures
        ({
            let fetched = spec_fetch_byte(c, b);
            spec_exec_base(c, b, 0xCBu8).2 == Ok::<u32, EmuError>(
                spec_exec_cb(fetched.0, b, fetched.1).2,
            )
        }),
{
    assert(0xCBu8 & 0xC7 == 0xC3) by (bit_vector);
}

/// Cycle additivity: a run of `n > 0` steps spends the first step's
/// cycles plus the remaining run's cycles, and fails as soon as a step
/// fails.
pub proof fn lemma_run_steps_cycle_sum(c: Cpu, b: BusModel, n: nat)
    requires
        n > 0,
    ensures
        ({
            let t = spec_step(c, b);
            match t.2 {
                Result::Ok(cycles) => spec_run_steps(c, b, n) == spec_prepend_cycles(
                    cycles as int,
                    spec_run_steps(t.0, t.1, (n - 1) as nat),
                ),
                Result::Err(e) => spec_run_steps(c, b, n) == (
                    t.0,
                    t.1,
                    Err::<int, EmuError>(e),
                ),
            }
        }),
{
}

/// The I/O register read masks: after writing any byte `w`, TAC reads
/// back as `0xF8 | (w & 0x07)` and IF as `0xE0 | (w & 0x1F)`.
pub proof fn lemma_io_register_read_masks(b: BusModel, w: u8)
    ensures
        spec_bus_read(spec_bus_write(b, TAC_ADDR, w), TAC_ADDR) == (0xF8u8 | (w & 0x07)) as u8,
        spec_bus_read(spec_bus_write(b, IF_ADDR, w), IF_ADDR) == (0xE0u8 | (w & 0x1F)) as u8,
{
    lemma_mask_idempotent();
}

} // verus!
