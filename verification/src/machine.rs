//! The machine facade: a CPU and a bus composed, with program loading and
//! step loops.

use vstd::prelude::*;

use crate::bus::{bus_init, bus_wf, spec_load_bytes, Bus, BusModel};
use crate::cpu::{cpu_init, cpu_wf, spec_step, Cpu, EmuError};

verus! {

/// The whole machine: CPU plus bus.
#[derive(Debug, Clone)]
pub struct GameBoy {
    pub cpu: Cpu,
    pub bus: Bus,
}

/// `n` machine steps from a state: the final CPU and bus together with
/// the summed cycle count, stopping at the first failure.
pub open spec fn spec_run_steps(c: Cpu, b: BusModel, n: nat) -> (Cpu, BusModel, Result<
    int,
    EmuError,
>)
    decreases n,
{
    if n == 0 {
        (c, b, Ok(0int))
    } else {
        let t = spec_step(c, b);
        match t.2 {
            Result::Ok(cycles) => {
                let rest = spec_run_steps(t.0, t.1, (n - 1) as nat);
                match rest.2 {
                    Result::Ok(total) => (rest.0, rest.1, Ok(cycles + total)),
                    Result::Err(e) => (rest.0, rest.1, Err(e)),
                }
            },
            Result::Err(e) => (t.0, t.1, Err(e)),
        }
    }
}

/// A run prefixed by already-spent cycles: the same states, with the
/// cycle total shifted.
pub open spec fn spec_prepend_cycles(spent: int, t: (Cpu, BusModel, Result<int, EmuError>)) -> (
    Cpu,
    BusModel,
    Result<int, EmuError>,
) {
    match t.2 {
        Result::Ok(total) => (t.0, t.1, Ok(spent + total)),
        Result::Err(e) => (t.0, t.1, Err(e)),
    }
}

impl Default for GameBoy {
    /// A machine in its reset state: PC 0, SP 0xFFFE, zeroed memory and
    /// registers.
    fn default() -> (r: GameBoy)
        ensures
            r.cpu == cpu_init(),
            r.bus@ == bus_init(),
            cpu_wf(r.cpu),
            bus_wf(r.bus@),
    {
        GameBoy { cpu: Cpu::default(), bus: Bus::default() }
    }
}

impl GameBoy {
    /// A machine in its reset state.
    pub fn new() -> (r: GameBoy)
        ensures
            r.cpu == cpu_init(),
            r.bus@ == bus_init(),
            cpu_wf(r.cpu),
            bus_wf(r.bus@),
    {
        GameBoy::default()
    }

    /// A reset machine with PC at `start` and `program` loaded there,
    /// truncated at the end of the address space.
    pub fn with_program(start: u16, program: &[u8]) -> (r: GameBoy)
        ensures
            r.cpu == (Cpu { pc: start, ..cpu_init() }),
            r.bus@ == (BusModel { mem: spec_load_bytes(bus_init().mem, start, program@), ..bus_init() }),
            cpu_wf(r.cpu),
            bus_wf(r.bus@),
    {
        let mut gb = GameBoy::default();
        gb.cpu.pc = start;
        gb.bus.load_bytes(start, program);
        gb
    }

    /// Load a ROM image at address zero (truncated at 64 KiB) and point
    /// the CPU at the cartridge entry: PC 0x0100, SP 0xFFFE.
    pub fn load_rom(&mut self, rom_data: &[u8])
        requires
            bus_wf(old(self).bus@),
        ensures
            final(self).cpu == (Cpu { pc: 0x0100u16, sp: 0xFFFEu16, ..old(self).cpu }),
            final(self).bus@ == (BusModel {
                mem: spec_load_bytes(old(self).bus@.mem, 0u16, rom_data@),
                ..old(self).bus@
            }),
            bus_wf(final(self).bus@),
            cpu_wf(old(self).cpu) ==> cpu_wf(final(self).cpu),
    {
        self.bus.load_bytes(0x0000, rom_data);
        self.cpu.pc = 0x0100;
        self.cpu.sp = 0xFFFE;
    }

    /// One machine step; the result is its cycle cost, or the illegal
    /// opcode that stopped execution.
    pub fn step(&mut self) -> (r: Result<u32, EmuError>)
        requires
            cpu_wf(old(self).cpu),
            bus_wf(old(self).bus@),
        ensures
            cpu_wf(final(self).cpu),
            bus_wf(final(self).bus@),
            ({
                let t = spec_step(old(self).cpu, old(self).bus@);
                final(self).cpu == t.0 && final(self).bus@ == t.1 && r == t.2
            }),
            r is Ok ==> r.unwrap() <= 24,
    {
        self.cpu.step(&mut self.bus)
    }

    /// Run `steps` machine steps, summing the cycle counts, stopping at
    /// the first failure. The step bound keeps the 64-bit cycle
    /// accumulator from overflowing.
    #[verifier::rlimit(100)]
    #[verifier::spinoff_prover]
    pub fn run_steps(&mut self, steps: usize) -> (r: Result<u64, EmuError>)
        requires
            cpu_wf(old(self).cpu),
            bus_wf(old(self).bus@),
            24 * (steps as int) <= u64::MAX as int,
        ensures
            cpu_wf(final(self).cpu),
            bus_wf(final(self).bus@),
            ({
                let t = spec_run_steps(old(self).cpu, old(self).bus@, steps as nat);
                &&& final(self).cpu == t.0
                &&& final(self).bus@ == t.1
                &&& match t.2 {
                    Result::Ok(total) => r == Ok::<u64, EmuError>(total as u64),
                    Result::Err(e) => r == Err::<u64, EmuError>(e),
                }
            }),
    {
        let mut cycles: u64 = 0;
        let mut i: usize = 0;
        while i < steps
            invariant
                i <= steps,
                24 * (steps as int) <= u64::MAX as int,
                cycles <= 24 * (i as int),
                cpu_wf(self.cpu),
                bus_wf(self.bus@),
                spec_run_steps(old(self).cpu, old(self).bus@, steps as nat)
                    == spec_prepend_cycles(
                    cycles as int,
                    spec_run_steps(self.cpu, self.bus@, (steps - i) as nat),
                ),
            decreases steps - i,
        {
            let ghost pre_cpu = self.cpu;
            let ghost pre_bus = self.bus@;
            match self.cpu.step(&mut self.bus) {
                Result::Ok(step_cycles) => {
                    proof {
                        let t = spec_step(pre_cpu, pre_bus);
                        let rest = spec_run_steps(t.0, t.1, (steps - i - 1) as nat);
                        assert(spec_run_steps(pre_cpu, pre_bus, (steps - i) as nat)
                            == spec_prepend_cycles(step_cycles as int, rest));
                    }
                    cycles = cycles + (step_cycles as u64);
                    i = i + 1;
                },
                Result::Err(e) => {
                    proof {
                        assert(spec_run_steps(pre_cpu, pre_bus, (steps - i) as nat).2
                            == Result::<int, EmuError>::Err(e));
                    }
                    return Err(e);
                },
            }
        }
        Ok(cycles)
    }
}

} // verus!
