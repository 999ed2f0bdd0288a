//! Headless execution runs and their reports: running a ROM for a fixed
//! number of steps, rendering the captured serial bytes, checking
//! serial and Mooneye-signature expectations, and laying out the header
//! and execution reports.

use vstd::prelude::*;

use crate::bus::{bus_init, spec_load_bytes, BusModel};
use crate::cpu::{cpu_init, spec_emu_error_message, spec_step, Cpu, EmuError};
use crate::machine::GameBoy;
use crate::regs::{spec_af, spec_bc, spec_de, spec_hl};
use crate::rom::{spec_cgb_mode_label, spec_cartridge_type_name, RomHeader};
use crate::text::{fmt_hex2, fmt_hex4, fmt_u64, fmt_usize, spec_dec, spec_hex2, spec_hex4};
use vstd::string::StrSliceExecFns;

verus! {

/// What a fixed-step headless run produced: the final registers and the
/// rendered serial output.
#[derive(Debug, Clone, PartialEq, Eq)]
pub struct ExecutionReport {
    pub steps: usize,
    pub cycles: u64,
    pub pc: u16,
    pub sp: u16,
    pub af: u16,
    pub bc: u16,
    pub de: u16,
    pub hl: u16,
    pub serial_output: String,
}

/// How a fixed-step run ends: completed with a cycle total, or failed at
/// a step (0-based) with the error.
pub enum RunOutcome {
    Done { cpu: Cpu, bus: BusModel, cycles: int },
    Failed { cpu: Cpu, bus: BusModel, step: nat, error: EmuError },
}

/// `n` steps from a state, recording the failing step's index.
pub open spec fn spec_run(c: Cpu, b: BusModel, n: nat) -> RunOutcome
    decreases n,
{
    if n == 0 {
        RunOutcome::Done { cpu: c, bus: b, cycles: 0int }
    } else {
        let t = spec_step(c, b);
        match t.2 {
            Result::Err(e) => RunOutcome::Failed { cpu: t.0, bus: t.1, step: 0nat, error: e },
            Result::Ok(cy) => match spec_run(t.0, t.1, (n - 1) as nat) {
                RunOutcome::Done { cpu, bus, cycles } => RunOutcome::Done {
                    cpu,
                    bus,
                    cycles: cy + cycles,
                },
                RunOutcome::Failed { cpu, bus, step, error } => RunOutcome::Failed {
                    cpu,
                    bus,
                    step: step + 1,
                    error,
                },
            },
        }
    }
}

/// A run prefixed by spent cycles and completed steps.
pub open spec fn spec_run_prepend(spent: int, steps_done: nat, o: RunOutcome) -> RunOutcome {
    match o {
        RunOutcome::Done { cpu, bus, cycles } => RunOutcome::Done {
            cpu,
            bus,
            cycles: spent + cycles,
        },
        RunOutcome::Failed { cpu, bus, step, error } => RunOutcome::Failed {
            cpu,
            bus,
            step: steps_done + step,
            error,
        },
    }
}

/// One serial byte as display text: printable ASCII and the common
/// whitespace bytes stand for themselves, anything else renders as a
/// hexadecimal escape.
pub open spec fn spec_render_byte(b: u8) -> Seq<char> {
    if (0x20 <= b && b <= 0x7E) || b == 0x0A || b == 0x0D || b == 0x09 {
        seq![b as char]
    } else {
        seq!['\\', 'x'] + spec_hex2(b)
    }
}

/// The concatenated rendering of a byte sequence.
pub open spec fn spec_render_bytes(bytes: Seq<u8>) -> Seq<char>
    decreases bytes.len(),
{
    if bytes.len() == 0 {
        Seq::empty()
    } else {
        spec_render_bytes(bytes.drop_last()) + spec_render_byte(bytes.last())
    }
}

/// The serial capture as display text; an empty capture is marked as
/// such.
pub open spec fn spec_render_serial(bytes: Seq<u8>) -> Seq<char> {
    if bytes.len() == 0 {
        "<empty>"@
    } else {
        spec_render_bytes(bytes)
    }
}

/// A serial rendering shortened for one report line: at most eighty
/// characters, with an ellipsis when cut.
pub open spec fn spec_summarize_serial(s: Seq<char>) -> Seq<char> {
    if s.len() <= 80 {
        s
    } else {
        s.subrange(0, 80) + "..."@
    }
}

/// Whether `needle` occurs contiguously inside `hay`.
pub open spec fn spec_str_contains(hay: Seq<char>, needle: Seq<char>) -> bool {
    exists|k: int|
        0 <= k <= hay.len() - needle.len() && #[trigger] hay.subrange(k, k + needle.len())
            == needle
}

/// Render the captured serial bytes for display.
pub fn render_serial(bytes: &[u8]) -> (r: String)
    ensures
        r@ == spec_render_serial(bytes@),
{
    if bytes.len() == 0 {
        let mut s = String::new();
        s.append("<empty>");
        return s;
    }
    let mut s = String::new();
    let mut i: usize = 0;
    while i < bytes.len()
        invariant
            i <= bytes@.len(),
            s@ == spec_render_bytes(bytes@.take(i as int)),
        decreases bytes@.len() - i,
    {
        let b = bytes[i];
        if (0x20 <= b && b <= 0x7E) || b == 0x0A || b == 0x0D || b == 0x09 {
            s.push(b as char);
        } else {
            s.push('\\');
            s.push('x');
            let hex = fmt_hex2(b);
            s.append(hex.as_str());
        }
        proof {
            assert(bytes@.take(i + 1).drop_last() =~= bytes@.take(i as int));
            assert(bytes@.take(i + 1).last() == b);
            assert(s@ =~= spec_render_bytes(bytes@.take(i + 1)));
        }
        i = i + 1;
    }
    proof {
        assert(bytes@.take(bytes@.len() as int) =~= bytes@);
    }
    s
}

/// Shorten a serial rendering to at most eighty characters for a
/// one-line summary.
pub fn summarize_serial(serial_output: &str) -> (r: String)
    ensures
        r@ == spec_summarize_serial(serial_output@),
{
    let len = serial_output.unicode_len();
    if len <= 80 {
        let mut s = String::new();
        s.append(serial_output);
        s
    } else {
        let mut s = String::new();
        s.append(serial_output.substring_char(0, 80));
        s.append("...");
        proof {
            assert(s@ =~= spec_summarize_serial(serial_output@));
        }
        s
    }
}

/// Whether `needle` occurs inside `hay`, by character.
pub fn str_contains(hay: &str, needle: &str) -> (r: bool)
    ensures
        r == spec_str_contains(hay@, needle@),
{
    let hay_len = hay.unicode_len();
    let needle_len = needle.unicode_len();
    if needle_len == 0 {
        proof {
            assert(hay@.subrange(0, 0 + needle@.len() as int) =~= needle@);
        }
        return true;
    }
    if needle_len > hay_len {
        proof {
            assert(!spec_str_contains(hay@, needle@));
        }
        return false;
    }
    let mut k: usize = 0;
    while k <= hay_len - needle_len
        invariant
            needle_len == needle@.len(),
            hay_len == hay@.len(),
            1 <= needle_len <= hay_len,
            k <= hay_len - needle_len + 1,
            forall|k2: int|
                0 <= k2 < k ==> #[trigger] hay@.subrange(k2, k2 + needle@.len() as int)
                    != needle@,
        decreases hay_len - needle_len - k + 1,
    {
        let mut m: usize = 0;
        let mut matched = true;
        while matched && m < needle_len
            invariant
                needle_len == needle@.len(),
                hay_len == hay@.len(),
                1 <= needle_len <= hay_len,
                k <= hay_len - needle_len,
                m <= needle_len,
                matched ==> hay@.subrange(k as int, k as int + m as int) == needle@.subrange(
                    0,
                    m as int,
                ),
                !matched ==> hay@.subrange(k as int, k as int + needle_len as int) != needle@,
            decreases needle_len - m + (if matched { 1int } else { 0int }),
        {
            let hc = hay.get_char(k + m);
            let nc = needle.get_char(m);
            if hc != nc {
                proof {
                    let window = hay@.subrange(k as int, k as int + needle_len as int);
                    assert(window[m as int] == hay@[k as int + m as int]);
                    assert(window[m as int] != needle@[m as int]);
                }
                matched = false;
            } else {
                proof {
                    assert(hay@.subrange(k as int, k as int + m as int + 1) =~= needle@.subrange(
                        0,
                        m as int + 1,
                    ));
                }
                m = m + 1;
            }
        }
        if matched {
            proof {
                assert(needle@.subrange(0, needle@.len() as int) =~= needle@);
                assert(hay@.subrange(k as int, k as int + needle@.len() as int) == needle@);
            }
            return true;
        }
        k = k + 1;
    }
    proof {
        assert(!spec_str_contains(hay@, needle@));
    }
    false
}

/// The message of a run that failed at a step.
pub open spec fn spec_run_error_message(step: nat, e: EmuError) -> Seq<char> {
    "emulation failed at step "@ + spec_dec(step) + ": "@ + spec_emu_error_message(e)
}

/// The machine run underneath a report: `max_steps` steps from the
/// machine's current state, with the cycle total on success and the
/// failing step's index and error otherwise.
#[verifier::rlimit(100)]
#[verifier::spinoff_prover]
fn run_machine(gb: &mut GameBoy, max_steps: usize) -> (r: Result<u64, (usize, EmuError)>)
    requires
        crate::cpu::cpu_wf(old(gb).cpu),
        crate::bus::bus_wf(old(gb).bus@),
        24 * (max_steps as int) <= u64::MAX as int,
    ensures
        crate::cpu::cpu_wf(final(gb).cpu),
        crate::bus::bus_wf(final(gb).bus@),
        match spec_run(old(gb).cpu, old(gb).bus@, max_steps as nat) {
            RunOutcome::Done { cpu, bus, cycles } => {
                &&& r == Ok::<u64, (usize, EmuError)>(cycles as u64)
                &&& final(gb).cpu == cpu
                &&& final(gb).bus@ == bus
            },
            RunOutcome::Failed { cpu, bus, step, error } => {
                &&& step < max_steps as nat
                &&& r == Err::<u64, (usize, EmuError)>((step as usize, error))
                &&& final(gb).cpu == cpu
                &&& final(gb).bus@ == bus
            },
        },
{
    let ghost c0 = gb.cpu;
    let ghost b0 = gb.bus@;
    let mut cycles: u64 = 0;
    let mut i: usize = 0;
    #[verifier::loop_isolation(false)]
    while i < max_steps
        invariant
            i <= max_steps,
            cycles <= 24 * (i as int),
            crate::cpu::cpu_wf(gb.cpu),
            crate::bus::bus_wf(gb.bus@),
            spec_run(c0, b0, max_steps as nat) == spec_run_prepend(
                cycles as int,
                i as nat,
                spec_run(gb.cpu, gb.bus@, (max_steps - i) as nat),
            ),
        decreases max_steps - i,
    {
        let ghost pre_cpu = gb.cpu;
        let ghost pre_bus = gb.bus@;
        match gb.step() {
            Result::Ok(step_cycles) => {
                proof {
                    let t = spec_step(pre_cpu, pre_bus);
                    let rest = spec_run(t.0, t.1, (max_steps - i - 1) as nat);
                    assert(spec_run(pre_cpu, pre_bus, (max_steps - i) as nat) == spec_run_prepend(
                        step_cycles as int,
                        1nat,
                        rest,
                    ));
                }
                cycles = cycles + (step_cycles as u64);
                i = i + 1;
            },
            Result::Err(e) => {
                proof {
                    assert(match spec_run(pre_cpu, pre_bus, (max_steps - i) as nat) {
                        RunOutcome::Failed { step, error, .. } => step == 0 && error == e,
                        _ => false,
                    });
                }
                return Err((i, e));
            },
        }
    }
    Ok(cycles)
}

/// Run a ROM image from reset for exactly `max_steps` steps and report
/// the final registers, the cycle total and the rendered serial capture;
/// a failing step reports its index and error instead. The step bound
/// keeps the cycle accumulator from overflowing.
#[verifier::rlimit(100)]
#[verifier::spinoff_prover]
pub fn run_for_steps(rom_data: &[u8], max_steps: usize) -> (r: Result<ExecutionReport, String>)
    requires
        24 * (max_steps as int) <= u64::MAX as int,
    ensures
        ({
            let c0 = Cpu { pc: 0x0100u16, sp: 0xFFFEu16, ..cpu_init() };
            let b0 = BusModel { mem: spec_load_bytes(bus_init().mem, 0u16, rom_data@), ..bus_init() };
            match spec_run(c0, b0, max_steps as nat) {
                RunOutcome::Done { cpu, bus, cycles } => {
                    &&& r is Ok
                    &&& r->Ok_0.steps == max_steps
                    &&& r->Ok_0.cycles == cycles as u64
                    &&& r->Ok_0.pc == cpu.pc
                    &&& r->Ok_0.sp == cpu.sp
                    &&& r->Ok_0.af == spec_af(cpu.regs)
                    &&& r->Ok_0.bc == spec_bc(cpu.regs)
                    &&& r->Ok_0.de == spec_de(cpu.regs)
                    &&& r->Ok_0.hl == spec_hl(cpu.regs)
                    &&& r->Ok_0.serial_output@ == spec_render_serial(bus.serial)
                },
                RunOutcome::Failed { cpu, bus, step, error } => {
                    &&& r is Err
                    &&& r->Err_0@ == spec_run_error_message(step, error)
                },
            }
        }),
{
    let mut gb = GameBoy::new();
    gb.load_rom(rom_data);
    let ghost c0 = gb.cpu;
    let ghost b0 = gb.bus@;
    proof {
        assert(c0 == (Cpu { pc: 0x0100u16, sp: 0xFFFEu16, ..cpu_init() }));
        assert(b0 =~= (BusModel { mem: spec_load_bytes(bus_init().mem, 0u16, rom_data@), ..bus_init() }));
    }
    match run_machine(&mut gb, max_steps) {
        Result::Ok(cycles) => {
            let serial = render_serial(gb.bus.serial_output());
            let report = ExecutionReport {
                steps: max_steps,
                cycles,
                pc: gb.cpu.pc,
                sp: gb.cpu.sp,
                af: gb.cpu.regs.af(),
                bc: gb.cpu.regs.bc(),
                de: gb.cpu.regs.de(),
                hl: gb.cpu.regs.hl(),
                serial_output: serial,
            };
            Ok(report)
        },
        Result::Err((step, e)) => {
            let mut msg = String::new();
            msg.append("emulation failed at step ");
            let idx = fmt_usize(step);
            msg.append(idx.as_str());
            msg.append(": ");
            let detail = e.message();
            msg.append(detail.as_str());
            proof {
                assert(msg@ =~= spec_run_error_message(step as nat, e));
            }
            Err(msg)
        },
    }
}

/// The message of a failed serial expectation.
pub open spec fn spec_serial_fail_message(
    context: Seq<char>,
    expected: Seq<char>,
    got: Seq<char>,
) -> Seq<char> {
    context + ": serial expectation failed: expected output containing '"@ + expected + "', got '"@
        + got + "'"@
}

/// The message of a failed Mooneye signature check.
pub open spec fn spec_mooneye_fail_message(context: Seq<char>, bc: u16, de: u16, hl: u16) -> Seq<
    char,
> {
    context + ": mooneye pass signature failed: expected BC=0x0305 DE=0x080D HL=0x1522, got BC=0x"@
        + spec_hex4(bc) + " DE=0x"@ + spec_hex4(de) + " HL=0x"@ + spec_hex4(hl)
}

/// Check a report against the run's expectations: the serial capture
/// must contain the expected text, and a Mooneye run must end with the
/// pass signature BC=0x0305, DE=0x080D, HL=0x1522. The serial check
/// comes first; the first failure is reported.
pub fn assert_expectations(
    report: &ExecutionReport,
    expect_serial: Option<&str>,
    expect_mooneye_pass: bool,
    context: &str,
) -> (r: Result<(), String>)
    ensures
        ({
            let serial_ok = match expect_serial {
                Some(expected) => spec_str_contains(report.serial_output@, expected@),
                None => true,
            };
            let mooneye_ok = !expect_mooneye_pass || (report.bc == 0x0305 && report.de == 0x080D
                && report.hl == 0x1522);
            if !serial_ok {
                r is Err && r->Err_0@ == spec_serial_fail_message(
                    context@,
                    expect_serial->0@,
                    report.serial_output@,
                )
            } else if !mooneye_ok {
                r is Err && r->Err_0@ == spec_mooneye_fail_message(
                    context@,
                    report.bc,
                    report.de,
                    report.hl,
                )
            } else {
                r == Ok::<(), String>(())
            }
        }),
{
    match expect_serial {
        Some(expected) => {
            if !str_contains(report.serial_output.as_str(), expected) {
                let mut msg = String::new();
                msg.append(context);
                msg.append(": serial expectation failed: expected output containing '");
                msg.append(expected);
                msg.append("', got '");
                msg.append(report.serial_output.as_str());
                msg.append("'");
                proof {
                    assert(msg@ =~= spec_serial_fail_message(
                        context@,
                        expected@,
                        report.serial_output@,
                    ));
                }
                return Err(msg);
            }
        },
        None => {},
    }

    if expect_mooneye_pass && !(report.bc == 0x0305 && report.de == 0x080D && report.hl
        == 0x1522) {
        let mut msg = String::new();
        msg.append(context);
        msg.append(": mooneye pass signature failed: expected BC=0x0305 DE=0x080D HL=0x1522, got BC=0x");
        let bc = fmt_hex4(report.bc);
        msg.append(bc.as_str());
        msg.append(" DE=0x");
        let de = fmt_hex4(report.de);
        msg.append(de.as_str());
        msg.append(" HL=0x");
        let hl = fmt_hex4(report.hl);
        msg.append(hl.as_str());
        proof {
            assert(msg@ =~= spec_mooneye_fail_message(context@, report.bc, report.de, report.hl));
        }
        return Err(msg);
    }

    Ok(())
}

/// The execution report laid out for display.
pub open spec fn spec_render_exec_report(
    path: Seq<char>,
    title: Seq<char>,
    report: ExecutionReport,
) -> Seq<char> {
    "ROM: "@ + path + "\nMode: exec\nTitle: "@ + title + "\nSteps: "@ + spec_dec(
        report.steps as nat,
    ) + "\nCycles: "@ + spec_dec(report.cycles as nat) + "\nPC: 0x"@ + spec_hex4(report.pc)
        + "\nSP: 0x"@ + spec_hex4(report.sp) + "\nAF: 0x"@ + spec_hex4(report.af) + "\nBC: 0x"@
        + spec_hex4(report.bc) + "\nDE: 0x"@ + spec_hex4(report.de) + "\nHL: 0x"@ + spec_hex4(
        report.hl,
    ) + "\nSerial Output: "@ + report.serial_output@
}

/// Lay out the execution report for display.
pub fn render_exec_report(path: &str, header: &RomHeader, report: &ExecutionReport) -> (r: String)
    ensures
        r@ == spec_render_exec_report(path@, header.title@, *report),
{
    let mut s = String::new();
    s.append("ROM: ");
    s.append(path);
    s.append("\nMode: exec\nTitle: ");
    s.append(header.title.as_str());
    s.append("\nSteps: ");
    let steps = fmt_usize(report.steps);
    s.append(steps.as_str());
    s.append("\nCycles: ");
    let cycles = fmt_u64(report.cycles);
    s.append(cycles.as_str());
    s.append("\nPC: 0x");
    let pc = fmt_hex4(report.pc);
    s.append(pc.as_str());
    s.append("\nSP: 0x");
    let sp = fmt_hex4(report.sp);
    s.append(sp.as_str());
    s.append("\nAF: 0x");
    let af = fmt_hex4(report.af);
    s.append(af.as_str());
    s.append("\nBC: 0x");
    let bc = fmt_hex4(report.bc);
    s.append(bc.as_str());
    s.append("\nDE: 0x");
    let de = fmt_hex4(report.de);
    s.append(de.as_str());
    s.append("\nHL: 0x");
    let hl = fmt_hex4(report.hl);
    s.append(hl.as_str());
    s.append("\nSerial Output: ");
    s.append(report.serial_output.as_str());
    proof {
        assert(s@ =~= spec_render_exec_report(path@, header.title@, *report));
    }
    s
}

/// A byte count as a whole number of KiB.
pub open spec fn spec_kib(bytes: usize) -> Seq<char> {
    spec_dec((bytes / 1024) as nat) + " KiB"@
}

/// The header report laid out for display.
pub open spec fn spec_render_header(path: Seq<char>, h: crate::rom::HeaderModel) -> Seq<char> {
    let rom_size = match h.rom_size_bytes {
        Some(bytes) => spec_kib(bytes),
        None => "unknown code 0x"@ + spec_hex2(h.rom_size_code),
    };
    let ram_size = match h.ram_size_bytes {
        Some(bytes) => spec_kib(bytes),
        None => "unknown code 0x"@ + spec_hex2(h.ram_size_code),
    };
    let licensee = match h.new_licensee_code {
        Some(code) => "new="@ + code,
        None => "old=0x"@ + spec_hex2(h.old_licensee_code),
    };
    "ROM: "@ + path + "\nTitle: "@ + h.title + "\nCGB Mode: "@ + spec_cgb_mode_label(h.cgb_mode)
        + "\nSGB Support: "@ + (if h.sgb_supported { "yes"@ } else { "no"@ }) + "\nCartridge: 0x"@
        + spec_hex2(h.cartridge_type) + " ("@ + spec_cartridge_type_name(h.cartridge_type) + ")"@
        + "\nROM Size: "@ + rom_size + "\nRAM Size: "@ + ram_size + "\nDestination Code: 0x"@
        + spec_hex2(h.destination_code) + "\nLicensee: "@ + licensee + "\nMask ROM Version: "@
        + spec_dec(h.mask_rom_version as nat) + "\nHeader Checksum: 0x"@ + spec_hex2(
        h.header_checksum,
    ) + "\nGlobal Checksum: 0x"@ + spec_hex4(h.global_checksum)
}

/// Lay out the header report for display.
#[verifier::rlimit(100)]
#[verifier::spinoff_prover]
pub fn render_header(path: &str, header: &RomHeader) -> (r: String)
    ensures
        r@ == spec_render_header(path@, header@),
{
    let mut s = String::new();
    s.append("ROM: ");
    s.append(path);
    s.append("\nTitle: ");
    s.append(header.title.as_str());
    s.append("\nCGB Mode: ");
    let mode = header.cgb_mode.label();
    s.append(mode.as_str());
    s.append("\nSGB Support: ");
    if header.sgb_supported {
        s.append("yes");
    } else {
        s.append("no");
    }
    s.append("\nCartridge: 0x");
    let cart = fmt_hex2(header.cartridge_type);
    s.append(cart.as_str());
    s.append(" (");
    s.append(header.cartridge_type_name());
    s.append(")");
    s.append("\nROM Size: ");
    match header.rom_size_bytes {
        Some(bytes) => {
            let kib = fmt_usize(bytes / 1024);
            s.append(kib.as_str());
            s.append(" KiB");
        },
        None => {
            s.append("unknown code 0x");
            let code = fmt_hex2(header.rom_size_code);
            s.append(code.as_str());
        },
    }
    s.append("\nRAM Size: ");
    match header.ram_size_bytes {
        Some(bytes) => {
            let kib = fmt_usize(bytes / 1024);
            s.append(kib.as_str());
            s.append(" KiB");
        },
        None => {
            s.append("unknown code 0x");
            let code = fmt_hex2(header.ram_size_code);
            s.append(code.as_str());
        },
    }
    s.append("\nDestination Code: 0x");
    let dest = fmt_hex2(header.destination_code);
    s.append(dest.as_str());
    s.append("\nLicensee: ");
    match &header.new_licensee_code {
        Some(code) => {
            s.append("new=");
            s.append(code.as_str());
        },
        None => {
            s.append("old=0x");
            let code = fmt_hex2(header.old_licensee_code);
            s.append(code.as_str());
        },
    }
    s.append("\nMask ROM Version: ");
    let version = fmt_u64(header.mask_rom_version as u64);
    s.append(version.as_str());
    s.append("\nHeader Checksum: 0x");
    let checksum = fmt_hex2(header.header_checksum);
    s.append(checksum.as_str());
    s.append("\nGlobal Checksum: 0x");
    let global = fmt_hex4(header.global_checksum);
    s.append(global.as_str());
    proof {
        assert(s@ =~= spec_render_header(path@, header@));
    }
    s
}

} // verus!
