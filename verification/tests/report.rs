use vibegb_core::text::{fmt_hex2, fmt_hex4, fmt_u64, fmt_usize};
use vibegb_core::{
    assert_expectations, render_exec_report, render_header, render_serial, run_for_steps,
    str_contains, summarize_serial, ExecutionReport, RomHeader,
};

const NINTENDO_LOGO: [u8; 48] = [
    0xCE, 0xED, 0x66, 0x66, 0xCC, 0x0D, 0x00, 0x0B, 0x03, 0x73, 0x00, 0x83, 0x00, 0x0C, 0x00, 0x0D,
    0x00, 0x08, 0x11, 0x1F, 0x88, 0x89, 0x00, 0x0E, 0xDC, 0xCC, 0x6E, 0xE6, 0xDD, 0xDD, 0xD9, 0x99,
    0xBB, 0xBB, 0x67, 0x63, 0x6E, 0x0E, 0xEC, 0xCC, 0xDD, 0xDC, 0x99, 0x9F, 0xBB, 0xB9, 0x33, 0x3E,
];

fn calculate_header_checksum(data: &[u8]) -> u8 {
    let mut checksum = 0u8;
    for byte in &data[0x134..=0x14C] {
        checksum = checksum.wrapping_sub(*byte).wrapping_sub(1);
    }
    checksum
}

fn serial_emit_program(text: &[u8]) -> Vec<u8> {
    let mut program = Vec::with_capacity((text.len() * 10) + 2);
    for byte in text {
        program.extend_from_slice(&[0x3E, *byte]); // LD A, d8
        program.extend_from_slice(&[0xEA, 0x01, 0xFF]); // LD (FF01), A
        program.extend_from_slice(&[0x3E, 0x81]); // LD A, 0x81
        program.extend_from_slice(&[0xEA, 0x02, 0xFF]); // LD (FF02), A
    }
    program.extend_from_slice(&[0x18, 0xFE]); // JR -2
    program
}

fn write_rom(title: &str, program: &[u8]) -> Vec<u8> {
    let mut rom = vec![0; 0x8000];
    rom[0x100..0x104].copy_from_slice(&[0xC3, 0x50, 0x01, 0x00]); // JP 0x0150
    rom[0x104..0x134].copy_from_slice(&NINTENDO_LOGO);

    let title_bytes = title.as_bytes();
    let title_len = title_bytes.len().min(16);
    rom[0x134..0x134 + title_len].copy_from_slice(&title_bytes[..title_len]);

    rom[0x14A] = 0x01;
    rom[0x14B] = 0x01;

    let program_len = program.len().min(rom.len() - 0x150);
    rom[0x150..0x150 + program_len].copy_from_slice(&program[..program_len]);

    rom[0x14D] = calculate_header_checksum(&rom);
    rom[0x14E] = 0xAB;
    rom[0x14F] = 0xCD;
    rom
}

#[test]
fn runs_a_rom_and_captures_its_serial_output() {
    let rom = write_rom("RUN EXEC", &serial_emit_program(b"PASS"));
    let report = run_for_steps(&rom, 128).expect("execution should succeed");
    assert_eq!(report.steps, 128);
    assert!(report.serial_output.contains("PASS"));
    assert!(report.cycles > 0);
    assert_expectations(&report, Some("PASS"), false, "single ROM run")
        .expect("serial expectation should hold");
}

#[test]
fn reports_the_step_at_which_execution_fails() {
    let mut rom = write_rom("BAD OPCODE", &[]);
    rom[0x100..0x104].copy_from_slice(&[0x00, 0x00, 0xD3, 0x00]); // NOP, NOP, illegal
    let err = run_for_steps(&rom, 10).expect_err("the illegal opcode should stop the run");
    assert_eq!(err, "emulation failed at step 2: illegal opcode 0xD3");
}

#[test]
fn mooneye_signature_is_checked_against_register_values() {
    let program = vec![
        0x06, 0x03, // LD B,03
        0x0E, 0x05, // LD C,05
        0x16, 0x08, // LD D,08
        0x1E, 0x0D, // LD E,0D
        0x26, 0x15, // LD H,15
        0x2E, 0x22, // LD L,22
        0x18, 0xFE, // JR -2
    ];
    let rom = write_rom("MOONEYE", &program);
    let report = run_for_steps(&rom, 64).expect("execution should succeed");
    assert_eq!(report.bc, 0x0305);
    assert_eq!(report.de, 0x080D);
    assert_eq!(report.hl, 0x1522);
    assert_expectations(&report, None, true, "signature run")
        .expect("mooneye signature should hold");

    let mut wrong = report.clone();
    wrong.hl = 0x0000;
    let err = assert_expectations(&wrong, None, true, "signature run")
        .expect_err("a wrong signature must fail");
    assert_eq!(
        err,
        "signature run: mooneye pass signature failed: expected BC=0x0305 DE=0x080D HL=0x1522, \
got BC=0x0305 DE=0x080D HL=0x0000"
    );
}

#[test]
fn serial_expectation_failure_reports_both_strings() {
    let report = ExecutionReport {
        steps: 1,
        cycles: 4,
        pc: 0,
        sp: 0,
        af: 0,
        bc: 0,
        de: 0,
        hl: 0,
        serial_output: String::from("OK"),
    };
    let err = assert_expectations(&report, Some("FAIL"), false, "ctx")
        .expect_err("missing text must fail");
    assert_eq!(
        err,
        "ctx: serial expectation failed: expected output containing 'FAIL', got 'OK'"
    );
}

#[test]
fn renders_serial_bytes_with_escapes() {
    assert_eq!(render_serial(&[]), "<empty>");
    assert_eq!(render_serial(b"OK\n"), "OK\n");
    assert_eq!(render_serial(&[0x4F, 0x00, 0x7F]), "O\\x00\\x7F");
}

#[test]
fn summarizes_long_serial_output() {
    let short = "hello";
    assert_eq!(summarize_serial(short), "hello");
    let long: String = std::iter::repeat('a').take(100).collect();
    let summary = summarize_serial(&long);
    assert_eq!(summary.len(), 83);
    assert!(summary.ends_with("..."));
}

#[test]
fn finds_substrings_by_character() {
    assert!(str_contains("hello world", "o wo"));
    assert!(str_contains("abc", ""));
    assert!(!str_contains("abc", "abcd"));
    assert!(!str_contains("hello", "He"));
}

#[test]
fn formats_numbers_exactly() {
    assert_eq!(fmt_u64(0), "0");
    assert_eq!(fmt_u64(1234), "1234");
    assert_eq!(fmt_usize(987654), "987654");
    assert_eq!(fmt_hex2(0x0A), "0A");
    assert_eq!(fmt_hex2(0xFF), "FF");
    assert_eq!(fmt_hex4(0xBEEF), "BEEF");
    assert_eq!(fmt_hex4(0x001F), "001F");
}

#[test]
fn renders_the_header_report() {
    let rom = write_rom("RUNNER TEST", &[]);
    let header = RomHeader::parse(&rom).expect("ROM should parse");
    let text = render_header("roms/test.gb", &header);
    assert!(text.starts_with("ROM: roms/test.gb\n"));
    assert!(text.contains("Title: RUNNER TEST\n"));
    assert!(text.contains("CGB Mode: DMG only\n"));
    assert!(text.contains("Cartridge: 0x00 (ROM ONLY)\n"));
    assert!(text.contains("ROM Size: 32 KiB\n"));
    assert!(text.contains("RAM Size: 0 KiB\n"));
    assert!(text.contains("Licensee: old=0x01\n"));
    assert!(text.contains("Global Checksum: 0xABCD"));
}

#[test]
fn renders_the_execution_report() {
    let rom = write_rom("RUN EXEC", &serial_emit_program(b"Hi"));
    let header = RomHeader::parse(&rom).expect("ROM should parse");
    let report = run_for_steps(&rom, 16).expect("execution should succeed");
    let text = render_exec_report("x.gb", &header, &report);
    assert!(text.starts_with("ROM: x.gb\nMode: exec\nTitle: RUN EXEC\nSteps: 16\n"));
    assert!(text.contains("Serial Output: Hi"));
}
