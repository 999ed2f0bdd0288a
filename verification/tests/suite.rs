use vibegb_core::{parse_suite, CaseExpectation, SuiteError};

#[test]
fn parses_suite_lines_with_defaults_and_expectations() {
    let suite = "\
# comment
cpu-01|blargg/cpu01.gb|2000|serial:Passed
timer-01|mooneye/timer.gb||mooneye-pass
header-only|misc/smoke.gb
";
    let parsed = parse_suite(suite.as_bytes(), 555).expect("suite should parse");
    assert_eq!(parsed.len(), 3);
    assert_eq!(parsed[0].label, b"cpu-01");
    assert_eq!(parsed[0].rom_path, b"blargg/cpu01.gb");
    assert_eq!(parsed[0].max_steps, 2000);
    assert_eq!(
        parsed[0].expectation,
        Some(CaseExpectation::SerialContains(b"Passed".to_vec()))
    );
    assert_eq!(parsed[1].max_steps, 555);
    assert_eq!(parsed[1].expectation, Some(CaseExpectation::MooneyePass));
    assert_eq!(parsed[2].max_steps, 555);
    assert_eq!(parsed[2].expectation, None);
}

#[test]
fn rejects_invalid_suite_expectation() {
    let suite = "bad|rom.gb|100|unknown";
    let err = parse_suite(suite.as_bytes(), 1000).expect_err("should reject unknown expectation");
    assert!(err
        .message()
        .contains("expectation must be 'serial:<text>' or 'mooneye-pass'"));
}

#[test]
fn reports_each_suite_error_with_its_line() {
    let one_field = parse_suite(b"only-a-label", 10).expect_err("one field is too few");
    assert_eq!(
        one_field.message(),
        "invalid suite line 1: expected 'label|rom_path|[max_steps]|[expectation]'"
    );

    let missing = parse_suite(b"# skip\n|rom.gb", 10).expect_err("empty label is rejected");
    assert_eq!(
        missing.message(),
        "invalid suite line 2: label and rom_path are required"
    );

    let bad_steps = parse_suite(b"a|b.gb|twelve", 10).expect_err("steps must be a number");
    assert_eq!(
        bad_steps.message(),
        "invalid suite line 1: max_steps must be an integer"
    );

    let empty_serial = parse_suite(b"a|b.gb|1|serial:", 10).expect_err("serial text is required");
    assert_eq!(
        empty_serial.message(),
        "invalid suite line 1: serial expectation cannot be empty"
    );

    let nothing = parse_suite(b"# just a comment\n\n", 10).expect_err("no cases means an error");
    assert!(matches!(nothing, SuiteError::NoCases));
    assert_eq!(nothing.message(), "suite file contains no runnable cases");
}

#[test]
fn trims_fields_and_accepts_windows_line_endings() {
    let parsed =
        parse_suite(b"  spaced  |  path.gb  | 42 \r\nsecond|two.gb\r\n", 7).expect("should parse");
    assert_eq!(parsed.len(), 2);
    assert_eq!(parsed[0].label, b"spaced");
    assert_eq!(parsed[0].rom_path, b"path.gb");
    assert_eq!(parsed[0].max_steps, 42);
    assert_eq!(parsed[1].label, b"second");
    assert_eq!(parsed[1].max_steps, 7);
}
