//! Suite files: one test case per line, `label|rom_path|[max_steps]|[expectation]`,
//! with `#` comments and blank lines skipped. Parsing is specified line by
//! line over the raw bytes; the first bad line wins.

use vstd::prelude::*;

use crate::text::{fmt_usize, spec_dec};

verus! {

/// What a suite case expects of a run: a byte sequence somewhere in the
/// serial output, or the Mooneye pass signature in BC/DE/HL.
#[derive(Debug, Clone, PartialEq, Eq)]
pub enum CaseExpectation {
    SerialContains(Vec<u8>),
    MooneyePass,
}

/// One case of a suite file.
#[derive(Debug, Clone, PartialEq, Eq)]
pub struct SuiteCase {
    pub label: Vec<u8>,
    pub rom_path: Vec<u8>,
    pub max_steps: usize,
    pub expectation: Option<CaseExpectation>,
}

/// Why an expectation field is rejected.
#[derive(Debug, Clone, Copy, PartialEq, Eq, Structural)]
pub enum ExpectationError {
    EmptySerial,
    UnknownForm,
}

/// Why a suite file is rejected: the offending line (1-based) and what
/// was wrong with it, or a file with nothing to run.
#[derive(Debug, Clone, Copy, PartialEq, Eq, Structural)]
pub enum SuiteError {
    InvalidShape { line: usize },
    MissingFields { line: usize },
    InvalidMaxSteps { line: usize },
    Expectation { line: usize, inner: ExpectationError },
    NoCases,
}

/// The mathematical view of a [`CaseExpectation`].
pub enum ExpectationModel {
    SerialContains(Seq<u8>),
    MooneyePass,
}

/// The mathematical view of a [`SuiteCase`].
#[verifier::ext_equal]
pub struct CaseModel {
    pub label: Seq<u8>,
    pub rom_path: Seq<u8>,
    pub max_steps: usize,
    pub expectation: Option<ExpectationModel>,
}

impl View for CaseExpectation {
    type V = ExpectationModel;

    open spec fn view(&self) -> ExpectationModel {
        match self {
            CaseExpectation::SerialContains(bytes) => ExpectationModel::SerialContains(bytes@),
            CaseExpectation::MooneyePass => ExpectationModel::MooneyePass,
        }
    }
}

impl View for SuiteCase {
    type V = CaseModel;

    open spec fn view(&self) -> CaseModel {
        CaseModel {
            label: self.label@,
            rom_path: self.rom_path@,
            max_steps: self.max_steps,
            expectation: match self.expectation {
                Some(e) => Some(e@),
                None => None,
            },
        }
    }
}

/// ASCII whitespace, as trimmed from lines and fields.
pub open spec fn spec_is_ws(b: u8) -> bool {
    b == 0x20 || b == 0x09 || b == 0x0A || b == 0x0B || b == 0x0C || b == 0x0D
}

/// The first index at or after `from` holding `b`, or the length.
pub open spec fn spec_find(s: Seq<u8>, from: nat, b: u8) -> nat
    decreases s.len() - from,
{
    if from >= s.len() {
        s.len()
    } else if s[from as int] == b {
        from
    } else {
        spec_find(s, from + 1, b)
    }
}

/// A found position never lies before the start of the search nor past
/// the end of the text.
proof fn lemma_find_bounds(s: Seq<u8>, from: nat, b: u8)
    ensures
        from <= spec_find(s, from, b) || spec_find(s, from, b) == s.len(),
        spec_find(s, from, b) <= s.len() || from > s.len(),
        from <= s.len() ==> from <= spec_find(s, from, b) <= s.len(),
    decreases s.len() - from,
{
    if from < s.len() && s[from as int] != b {
        lemma_find_bounds(s, from + 1, b);
    }
}

/// A line with one trailing carriage return removed.
pub open spec fn spec_strip_cr(s: Seq<u8>) -> Seq<u8> {
    if s.len() > 0 && s.last() == 0x0D {
        s.drop_last()
    } else {
        s
    }
}

/// The lines of `s` from `pos` on: split at newlines, each stripped of
/// one trailing carriage return; a trailing newline yields no empty last
/// line.
pub open spec fn spec_lines_from(s: Seq<u8>, pos: nat) -> Seq<Seq<u8>>
    decreases s.len() - pos,
    via spec_lines_from_decreases
{
    if pos >= s.len() {
        Seq::empty()
    } else {
        let j = spec_find(s, pos, 0x0A);
        if j >= s.len() {
            seq![spec_strip_cr(s.subrange(pos as int, s.len() as int))]
        } else {
            seq![spec_strip_cr(s.subrange(pos as int, j as int))] + spec_lines_from(s, j + 1)
        }
    }
}

#[via_fn]
proof fn spec_lines_from_decreases(s: Seq<u8>, pos: nat) {
    lemma_find_bounds(s, pos, 0x0A);
}

/// The `|`-separated fields of `s` from `pos` on; an empty string is one
/// empty field.
pub open spec fn spec_split_from(s: Seq<u8>, pos: nat) -> Seq<Seq<u8>>
    decreases s.len() - pos,
    via spec_split_from_decreases
{
    let j = spec_find(s, pos, 0x7C);
    if j >= s.len() {
        seq![s.subrange(pos as int, s.len() as int)]
    } else {
        seq![s.subrange(pos as int, j as int)] + spec_split_from(s, j + 1)
    }
}

/// A split always yields at least one field.
proof fn lemma_split_from_nonempty(s: Seq<u8>, pos: nat)
    ensures
        spec_split_from(s, pos).len() >= 1,
{
}

/// From a position inside the text there is at least one line left.
proof fn lemma_lines_from_nonempty(s: Seq<u8>, pos: nat)
    requires
        pos < s.len(),
    ensures
        spec_lines_from(s, pos).len() >= 1,
{
}

#[via_fn]
proof fn spec_split_from_decreases(s: Seq<u8>, pos: nat) {
    lemma_find_bounds(s, pos, 0x7C);
}

/// The end of `s.subrange(from, n)` once trailing whitespace is dropped.
pub open spec fn spec_rtrim(s: Seq<u8>, from: nat, n: nat) -> nat
    decreases n,
{
    if n <= from {
        from
    } else if spec_is_ws(s[n - 1]) {
        spec_rtrim(s, from, (n - 1) as nat)
    } else {
        n
    }
}

/// The first non-whitespace index in `i..end`, or `end`.
pub open spec fn spec_ltrim(s: Seq<u8>, i: nat, end: nat) -> nat
    decreases end - i,
{
    if i >= end {
        end
    } else if spec_is_ws(s[i as int]) {
        spec_ltrim(s, i + 1, end)
    } else {
        i
    }
}

/// `s` with leading and trailing ASCII whitespace removed.
pub open spec fn spec_trim(s: Seq<u8>) -> Seq<u8> {
    let end = spec_rtrim(s, 0, s.len());
    let start = spec_ltrim(s, 0, end);
    s.subrange(start as int, end as int)
}

/// Whether every byte of `s` is an ASCII digit.
pub open spec fn spec_all_digits(s: Seq<u8>) -> bool {
    forall|i: int| 0 <= i < s.len() ==> 0x30 <= #[trigger] s[i] <= 0x39
}

/// The value of a digit string, most significant digit first.
pub open spec fn spec_dec_value(s: Seq<u8>) -> nat
    decreases s.len(),
{
    if s.len() == 0 {
        0
    } else {
        (spec_dec_value(s.drop_last()) * 10 + (s.last() - 0x30)) as nat
    }
}

/// A number field with its optional leading `+` removed.
pub open spec fn spec_digits_of(s: Seq<u8>) -> Seq<u8> {
    if s.len() > 0 && s[0] == 0x2B {
        s.drop_first()
    } else {
        s
    }
}

/// The number a field names: an optional `+`, then at least one digit,
/// and a value that fits in `usize`.
pub open spec fn spec_parse_usize(s: Seq<u8>) -> Option<usize> {
    let digits = spec_digits_of(s);
    if digits.len() > 0 && spec_all_digits(digits) && spec_dec_value(digits) <= usize::MAX {
        Some(spec_dec_value(digits) as usize)
    } else {
        None
    }
}

/// The bytes of the `serial:` expectation prefix.
pub open spec fn spec_serial_prefix() -> Seq<u8> {
    seq![0x73u8, 0x65u8, 0x72u8, 0x69u8, 0x61u8, 0x6Cu8, 0x3Au8]
}

/// The bytes of the `mooneye-pass` expectation keyword.
pub open spec fn spec_mooneye_keyword() -> Seq<u8> {
    seq![0x6Du8, 0x6Fu8, 0x6Fu8, 0x6Eu8, 0x65u8, 0x79u8, 0x65u8, 0x2Du8, 0x70u8, 0x61u8, 0x73u8,
        0x73u8]
}

/// What an expectation field means: `serial:<text>` with nonempty text,
/// or `mooneye-pass`.
pub open spec fn spec_expectation(raw: Seq<u8>) -> Result<ExpectationModel, ExpectationError> {
    if raw.len() >= 7 && raw.subrange(0, 7) == spec_serial_prefix() {
        if raw.len() == 7 {
            Err(ExpectationError::EmptySerial)
        } else {
            Ok(ExpectationModel::SerialContains(raw.subrange(7, raw.len() as int)))
        }
    } else if raw == spec_mooneye_keyword() {
        Ok(ExpectationModel::MooneyePass)
    } else {
        Err(ExpectationError::UnknownForm)
    }
}

/// What one raw line contributes: nothing for blank and comment lines,
/// one case, or the first error of the line.
pub open spec fn spec_line_case(line: Seq<u8>, line_no: usize, default_max_steps: usize) -> Result<
    Option<CaseModel>,
    SuiteError,
> {
    let t = spec_trim(line);
    if t.len() == 0 || t[0] == 0x23 {
        Ok(None)
    } else {
        let parts = spec_split_from(t, 0).map_values(|p: Seq<u8>| spec_trim(p));
        if !(2 <= parts.len() <= 4) {
            Err(SuiteError::InvalidShape { line: line_no })
        } else if parts[0].len() == 0 || parts[1].len() == 0 {
            Err(SuiteError::MissingFields { line: line_no })
        } else {
            let steps = if parts.len() >= 3 && parts[2].len() > 0 {
                spec_parse_usize(parts[2])
            } else {
                Some(default_max_steps)
            };
            match steps {
                None => Err(SuiteError::InvalidMaxSteps { line: line_no }),
                Some(max_steps) => {
                    if parts.len() == 4 && parts[3].len() > 0 {
                        match spec_expectation(parts[3]) {
                            Err(e) => Err(SuiteError::Expectation { line: line_no, inner: e }),
                            Ok(exp) => Ok(
                                Some(
                                    CaseModel {
                                        label: parts[0],
                                        rom_path: parts[1],
                                        max_steps,
                                        expectation: Some(exp),
                                    },
                                ),
                            ),
                        }
                    } else {
                        Ok(
                            Some(
                                CaseModel {
                                    label: parts[0],
                                    rom_path: parts[1],
                                    max_steps,
                                    expectation: None,
                                },
                            ),
                        )
                    }
                },
            }
        }
    }
}

/// The cases of the lines from `idx` on, stopping at the first error.
pub open spec fn spec_suite_from(
    lines: Seq<Seq<u8>>,
    idx: nat,
    default_max_steps: usize,
) -> Result<Seq<CaseModel>, SuiteError>
    decreases lines.len() - idx,
{
    if idx >= lines.len() {
        Ok(Seq::empty())
    } else {
        match spec_line_case(lines[idx as int], (idx + 1) as usize, default_max_steps) {
            Err(e) => Err(e),
            Ok(None) => spec_suite_from(lines, idx + 1, default_max_steps),
            Ok(Some(c)) => match spec_suite_from(lines, idx + 1, default_max_steps) {
                Err(e) => Err(e),
                Ok(rest) => Ok(seq![c] + rest),
            },
        }
    }
}

/// The cases of a whole suite file, which must contribute at least one.
pub open spec fn spec_parse_suite(content: Seq<u8>, default_max_steps: usize) -> Result<
    Seq<CaseModel>,
    SuiteError,
> {
    match spec_suite_from(spec_lines_from(content, 0), 0, default_max_steps) {
        Err(e) => Err(e),
        Ok(cases) => if cases.len() == 0 {
            Err(SuiteError::NoCases)
        } else {
            Ok(cases)
        },
    }
}

/// The display message of an expectation error.
pub open spec fn spec_expectation_error_message(e: ExpectationError) -> Seq<char> {
    match e {
        ExpectationError::EmptySerial => "serial expectation cannot be empty"@,
        ExpectationError::UnknownForm => "expectation must be 'serial:<text>' or 'mooneye-pass'"@,
    }
}

/// The display message of a suite error.
pub open spec fn spec_suite_error_message(e: SuiteError) -> Seq<char> {
    match e {
        SuiteError::InvalidShape { line } => "invalid suite line "@ + spec_dec(line as nat)
            + ": expected 'label|rom_path|[max_steps]|[expectation]'"@,
        SuiteError::MissingFields { line } => "invalid suite line "@ + spec_dec(line as nat)
            + ": label and rom_path are required"@,
        SuiteError::InvalidMaxSteps { line } => "invalid suite line "@ + spec_dec(line as nat)
            + ": max_steps must be an integer"@,
        SuiteError::Expectation { line, inner } => "invalid suite line "@ + spec_dec(line as nat)
            + ": "@ + spec_expectation_error_message(inner),
        SuiteError::NoCases => "suite file contains no runnable cases"@,
    }
}

impl ExpectationError {
    /// The error rendered for display.
    pub fn message(&self) -> (r: String)
        ensures
            r@ == spec_expectation_error_message(*self),
    {
        let mut s = String::new();
        match self {
            ExpectationError::EmptySerial => {
                s.append("serial expectation cannot be empty");
            },
            ExpectationError::UnknownForm => {
                s.append("expectation must be 'serial:<text>' or 'mooneye-pass'");
            },
        }
        s
    }
}

impl SuiteError {
    /// The error rendered for display.
    pub fn message(&self) -> (r: String)
        ensures
            r@ == spec_suite_error_message(*self),
    {
        match self {
            SuiteError::InvalidShape { line } => {
                let mut s = String::new();
                s.append("invalid suite line ");
                let n = fmt_usize(*line);
                s.append(n.as_str());
                s.append(": expected 'label|rom_path|[max_steps]|[expectation]'");
                s
            },
            SuiteError::MissingFields { line } => {
                let mut s = String::new();
                s.append("invalid suite line ");
                let n = fmt_usize(*line);
                s.append(n.as_str());
                s.append(": label and rom_path are required");
                s
            },
            SuiteError::InvalidMaxSteps { line } => {
                let mut s = String::new();
                s.append("invalid suite line ");
                let n = fmt_usize(*line);
                s.append(n.as_str());
                s.append(": max_steps must be an integer");
                s
            },
            SuiteError::Expectation { line, inner } => {
                let mut s = String::new();
                s.append("invalid suite line ");
                let n = fmt_usize(*line);
                s.append(n.as_str());
                s.append(": ");
                let m = inner.message();
                s.append(m.as_str());
                s
            },
            SuiteError::NoCases => {
                let mut s = String::new();
                s.append("suite file contains no runnable cases");
                s
            },
        }
    }
}

/// Copy `data[from..to]` into a fresh vector.
fn copy_range(data: &[u8], from: usize, to: usize) -> (r: Vec<u8>)
    requires
        from <= to <= data@.len(),
    ensures
        r@ == data@.subrange(from as int, to as int),
{
    let mut out: Vec<u8> = Vec::new();
    let mut i: usize = from;
    while i < to
        invariant
            from <= i <= to <= data@.len(),
            out@ == data@.subrange(from as int, i as int),
        decreases to - i,
    {
        out.push(data[i]);
        proof {
            assert(out@ =~= data@.subrange(from as int, i + 1 as int));
        }
        i = i + 1;
    }
    out
}

/// Find `b` in `data` at or after `from`.
fn find_byte(data: &[u8], from: usize, b: u8) -> (r: usize)
    requires
        from <= data@.len(),
    ensures
        r == spec_find(data@, from as nat, b),
        from <= r <= data@.len(),
        r < data@.len() ==> data@[r as int] == b,
{
    let mut i: usize = from;
    while i < data.len() && data[i] != b
        invariant
            from <= i <= data@.len(),
            spec_find(data@, from as nat, b) == spec_find(data@, i as nat, b),
        decreases data@.len() - i,
    {
        i = i + 1;
    }
    i
}

fn is_ws(b: u8) -> (r: bool)
    ensures
        r == spec_is_ws(b),
{
    b == 0x20 || b == 0x09 || b == 0x0A || b == 0x0B || b == 0x0C || b == 0x0D
}

/// Copy `data` with leading and trailing ASCII whitespace removed.
fn trim_bytes(data: &[u8]) -> (r: Vec<u8>)
    ensures
        r@ == spec_trim(data@),
{
    let mut end: usize = data.len();
    while end > 0 && is_ws(data[end - 1])
        invariant
            end <= data@.len(),
            spec_rtrim(data@, 0, data@.len()) == spec_rtrim(data@, 0, end as nat),
        decreases end,
    {
        end = end - 1;
    }
    proof {
        assert(spec_rtrim(data@, 0, end as nat) == end as nat);
    }
    let mut start: usize = 0;
    while start < end && is_ws(data[start])
        invariant
            start <= end <= data@.len(),
            spec_rtrim(data@, 0, data@.len()) == end as nat,
            spec_ltrim(data@, 0, end as nat) == spec_ltrim(data@, start as nat, end as nat),
        decreases end - start,
    {
        start = start + 1;
    }
    proof {
        assert(spec_ltrim(data@, start as nat, end as nat) == start as nat);
    }
    copy_range(data, start, end)
}

/// Parse a decimal `usize` as the standard parser does: an optional `+`,
/// then at least one digit, rejecting overflow.
fn parse_usize_field(part: &[u8]) -> (r: Option<usize>)
    ensures
        r == spec_parse_usize(part@),
{
    let start: usize = if part.len() > 0 && part[0] == 0x2B {
        1
    } else {
        0
    };
    let ghost digits = spec_digits_of(part@);
    proof {
        assert(digits =~= part@.subrange(start as int, part@.len() as int));
    }
    if part.len() == start {
        return None;
    }
    let mut value: usize = 0;
    let mut i: usize = start;
    while i < part.len()
        invariant
            start <= i <= part@.len(),
            start < part@.len(),
            digits == spec_digits_of(part@),
            digits == part@.subrange(start as int, part@.len() as int),
            spec_all_digits(digits.take(i - start)),
            value == spec_dec_value(digits.take(i - start)),
        decreases part@.len() - i,
    {
        let b = part[i];
        if b < 0x30 || b > 0x39 {
            proof {
                assert(digits[i - start] == b);
                assert(!spec_all_digits(digits));
                assert(spec_parse_usize(part@) == None::<usize>);
            }
            return None;
        }
        let d = (b - 0x30) as usize;
        if value > (usize::MAX - d) / 10 {
            proof {
                assert(digits.take(i + 1 - start).drop_last() =~= digits.take(i - start));
                assert(digits.take(i + 1 - start).last() == b);
                assert(value * 10 + d > usize::MAX) by (nonlinear_arith)
                    requires
                        value > (usize::MAX - d) / 10,
                        d <= 9,
                ;
                assert(spec_dec_value(digits.take(i + 1 - start)) > usize::MAX);
                if spec_all_digits(digits) {
                    lemma_dec_value_monotone(digits, (i + 1 - start) as nat);
                    assert(spec_dec_value(digits) > usize::MAX);
                }
                assert(spec_parse_usize(part@) == None::<usize>);
            }
            return None;
        }
        value = value * 10 + d;
        proof {
            assert(digits.take(i + 1 - start).drop_last() =~= digits.take(i - start));
            assert(digits.take(i + 1 - start).last() == b);
            assert(spec_all_digits(digits.take(i + 1 - start)));
        }
        i = i + 1;
    }
    proof {
        assert(digits.take(part@.len() - start) =~= digits);
    }
    Some(value)
}

/// A digit string's value only grows as digits are appended, and once a
/// prefix overflows, every extension does.
proof fn lemma_dec_value_monotone(s: Seq<u8>, n: nat)
    requires
        n <= s.len(),
        spec_all_digits(s),
    ensures
        spec_dec_value(s.take(n as int)) <= spec_dec_value(s),
    decreases s.len() - n,
{
    if n == s.len() {
        assert(s.take(n as int) =~= s);
    } else {
        lemma_dec_value_monotone(s, n + 1);
        assert(s.take(n as int + 1).drop_last() =~= s.take(n as int));
        assert(spec_dec_value(s.take(n as int + 1)) == (spec_dec_value(s.take(n as int)) * 10 + (s[n as int] - 0x30)) as nat);
    }
}

/// Parse an expectation field.
fn parse_expectation_bytes(raw: &[u8]) -> (r: Result<CaseExpectation, ExpectationError>)
    ensures
        match spec_expectation(raw@) {
            Result::Ok(m) => r is Ok && r->Ok_0@ == m,
            Result::Err(e) => r == Err::<CaseExpectation, ExpectationError>(e),
        },
{
    if raw.len() >= 7 && raw[0] == 0x73 && raw[1] == 0x65 && raw[2] == 0x72 && raw[3] == 0x69
        && raw[4] == 0x61 && raw[5] == 0x6C && raw[6] == 0x3A {
        proof {
            assert(raw@.subrange(0, 7) =~= spec_serial_prefix());
        }
        if raw.len() == 7 {
            Err(ExpectationError::EmptySerial)
        } else {
            let text = copy_range(raw, 7, raw.len());
            Ok(CaseExpectation::SerialContains(text))
        }
    } else if raw.len() == 12 && raw[0] == 0x6D && raw[1] == 0x6F && raw[2] == 0x6F && raw[3]
        == 0x6E && raw[4] == 0x65 && raw[5] == 0x79 && raw[6] == 0x65 && raw[7] == 0x2D && raw[8]
        == 0x70 && raw[9] == 0x61 && raw[10] == 0x73 && raw[11] == 0x73 {
        proof {
            assert(raw@ =~= spec_mooneye_keyword());
            assert(!(raw@.len() >= 7 && raw@.subrange(0, 7) == spec_serial_prefix()));
        }
        Ok(CaseExpectation::MooneyePass)
    } else {
        proof {
            if raw@.len() >= 7 && raw@.subrange(0, 7) == spec_serial_prefix() {
                assert(raw@[0] == 0x73 && raw@[1] == 0x65 && raw@[2] == 0x72 && raw@[3] == 0x69
                    && raw@[4] == 0x61 && raw@[5] == 0x6C && raw@[6] == 0x3A) by {
                    assert(raw@.subrange(0, 7)[0] == raw@[0]);
                    assert(raw@.subrange(0, 7)[1] == raw@[1]);
                    assert(raw@.subrange(0, 7)[2] == raw@[2]);
                    assert(raw@.subrange(0, 7)[3] == raw@[3]);
                    assert(raw@.subrange(0, 7)[4] == raw@[4]);
                    assert(raw@.subrange(0, 7)[5] == raw@[5]);
                    assert(raw@.subrange(0, 7)[6] == raw@[6]);
                }
            }
            if raw@ == spec_mooneye_keyword() {
                assert(raw@.len() == 12);
                assert(raw@[0] == 0x6D && raw@[1] == 0x6F && raw@[2] == 0x6F && raw@[3] == 0x6E
                    && raw@[4] == 0x65 && raw@[5] == 0x79 && raw@[6] == 0x65 && raw@[7] == 0x2D
                    && raw@[8] == 0x70 && raw@[9] == 0x61 && raw@[10] == 0x73 && raw@[11] == 0x73);
            }
        }
        Err(ExpectationError::UnknownForm)
    }
}

/// Parse one already-extracted line.
fn parse_line(line: &[u8], line_no: usize, default_max_steps: usize) -> (r: Result<
    Option<SuiteCase>,
    SuiteError,
>)
    ensures
        match spec_line_case(line@, line_no, default_max_steps) {
            Result::Ok(None) => r == Ok::<Option<SuiteCase>, SuiteError>(None),
            Result::Ok(Some(m)) => match r {
                Result::Ok(Some(case)) => case@ == m,
                _ => false,
            },
            Result::Err(e) => r == Err::<Option<SuiteCase>, SuiteError>(e),
        },
{
    let trimmed = trim_bytes(line);
    if trimmed.len() == 0 || trimmed[0] == 0x23 {
        return Ok(None);
    }

    let ghost spec_parts = spec_split_from(trimmed@, 0).map_values(|p: Seq<u8>| spec_trim(p));

    let mut parts: Vec<Vec<u8>> = Vec::new();
    let mut pos: usize = 0;
    loop
        invariant_except_break
            spec_split_from(trimmed@, 0).skip(parts@.len() as int) == spec_split_from(
                trimmed@,
                pos as nat,
            ),
        invariant
            pos <= trimmed@.len(),
            spec_parts == spec_split_from(trimmed@, 0).map_values(|p: Seq<u8>| spec_trim(p)),
            parts@.len() <= spec_parts.len(),
            forall|k: int| 0 <= k < parts@.len() ==> #[trigger] parts@[k]@ == spec_parts[k],
        ensures
            parts@.len() == spec_parts.len(),
            forall|k: int| 0 <= k < parts@.len() ==> #[trigger] parts@[k]@ == spec_parts[k],
        decreases trimmed@.len() - pos + 1,
    {
        let j = find_byte(trimmed.as_slice(), pos, 0x7C);
        let raw_part = copy_range(trimmed.as_slice(), pos, j);
        let part = trim_bytes(raw_part.as_slice());
        let ghost n = parts@.len() as int;
        proof {
            lemma_split_from_nonempty(trimmed@, pos as nat);
            let whole = spec_split_from(trimmed@, 0);
            let rest = spec_split_from(trimmed@, pos as nat);
            assert(spec_parts.len() == whole.len());
            assert(n <= whole.len());
            assert(whole.skip(n).len() == whole.len() - n);
            assert(rest.len() >= 1);
            assert(n < whole.len());
            assert(rest[0] == trimmed@.subrange(pos as int, j as int));
            assert(whole.skip(n)[0] == whole[n]);
            assert(whole[n] == rest[0]);
            assert(spec_parts[n] == spec_trim(whole[n]));
            assert(part@ == spec_parts[n]);
        }
        parts.push(part);
        if j >= trimmed.len() {
            proof {
                let whole = spec_split_from(trimmed@, 0);
                let rest = spec_split_from(trimmed@, pos as nat);
                assert(rest.len() == 1);
                assert(whole.len() == n + rest.len());
                assert(whole.len() == parts@.len());
            }
            break;
        }
        proof {
            lemma_split_from_nonempty(trimmed@, (j + 1) as nat);
            let whole = spec_split_from(trimmed@, 0);
            let rest = spec_split_from(trimmed@, pos as nat);
            let nextrest = spec_split_from(trimmed@, (j + 1) as nat);
            assert(rest =~= seq![rest[0]] + nextrest);
            assert(rest.skip(1) =~= nextrest);
            assert(whole.skip(n + 1) =~= whole.skip(n).skip(1));
            assert(whole.skip(parts@.len() as int) =~= nextrest);
            assert(whole.len() == n + 1 + nextrest.len());
        }
        pos = j + 1;
    }
    proof {
        assert(parts@.len() == spec_parts.len());
    }

    if parts.len() < 2 || parts.len() > 4 {
        return Err(SuiteError::InvalidShape { line: line_no });
    }
    if parts[0].len() == 0 || parts[1].len() == 0 {
        return Err(SuiteError::MissingFields { line: line_no });
    }

    let max_steps: usize = if parts.len() >= 3 && parts[2].len() > 0 {
        match parse_usize_field(parts[2].as_slice()) {
            Some(v) => v,
            None => {
                return Err(SuiteError::InvalidMaxSteps { line: line_no });
            },
        }
    } else {
        default_max_steps
    };

    let expectation: Option<CaseExpectation> = if parts.len() == 4 && parts[3].len() > 0 {
        match parse_expectation_bytes(parts[3].as_slice()) {
            Ok(exp) => Some(exp),
            Err(e) => {
                return Err(SuiteError::Expectation { line: line_no, inner: e });
            },
        }
    } else {
        None
    };

    let rom_path = parts.remove(1);
    let label = parts.remove(0);
    Ok(Some(SuiteCase { label, rom_path, max_steps, expectation }))
}

/// Parse a whole suite file into its cases; the first offending line
/// wins, and a file contributing no cases is rejected.
pub fn parse_suite(content: &[u8], default_max_steps: usize) -> (r: Result<
    Vec<SuiteCase>,
    SuiteError,
>)
    ensures
        match spec_parse_suite(content@, default_max_steps) {
            Result::Ok(cases) => {
                &&& r is Ok
                &&& r->Ok_0@.len() == cases.len()
                &&& forall|k: int|
                    0 <= k < cases.len() ==> #[trigger] r->Ok_0@[k]@ == cases[k]
            },
            Result::Err(e) => r == Err::<Vec<SuiteCase>, SuiteError>(e),
        },
{
    let ghost all_lines = spec_lines_from(content@, 0);
    let mut cases: Vec<SuiteCase> = Vec::new();
    let mut pos: usize = 0;
    let mut line_no: usize = 0;

    while pos < content.len()
        invariant
            pos <= content@.len(),
            line_no <= pos,
            all_lines == spec_lines_from(content@, 0),
            line_no <= all_lines.len(),
            all_lines.skip(line_no as int) == spec_lines_from(content@, pos as nat),
            ({
                let total = spec_suite_from(all_lines, 0, default_max_steps);
                let rest = spec_suite_from(all_lines, line_no as nat, default_max_steps);
                match rest {
                    Result::Ok(more) => {
                        &&& total is Ok
                        &&& total->Ok_0.len() == cases@.len() + more.len()
                        &&& forall|k: int|
                            0 <= k < cases@.len() ==> #[trigger] cases@[k]@ == total->Ok_0[k]
                        &&& forall|k: int|
                            0 <= k < more.len() ==> #[trigger] more[k] == total->Ok_0[
                                cases@.len() + k
                            ]
                    },
                    Result::Err(_) => total == rest,
                }
            }),
        decreases content@.len() - pos,
    {
        proof {
            lemma_lines_from_nonempty(content@, pos as nat);
            assert(all_lines.len() - line_no == spec_lines_from(content@, pos as nat).len());
        }
        let j = find_byte(content, pos, 0x0A);
        let mut line = copy_range(content, pos, j);
        if line.len() > 0 && line[line.len() - 1] == 0x0D {
            line.pop();
        }
        proof {
            assert(line@ =~= spec_strip_cr(content@.subrange(pos as int, j as int)));
            let rest_lines = spec_lines_from(content@, pos as nat);
            assert(rest_lines[0] == line@);
            assert(all_lines.skip(line_no as int)[0] == all_lines[line_no as int]);
            assert(all_lines[line_no as int] == line@);
        }

        let ghost old_cases = cases@;
        match parse_line(line.as_slice(), line_no + 1, default_max_steps) {
            Ok(Some(case)) => {
                cases.push(case);
                proof {
                    let idx = line_no as nat;
                    let lc = spec_line_case(line@, (idx + 1) as usize, default_max_steps);
                    let total = spec_suite_from(all_lines, 0, default_max_steps);
                    let rest0 = spec_suite_from(all_lines, idx, default_max_steps);
                    let rest1 = spec_suite_from(all_lines, idx + 1, default_max_steps);
                    let c = lc->Ok_0->0;
                    assert(case@ == c);
                    match rest1 {
                        Result::Err(_) => {
                            assert(rest0 == rest1);
                        },
                        Result::Ok(more1) => {
                            let more0 = seq![c] + more1;
                            assert(rest0 == Result::<Seq<CaseModel>, SuiteError>::Ok(more0));
                            assert(more0[0] == c);
                            assert(total->Ok_0[old_cases.len() as int] == more0[0]);
                            assert(total->Ok_0.len() == cases@.len() + more1.len());
                            assert(forall|k: int|
                                0 <= k < cases@.len() ==> #[trigger] cases@[k]@ == total->Ok_0[k]);
                            assert forall|k: int| 0 <= k < more1.len() implies #[trigger] more1[k]
                                == total->Ok_0[cases@.len() + k] by {
                                assert(more0[k + 1] == more1[k]);
                                assert(more0[k + 1] == total->Ok_0[old_cases.len() + k + 1]);
                            }
                        },
                    }
                }
            },
            Ok(None) => {
                proof {
                    let idx = line_no as nat;
                    assert(spec_suite_from(all_lines, idx, default_max_steps) == spec_suite_from(
                        all_lines,
                        idx + 1,
                        default_max_steps,
                    ));
                }
            },
            Err(e) => {
                proof {
                    assert(spec_suite_from(all_lines, line_no as nat, default_max_steps)
                        == Result::<Seq<CaseModel>, SuiteError>::Err(e));
                }
                return Err(e);
            },
        }

        proof {
            let rest_lines = spec_lines_from(content@, pos as nat);
            if spec_find(content@, pos as nat, 0x0A) < content@.len() {
                let nextrest = spec_lines_from(content@, (j + 1) as nat);
                assert(rest_lines =~= seq![rest_lines[0]] + nextrest);
                assert(rest_lines.skip(1) =~= nextrest);
                assert(all_lines.skip(line_no + 1) =~= all_lines.skip(line_no as int).skip(1));
                assert(all_lines.skip(line_no + 1) =~= nextrest);
            } else {
                assert(rest_lines.len() == 1);
                assert(all_lines.skip(line_no + 1) =~= rest_lines.skip(1));
                assert(all_lines.skip(line_no + 1) =~= spec_lines_from(content@, content@.len()));
            }
        }
        if j < content.len() {
            pos = j + 1;
        } else {
            pos = content.len();
        }
        line_no = line_no + 1;
    }

    proof {
        assert(spec_suite_from(all_lines, line_no as nat, default_max_steps) == Result::<
            Seq<CaseModel>,
            SuiteError,
        >::Ok(Seq::empty()));
    }
    if cases.len() == 0 {
        return Err(SuiteError::NoCases);
    }
    Ok(cases)
}

} // verus!
