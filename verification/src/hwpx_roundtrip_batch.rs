//! Batch round-trip diagnostics: command-line options, the per-file result
//! row, its status, and the inventory written for a batch.
//!
//! Reading and writing files and timing stay with the caller; this module
//! decides what the options are, what a row says and what the reports hold.

use vstd::prelude::*;
use crate::roundtrip::{difference_text, Difference, IrDiff};
use crate::text::{decimal, decimal_string, digit_char, push_char, push_decimal};

verus! {

// ---------------------------------------------------------------------------
// Command line
// ---------------------------------------------------------------------------

/// Options of one run: an input file (or, with `batch`, a folder) and the
/// output folder.
#[derive(Debug, Clone)]
pub struct Options {
    pub input: String,
    pub batch: bool,
    pub out_dir: String,
}

/// The option state while the arguments are read.
pub struct ArgState {
    pub input: Option<Seq<char>>,
    pub batch: bool,
    pub out_dir: Seq<char>,
}

/// The output folder when none is given.
pub open spec fn default_out_dir() -> Seq<char> {
    "output/poc/task1315"@
}

/// The message when `-o` ends the arguments.
pub open spec fn missing_out_dir_message() -> Seq<char> {
    "-o 다음에 출력 폴더가 필요합니다"@
}

/// The message when no input is given.
pub open spec fn usage_message() -> Seq<char> {
    "사용법: rhwp hwpx-roundtrip <입력.hwpx | --batch 폴더> [-o 출력폴더]"@
}

/// The message for an unknown option.
pub open spec fn unknown_option_message(a: Seq<char>) -> Seq<char> {
    "알 수 없는 옵션: "@ + a
}

/// The message for a second input.
pub open spec fn duplicate_input_message(a: Seq<char>) -> Seq<char> {
    "입력 경로가 중복 지정됨: "@ + a
}

/// Reads the arguments from position `i` on, in state `st`: `--batch` sets
/// batch mode, `-o`/`--out` take the next argument as output folder, any
/// other argument that starts with `-` is refused, and the first remaining
/// argument is the input (a second one is refused). Without an input the
/// usage is the error.
pub open spec fn parse_from(args: Seq<Seq<char>>, i: int, st: ArgState) -> Result<ArgState, Seq<char>>
    decreases args.len() - i,
{
    if i >= args.len() {
        if st.input is Some { Ok(st) } else { Err(usage_message()) }
    } else {
        let a = args[i];
        if a == "--batch"@ {
            parse_from(args, i + 1, ArgState { batch: true, ..st })
        } else if a == "-o"@ || a == "--out"@ {
            if i + 1 >= args.len() {
                Err(missing_out_dir_message())
            } else {
                parse_from(args, i + 2, ArgState { out_dir: args[i + 1], ..st })
            }
        } else if a.len() > 0 && a[0] == '-' {
            Err(unknown_option_message(a))
        } else if st.input is Some {
            Err(duplicate_input_message(a))
        } else {
            parse_from(args, i + 1, ArgState { input: Some(a), ..st })
        }
    }
}

/// What the arguments say.
pub open spec fn parse_args_spec(args: Seq<Seq<char>>) -> Result<ArgState, Seq<char>> {
    parse_from(args, 0, ArgState { input: None, batch: false, out_dir: default_out_dir() })
}

/// The arguments as character sequences.
pub open spec fn arg_views(args: Seq<String>) -> Seq<Seq<char>> {
    args.map_values(|s: String| s@)
}

/// `x` is one of the arguments and does not start with `-`.
pub open spec fn is_plain_argument(args: Seq<Seq<char>>, x: Seq<char>) -> bool {
    &&& exists|j: int| 0 <= j < args.len() && args[j] == x
    &&& !(x.len() > 0 && x[0] == '-')
}

proof fn lemma_parse_from_input(args: Seq<Seq<char>>, i: int, st: ArgState)
    requires
        0 <= i,
        st.input matches Some(x) ==> is_plain_argument(args, x),
    ensures
        parse_from(args, i, st) matches Ok(r) ==> (r.input matches Some(x) && is_plain_argument(args, x)),
    decreases args.len() - i,
{
    if i < args.len() {
        let a = args[i];
        if a == "--batch"@ {
            lemma_parse_from_input(args, i + 1, ArgState { batch: true, ..st });
        } else if a == "-o"@ || a == "--out"@ {
            if i + 1 < args.len() {
                lemma_parse_from_input(args, i + 2, ArgState { out_dir: args[i + 1], ..st });
            }
        } else if a.len() > 0 && a[0] == '-' {
        } else if st.input is Some {
        } else {
            assert(args[i] == a);
            assert(is_plain_argument(args, a));
            lemma_parse_from_input(args, i + 1, ArgState { input: Some(a), ..st });
        }
    }
}

/// An accepted command line names its input: one of the arguments, and not
/// an option.
pub proof fn lemma_accepted_input_is_plain_argument(args: Seq<Seq<char>>)
    ensures
        parse_args_spec(args) matches Ok(r) ==> (r.input matches Some(x) && is_plain_argument(args, x)),
{
    lemma_parse_from_input(args, 0, ArgState { input: None, batch: false, out_dir: default_out_dir() });
}

fn str_eq(a: &String, lit: &str) -> (b: bool)
    ensures
        b == (a@ == lit@),
{
    let l = String::from_str(lit);
    a.eq(&l)
}

fn starts_with_dash(a: &String) -> (b: bool)
    ensures
        b == (a@.len() > 0 && a@[0] == '-'),
{
    let s = a.as_str();
    s.unicode_len() > 0 && s.get_char(0) == '-'
}

/// Reads the command line of a round-trip run.
pub fn parse_args(args: &Vec<String>) -> (r: Result<Options, String>)
    ensures
        match (r, parse_args_spec(arg_views(args@))) {
            (Ok(o), Ok(st)) => st.input == Some(o.input@) && o.batch == st.batch && o.out_dir@ == st.out_dir,
            (Err(e), Err(m)) => e@ == m,
            _ => false,
        },
{
    let ghost argv = arg_views(args@);
    let mut input: Option<String> = None;
    let mut batch = false;
    let mut out_dir = String::from_str("output/poc/task1315");
    let mut i: usize = 0;
    while i < args.len()
        invariant
            argv == arg_views(args@),
            argv.len() == args@.len(),
            i <= args@.len(),
            parse_args_spec(argv) == parse_from(argv, i as int, ArgState {
                input: match input { Some(s) => Some(s@), None => None },
                batch,
                out_dir: out_dir@,
            }),
        decreases args@.len() - i,
    {
        let a = &args[i];
        assert(argv[i as int] == a@);
        if str_eq(a, "--batch") {
            batch = true;
        } else if str_eq(a, "-o") || str_eq(a, "--out") {
            i = i + 1;
            if i >= args.len() {
                return Err(String::from_str("-o 다음에 출력 폴더가 필요합니다"));
            }
            assert(argv[i as int] == args@[i as int]@);
            out_dir = args[i].clone();
        } else if starts_with_dash(a) {
            let mut m = String::from_str("알 수 없는 옵션: ");
            m.append(a.as_str());
            return Err(m);
        } else {
            if input.is_some() {
                let mut m = String::from_str("입력 경로가 중복 지정됨: ");
                m.append(a.as_str());
                return Err(m);
            }
            input = Some(a.clone());
        }
        i = i + 1;
    }
    match input {
        Some(input) => Ok(Options { input, batch, out_dir }),
        None => Err(String::from_str("사용법: rhwp hwpx-roundtrip <입력.hwpx | --batch 폴더> [-o 출력폴더]")),
    }
}

} // verus!

verus! {

// ---------------------------------------------------------------------------
// One file's result
// ---------------------------------------------------------------------------

/// The measured round trip of one file.
#[derive(Debug, Clone)]
pub struct RoundtripRow {
    /// Path relative to the batch root (the file name in single mode).
    pub rel_path: String,
    pub parse_ok: bool,
    pub serialize_ok: bool,
    pub reparse_ok: bool,
    /// Differences between the parsed and the re-parsed document.
    pub ir_diff_count: Option<usize>,
    /// The rebuilt package passed the package check.
    pub pkg_ok: bool,
    /// What the package check found wrong (empty when it passed).
    pub pkg_issues: String,
    /// The second round (serialising the re-parsed document and parsing it
    /// again) succeeded.
    pub round2_ok: bool,
    /// Differences between the re-parsed document and the second round's.
    pub round2_diff_count: Option<usize>,
    /// Why the second round failed (empty when it succeeded or did not run).
    pub round2_error: String,
    pub ir_diff_summary: String,
    pub elapsed_ms: u128,
    pub error: String,
}

/// The status words, in priority order.
pub open spec fn status_word(k: nat) -> Seq<char> {
    if k == 0 {
        "PARSE_FAIL"@
    } else if k == 1 {
        "SERIALIZE_FAIL"@
    } else if k == 2 {
        "REPARSE_FAIL"@
    } else if k == 3 {
        "IR_DIFF"@
    } else if k == 4 {
        "PKG_FAIL"@
    } else if k == 5 {
        "ROUND2_FAIL"@
    } else if k == 6 {
        "ROUND2_DIFF"@
    } else {
        "PASS"@
    }
}

/// The first check a row fails, in the order parse, serialise, re-parse,
/// no difference, package, second round, no second-round difference; 7
/// when it fails none.
pub open spec fn status_index(r: RoundtripRow) -> nat {
    if !r.parse_ok {
        0
    } else if !r.serialize_ok {
        1
    } else if !r.reparse_ok {
        2
    } else if r.ir_diff_count != Some(0usize) {
        3
    } else if !r.pkg_ok {
        4
    } else if !r.round2_ok {
        5
    } else if r.round2_diff_count != Some(0usize) {
        6
    } else {
        7
    }
}

/// The status word of a row: `PARSE_FAIL`, `SERIALIZE_FAIL`,
/// `REPARSE_FAIL`, `IR_DIFF`, `PKG_FAIL`, `ROUND2_FAIL`, `ROUND2_DIFF` for
/// the first check it fails, `PASS` when it fails none.
pub open spec fn status_text(r: RoundtripRow) -> Seq<char> {
    status_word(status_index(r))
}

impl RoundtripRow {
    /// The position of the row's status in the priority order.
    pub fn status_index(&self) -> (k: usize)
        ensures
            k == status_index(*self),
    {
        if !self.parse_ok {
            0
        } else if !self.serialize_ok {
            1
        } else if !self.reparse_ok {
            2
        } else if self.ir_diff_count != Some(0usize) {
            3
        } else if !self.pkg_ok {
            4
        } else if !self.round2_ok {
            5
        } else if self.round2_diff_count != Some(0usize) {
            6
        } else {
            7
        }
    }

    /// The status word of the row.
    pub fn status(&self) -> (s: &'static str)
        ensures
            s@ == status_text(*self),
    {
        let k = self.status_index();
        if k == 0 {
            "PARSE_FAIL"
        } else if k == 1 {
            "SERIALIZE_FAIL"
        } else if k == 2 {
            "REPARSE_FAIL"
        } else if k == 3 {
            "IR_DIFF"
        } else if k == 4 {
            "PKG_FAIL"
        } else if k == 5 {
            "ROUND2_FAIL"
        } else if k == 6 {
            "ROUND2_DIFF"
        } else {
            "PASS"
        }
    }
}

/// Tabs, newlines and carriage returns become spaces.
pub open spec fn tsv_escaped(s: Seq<char>) -> Seq<char> {
    s.map_values(|c: char| if c == '\t' || c == '\n' || c == '\r' { ' ' } else { c })
}

/// A field made safe for one TSV cell.
pub fn tsv_escape(s: &str) -> (r: String)
    ensures
        r@ == tsv_escaped(s@),
{
    let mut r = String::new();
    let n = s.unicode_len();
    let mut i: usize = 0;
    while i < n
        invariant
            n == s@.len(),
            i <= n,
            r@ == tsv_escaped(s@.take(i as int)),
        decreases n - i,
    {
        let c = s.get_char(i);
        if c == '\t' || c == '\n' || c == '\r' {
            push_char(&mut r, ' ');
        } else {
            push_char(&mut r, c);
        }
        assert(tsv_escaped(s@.take(i + 1)) =~= tsv_escaped(s@.take(i as int)).push(
            if c == '\t' || c == '\n' || c == '\r' { ' ' } else { c }));
        i = i + 1;
    }
    assert(s@.take(n as int) =~= s@);
    r
}

/// An escaped field keeps its length and holds no tab, newline or carriage
/// return, so it stays within one cell of one line.
pub proof fn lemma_tsv_escaped_is_one_cell(s: Seq<char>)
    ensures
        tsv_escaped(s).len() == s.len(),
        forall|i: int| 0 <= i < s.len() ==> {
            let c = #[trigger] tsv_escaped(s)[i];
            c != '\t' && c != '\n' && c != '\r'
        },
        forall|i: int| 0 <= i < s.len() && s[i] != '\t' && s[i] != '\n' && s[i] != '\r'
            ==> #[trigger] tsv_escaped(s)[i] == s[i],
{
}

// ---------------------------------------------------------------------------
// From the stages' outcome to a row
// ---------------------------------------------------------------------------

/// The stage at which a file's round trip stopped, with the error's text.
#[derive(Debug, Clone)]
pub enum RoundtripFailure {
    Read(String),
    Parse(String),
    Serialize(String),
    CreateDir(String),
    Write(String),
    Reparse(String),
}

/// The row's error message for a failure.
pub open spec fn failure_message(f: RoundtripFailure) -> Seq<char> {
    match f {
        RoundtripFailure::Read(e) => "읽기 실패: "@ + e@,
        RoundtripFailure::Parse(e) => "파싱 실패: "@ + e@,
        RoundtripFailure::Serialize(e) => "직렬화 실패: "@ + e@,
        RoundtripFailure::CreateDir(e) => "출력 폴더 생성 실패: "@ + e@,
        RoundtripFailure::Write(e) => "재조립 파일 쓰기 실패: "@ + e@,
        RoundtripFailure::Reparse(e) => "재파싱 실패: "@ + e@,
    }
}

/// The descriptions of differences joined by `; `.
pub open spec fn joined_texts(ds: Seq<Difference>) -> Seq<char>
    decreases ds.len(),
{
    if ds.len() == 0 {
        Seq::empty()
    } else if ds.len() == 1 {
        difference_text(ds[0])
    } else {
        joined_texts(ds.drop_last()) + "; "@ + difference_text(ds.last())
    }
}

/// The descriptions of all differences joined by `; `.
pub fn diff_summary(diff: &IrDiff) -> (s: String)
    ensures
        s@ == joined_texts(diff@),
{
    let mut s = String::new();
    let mut i: usize = 0;
    while i < diff.differences.len()
        invariant
            i <= diff@.len(),
            diff@.len() == diff.differences@.len(),
            s@ == joined_texts(diff@.take(i as int)),
        decreases diff@.len() - i,
    {
        if i > 0 {
            s.append("; ");
        }
        let t = diff.differences[i].to_string();
        s.append(t.as_str());
        proof {
            let k = diff@.take(i + 1);
            assert(k.drop_last() =~= diff@.take(i as int));
            assert(k.last() == diff.differences@[i as int]@);
            if i == 0 {
                assert(diff@.take(0) =~= Seq::<Difference>::empty());
            }
            assert(s@ =~= joined_texts(k));
        }
        i = i + 1;
    }
    assert(diff@.take(diff@.len() as int) =~= diff@);
    s
}

/// Why the second round failed, with the error's text.
#[derive(Debug, Clone)]
pub enum Round2Failure {
    Serialize(String),
    Reparse(String),
}

/// The row's error message for a second-round failure.
pub open spec fn round2_failure_message(f: Round2Failure) -> Seq<char> {
    match f {
        Round2Failure::Serialize(e) => "2차 직렬화 실패: "@ + e@,
        Round2Failure::Reparse(e) => "2차 재파싱 실패: "@ + e@,
    }
}

/// What was found once the first round trip completed: the comparison of
/// the two documents, the package check of the rebuilt file, and the
/// second round's comparison.
#[derive(Debug)]
pub struct RoundtripChecks {
    pub diff: IrDiff,
    pub package: Result<(), String>,
    pub round2: Result<IrDiff, Round2Failure>,
}

/// The package check's findings, or nothing when it passed.
pub open spec fn package_issues(p: Result<(), String>) -> Seq<char> {
    match p {
        Ok(_) => Seq::empty(),
        Err(m) => m@,
    }
}

impl RoundtripRow {
    /// The row of a file whose stages ended with `outcome`: every stage
    /// before a failure counts as passed; a completed round trip records
    /// how many differences the comparison found and their descriptions,
    /// the package check, and the second round (whose failure, if any, is
    /// the row's error).
    pub fn from_outcome(rel_path: String, outcome: Result<RoundtripChecks, RoundtripFailure>, elapsed_ms: u128) -> (row: RoundtripRow)
        ensures
            row.rel_path@ == rel_path@,
            row.elapsed_ms == elapsed_ms,
            row.parse_ok == !(outcome matches Err(RoundtripFailure::Read(_)) || outcome matches Err(RoundtripFailure::Parse(_))),
            row.serialize_ok == (row.parse_ok && !(outcome matches Err(RoundtripFailure::Serialize(_)))),
            row.reparse_ok == (outcome is Ok),
            row.reparse_ok ==> row.serialize_ok,
            row.serialize_ok ==> row.parse_ok,
            row.ir_diff_count is Some <==> row.reparse_ok,
            row.error@.len() == 0 <==> row.reparse_ok,
            match outcome {
                Ok(c) => {
                    &&& row.ir_diff_count == Some(c.diff@.len() as usize)
                    &&& row.ir_diff_summary@ == joined_texts(c.diff@)
                    &&& row.pkg_ok == (c.package is Ok)
                    &&& row.pkg_issues@ == package_issues(c.package)
                    &&& row.round2_ok == (c.round2 is Ok)
                    &&& row.error@.len() == 0
                    &&& match c.round2 {
                        Ok(d) => row.round2_diff_count == Some(d@.len() as usize)
                            && row.round2_error@.len() == 0,
                        Err(f) => row.round2_diff_count is None
                            && row.round2_error@ == round2_failure_message(f),
                    }
                },
                Err(f) => {
                    &&& row.ir_diff_count is None
                    &&& row.ir_diff_summary@.len() == 0
                    &&& row.error@ == failure_message(f)
                    &&& !row.pkg_ok
                    &&& row.pkg_issues@.len() == 0
                    &&& !row.round2_ok
                    &&& row.round2_diff_count is None
                    &&& row.round2_error@.len() == 0
                },
            },
    {
        match outcome {
            Ok(c) => {
                let n = c.diff.differences.len();
                let summary = diff_summary(&c.diff);
                let (pkg_ok, pkg_issues) = match c.package {
                    Ok(_) => (true, String::new()),
                    Err(m) => (false, m),
                };
                let (round2_ok, round2_diff_count, round2_error) = match c.round2 {
                    Ok(d) => (true, Some(d.differences.len()), String::new()),
                    Err(f) => {
                        let (prefix, e) = match f {
                            Round2Failure::Serialize(e) => ("2차 직렬화 실패: ", e),
                            Round2Failure::Reparse(e) => ("2차 재파싱 실패: ", e),
                        };
                        let mut error = String::from_str(prefix);
                        error.append(e.as_str());
                        (false, None, error)
                    },
                };
                RoundtripRow {
                    rel_path,
                    parse_ok: true,
                    serialize_ok: true,
                    reparse_ok: true,
                    ir_diff_count: Some(n),
                    pkg_ok,
                    pkg_issues,
                    round2_ok,
                    round2_diff_count,
                    round2_error,
                    ir_diff_summary: summary,
                    elapsed_ms,
                    error: String::new(),
                }
            },
            Err(f) => {
                let (parse_ok, serialize_ok, prefix, e) = match f {
                    RoundtripFailure::Read(e) => (false, false, "읽기 실패: ", e),
                    RoundtripFailure::Parse(e) => (false, false, "파싱 실패: ", e),
                    RoundtripFailure::Serialize(e) => (true, false, "직렬화 실패: ", e),
                    RoundtripFailure::CreateDir(e) => (true, true, "출력 폴더 생성 실패: ", e),
                    RoundtripFailure::Write(e) => (true, true, "재조립 파일 쓰기 실패: ", e),
                    RoundtripFailure::Reparse(e) => (true, true, "재파싱 실패: ", e),
                };
                let mut error = String::from_str(prefix);
                error.append(e.as_str());
                proof {
                    reveal_strlit("읽기 실패: ");
                    reveal_strlit("파싱 실패: ");
                    reveal_strlit("직렬화 실패: ");
                    reveal_strlit("출력 폴더 생성 실패: ");
                    reveal_strlit("재조립 파일 쓰기 실패: ");
                    reveal_strlit("재파싱 실패: ");
                    assert(prefix@.len() > 0);
                }
                RoundtripRow {
                    rel_path,
                    parse_ok,
                    serialize_ok,
                    reparse_ok: false,
                    ir_diff_count: None,
                    pkg_ok: false,
                    pkg_issues: String::new(),
                    round2_ok: false,
                    round2_diff_count: None,
                    round2_error: String::new(),
                    ir_diff_summary: String::new(),
                    elapsed_ms,
                    error,
                }
            },
        }
    }
}

} // verus!

verus! {

// ---------------------------------------------------------------------------
// Batch reports
// ---------------------------------------------------------------------------

/// `true` or `false`, as `Display` writes a `bool`.
pub open spec fn bool_text(b: bool) -> Seq<char> {
    if b { "true"@ } else { "false"@ }
}

/// The difference count, or `-` when the comparison did not run.
pub open spec fn count_or_dash(c: Option<usize>) -> Seq<char> {
    match c {
        Some(n) => decimal(n as nat),
        None => "-"@,
    }
}

/// The header line of the inventory: thirteen columns.
pub open spec fn tsv_header() -> Seq<char> {
    "sample\tstatus\tparse_ok\tserialize_ok\treparse_ok\tir_diff_count\tpkg_ok\tround2_ok\tround2_diff_count\telapsed_ms\terror\tir_diff_summary\tpkg_issues\n"@
}

/// Path and status cells of an inventory line.
pub open spec fn tsv_line_lead(r: RoundtripRow) -> Seq<char> {
    tsv_escaped(r.rel_path@) + seq!['\t'] + status_text(r) + seq!['\t']
}

/// The three stage-flag cells of an inventory line.
pub open spec fn tsv_line_flags(r: RoundtripRow) -> Seq<char> {
    bool_text(r.parse_ok) + seq!['\t'] + bool_text(r.serialize_ok) + seq!['\t']
        + bool_text(r.reparse_ok) + seq!['\t']
}

/// The difference-count, package and second-round cells of an inventory
/// line.
pub open spec fn tsv_line_checks(r: RoundtripRow) -> Seq<char> {
    count_or_dash(r.ir_diff_count) + seq!['\t'] + bool_text(r.pkg_ok) + seq!['\t']
        + bool_text(r.round2_ok) + seq!['\t'] + count_or_dash(r.round2_diff_count) + seq!['\t']
}

/// The time, error, summary and package-issue cells of an inventory line,
/// and its end.
pub open spec fn tsv_line_texts(r: RoundtripRow) -> Seq<char> {
    decimal(r.elapsed_ms as nat) + seq!['\t'] + tsv_escaped(r.error@) + seq!['\t']
        + tsv_escaped(r.ir_diff_summary@) + seq!['\t'] + tsv_escaped(r.pkg_issues@) + seq!['\n']
}

/// The inventory line of a row, thirteen cells separated by tabs: path,
/// status, the three stage flags, the difference count, the package flag,
/// the second-round flag and difference count, the time, the error, the
/// difference summary and the package issues.
pub open spec fn tsv_line(r: RoundtripRow) -> Seq<char> {
    tsv_line_lead(r) + tsv_line_flags(r) + tsv_line_checks(r) + tsv_line_texts(r)
}

/// The inventory lines of rows, in order.
pub open spec fn tsv_lines(rows: Seq<RoundtripRow>) -> Seq<char>
    decreases rows.len(),
{
    if rows.len() == 0 {
        Seq::empty()
    } else {
        tsv_lines(rows.drop_last()) + tsv_line(rows.last())
    }
}

fn push_bool(s: &mut String, b: bool)
    ensures
        final(s)@ == old(s)@ + bool_text(b),
{
    if b {
        s.append("true");
    } else {
        s.append("false");
    }
}

fn push_tab(s: &mut String)
    ensures
        final(s)@ == old(s)@ + seq!['\t'],
{
    push_char(s, '\t');
    assert(s@ =~= old(s)@ + seq!['\t']);
}

fn push_count(s: &mut String, c: Option<usize>)
    ensures
        final(s)@ == old(s)@ + count_or_dash(c),
{
    match c {
        Some(n) => push_decimal(s, n as u128),
        None => s.append("-"),
    }
}

fn push_escaped(s: &mut String, field: &String)
    ensures
        final(s)@ == old(s)@ + tsv_escaped(field@),
{
    let e = tsv_escape(field.as_str());
    s.append(e.as_str());
}

fn push_tsv_lead(s: &mut String, r: &RoundtripRow)
    ensures
        final(s)@ == old(s)@ + tsv_line_lead(*r),
{
    push_escaped(s, &r.rel_path);
    push_tab(s);
    s.append(r.status());
    push_tab(s);
    assert(s@ =~= old(s)@ + tsv_line_lead(*r));
}

fn push_tsv_flags(s: &mut String, r: &RoundtripRow)
    ensures
        final(s)@ == old(s)@ + tsv_line_flags(*r),
{
    push_bool(s, r.parse_ok);
    push_tab(s);
    push_bool(s, r.serialize_ok);
    push_tab(s);
    push_bool(s, r.reparse_ok);
    push_tab(s);
    assert(s@ =~= old(s)@ + tsv_line_flags(*r));
}

fn push_tsv_checks(s: &mut String, r: &RoundtripRow)
    ensures
        final(s)@ == old(s)@ + tsv_line_checks(*r),
{
    push_count(s, r.ir_diff_count);
    push_tab(s);
    push_bool(s, r.pkg_ok);
    push_tab(s);
    push_bool(s, r.round2_ok);
    push_tab(s);
    push_count(s, r.round2_diff_count);
    push_tab(s);
    assert(s@ =~= old(s)@ + tsv_line_checks(*r));
}

fn push_tsv_texts(s: &mut String, r: &RoundtripRow)
    ensures
        final(s)@ == old(s)@ + tsv_line_texts(*r),
{
    push_decimal(s, r.elapsed_ms);
    push_tab(s);
    push_escaped(s, &r.error);
    push_tab(s);
    push_escaped(s, &r.ir_diff_summary);
    push_tab(s);
    push_escaped(s, &r.pkg_issues);
    push_char(s, '\n');
    assert(s@ =~= old(s)@ + tsv_line_texts(*r));
}

fn push_tsv_line(s: &mut String, r: &RoundtripRow)
    ensures
        final(s)@ == old(s)@ + tsv_line(*r),
{
    push_tsv_lead(s, r);
    push_tsv_flags(s, r);
    push_tsv_checks(s, r);
    push_tsv_texts(s, r);
    assert(s@ =~= old(s)@ + tsv_line(*r));
}

/// The text of `inventory.tsv`: the header line, then one line per row.
pub fn inventory_tsv(rows: &Vec<RoundtripRow>) -> (s: String)
    ensures
        s@ == tsv_header() + tsv_lines(rows@),
{
    let mut s = String::from_str(
        "sample\tstatus\tparse_ok\tserialize_ok\treparse_ok\tir_diff_count\tpkg_ok\tround2_ok\tround2_diff_count\telapsed_ms\terror\tir_diff_summary\tpkg_issues\n",
    );
    let mut i: usize = 0;
    while i < rows.len()
        invariant
            i <= rows@.len(),
            s@ == tsv_header() + tsv_lines(rows@.take(i as int)),
        decreases rows@.len() - i,
    {
        push_tsv_line(&mut s, &rows[i]);
        proof {
            let k = rows@.take(i + 1);
            assert(k.drop_last() =~= rows@.take(i as int));
            assert(s@ =~= tsv_header() + tsv_lines(k));
        }
        i = i + 1;
    }
    assert(rows@.take(rows@.len() as int) =~= rows@);
    s
}

/// How many rows carry status `st`.
pub open spec fn count_status(rows: Seq<RoundtripRow>, st: Seq<char>) -> nat
    decreases rows.len(),
{
    if rows.len() == 0 {
        0
    } else {
        count_status(rows.drop_last(), st) + if status_text(rows.last()) == st { 1nat } else { 0nat }
    }
}

/// How many rows a batch has of each status.
#[derive(Debug, Clone, Copy)]
pub struct RoundtripSummary {
    pub total: usize,
    pub pass: usize,
    pub ir_diff: usize,
    pub parse_fail: usize,
    pub serialize_fail: usize,
    pub reparse_fail: usize,
    pub pkg_fail: usize,
    pub round2_fail: usize,
    pub round2_diff: usize,
}

/// The eight status words are distinct.
pub proof fn lemma_status_words_distinct()
    ensures
        forall|i: nat, j: nat| i < 8 && j < 8 && i != j ==> #[trigger] status_word(i) != #[trigger] status_word(j),
{
    reveal_strlit("PARSE_FAIL");
    reveal_strlit("SERIALIZE_FAIL");
    reveal_strlit("REPARSE_FAIL");
    reveal_strlit("IR_DIFF");
    reveal_strlit("PKG_FAIL");
    reveal_strlit("ROUND2_FAIL");
    reveal_strlit("ROUND2_DIFF");
    reveal_strlit("PASS");
    assert("PARSE_FAIL"@.len() == 10);
    assert("SERIALIZE_FAIL"@.len() == 14);
    assert("REPARSE_FAIL"@.len() == 12);
    assert("IR_DIFF"@.len() == 7);
    assert("PKG_FAIL"@.len() == 8);
    assert("ROUND2_FAIL"@.len() == 11);
    assert("ROUND2_DIFF"@.len() == 11);
    assert("PASS"@.len() == 4);
    assert("ROUND2_FAIL"@[7] != "ROUND2_DIFF"@[7]);
}

/// The count of status `k` among the rows.
spec fn count_of(rows: Seq<RoundtripRow>, k: nat) -> nat {
    count_status(rows, status_word(k))
}

proof fn lemma_count_step(rows: Seq<RoundtripRow>, i: int, k: nat)
    requires
        0 <= i < rows.len(),
        k < 8,
        forall|a: nat, b: nat| a < 8 && b < 8 && a != b ==> #[trigger] status_word(a) != #[trigger] status_word(b),
    ensures
        count_of(rows.take(i + 1), k) == count_of(rows.take(i), k)
            + if status_index(rows[i]) == k { 1nat } else { 0nat },
{
    let t = rows.take(i + 1);
    assert(t.drop_last() =~= rows.take(i));
    assert(t.last() == rows[i]);
    let m = status_index(rows[i]);
    assert(m < 8);
    if m != k {
        assert(status_word(m) != status_word(k));
    }
}

/// Counts the rows of each status.
pub fn summarize(rows: &Vec<RoundtripRow>) -> (s: RoundtripSummary)
    ensures
        s.total == rows@.len(),
        s.parse_fail == count_status(rows@, "PARSE_FAIL"@),
        s.serialize_fail == count_status(rows@, "SERIALIZE_FAIL"@),
        s.reparse_fail == count_status(rows@, "REPARSE_FAIL"@),
        s.ir_diff == count_status(rows@, "IR_DIFF"@),
        s.pkg_fail == count_status(rows@, "PKG_FAIL"@),
        s.round2_fail == count_status(rows@, "ROUND2_FAIL"@),
        s.round2_diff == count_status(rows@, "ROUND2_DIFF"@),
        s.pass == count_status(rows@, "PASS"@),
        s.parse_fail + s.serialize_fail + s.reparse_fail + s.ir_diff + s.pkg_fail + s.round2_fail
            + s.round2_diff + s.pass == s.total,
{
    proof { lemma_status_words_distinct(); }
    let mut s = RoundtripSummary {
        total: 0,
        pass: 0,
        ir_diff: 0,
        parse_fail: 0,
        serialize_fail: 0,
        reparse_fail: 0,
        pkg_fail: 0,
        round2_fail: 0,
        round2_diff: 0,
    };
    let mut i: usize = 0;
    while i < rows.len()
        invariant
            i <= rows@.len(),
            s.total == i,
            forall|a: nat, b: nat| a < 8 && b < 8 && a != b ==> #[trigger] status_word(a) != #[trigger] status_word(b),
            s.parse_fail == count_of(rows@.take(i as int), 0),
            s.serialize_fail == count_of(rows@.take(i as int), 1),
            s.reparse_fail == count_of(rows@.take(i as int), 2),
            s.ir_diff == count_of(rows@.take(i as int), 3),
            s.pkg_fail == count_of(rows@.take(i as int), 4),
            s.round2_fail == count_of(rows@.take(i as int), 5),
            s.round2_diff == count_of(rows@.take(i as int), 6),
            s.pass == count_of(rows@.take(i as int), 7),
            s.parse_fail + s.serialize_fail + s.reparse_fail + s.ir_diff + s.pkg_fail + s.round2_fail
                + s.round2_diff + s.pass == i,
        decreases rows@.len() - i,
    {
        let k = rows[i].status_index();
        proof {
            lemma_count_step(rows@, i as int, 0);
            lemma_count_step(rows@, i as int, 1);
            lemma_count_step(rows@, i as int, 2);
            lemma_count_step(rows@, i as int, 3);
            lemma_count_step(rows@, i as int, 4);
            lemma_count_step(rows@, i as int, 5);
            lemma_count_step(rows@, i as int, 6);
            lemma_count_step(rows@, i as int, 7);
        }
        if k == 0 {
            s.parse_fail = s.parse_fail + 1;
        } else if k == 1 {
            s.serialize_fail = s.serialize_fail + 1;
        } else if k == 2 {
            s.reparse_fail = s.reparse_fail + 1;
        } else if k == 3 {
            s.ir_diff = s.ir_diff + 1;
        } else if k == 4 {
            s.pkg_fail = s.pkg_fail + 1;
        } else if k == 5 {
            s.round2_fail = s.round2_fail + 1;
        } else if k == 6 {
            s.round2_diff = s.round2_diff + 1;
        } else {
            s.pass = s.pass + 1;
        }
        s.total = s.total + 1;
        i = i + 1;
    }
    assert(rows@.take(rows@.len() as int) =~= rows@);
    s
}

/// A stage failed: parsing, serialising or parsing again.
pub open spec fn row_failed(r: RoundtripRow) -> bool {
    !(r.parse_ok && r.serialize_ok && r.reparse_ok)
}

/// Whether any row failed a stage (a difference alone is no failure).
pub fn any_failure(rows: &Vec<RoundtripRow>) -> (b: bool)
    ensures
        b == exists|i: int| 0 <= i < rows@.len() && row_failed(#[trigger] rows@[i]),
{
    let mut i: usize = 0;
    while i < rows.len()
        invariant
            i <= rows@.len(),
            forall|j: int| 0 <= j < i ==> !row_failed(#[trigger] rows@[j]),
        decreases rows@.len() - i,
    {
        let r = &rows[i];
        if !(r.parse_ok && r.serialize_ok && r.reparse_ok) {
            assert(row_failed(rows@[i as int]));
            return true;
        }
        i = i + 1;
    }
    false
}

} // verus!

verus! {

/// `s` right-aligned in a field of `w` characters.
pub open spec fn padded(s: Seq<char>, w: nat) -> Seq<char> {
    if s.len() >= w {
        s
    } else {
        Seq::new((w - s.len()) as nat, |i: int| ' ') + s
    }
}

fn pad_left(s: &str, w: usize) -> (r: String)
    ensures
        r@ == padded(s@, w as nat),
{
    let n = s.unicode_len();
    let mut r = String::new();
    if n < w {
        let mut k: usize = 0;
        while k < w - n
            invariant
                n < w,
                k <= w - n,
                r@ == Seq::new(k as nat, |i: int| ' '),
            decreases w - n - k,
        {
            push_char(&mut r, ' ');
            assert(r@ =~= Seq::new((k + 1) as nat, |i: int| ' '));
            k = k + 1;
        }
    }
    r.append(s);
    assert(r@ =~= padded(s@, w as nat));
    r
}

/// The progress line printed for a row:
/// `[STATUS] diff=N Tms  PATH`, status right-aligned in 14 places, the
/// difference count in 3 and the time in 6.
pub open spec fn progress_text(r: RoundtripRow) -> Seq<char> {
    seq!['['] + padded(status_text(r), 14) + "] diff="@ + padded(count_or_dash(r.ir_diff_count), 3)
        + seq![' '] + padded(decimal(r.elapsed_ms as nat), 6) + "ms  "@ + r.rel_path@
}

/// The progress line of a row.
pub fn progress_line(r: &RoundtripRow) -> (s: String)
    ensures
        s@ == progress_text(*r),
{
    let mut s = String::new();
    push_char(&mut s, '[');
    let st = pad_left(r.status(), 14);
    s.append(st.as_str());
    s.append("] diff=");
    let count = match r.ir_diff_count {
        Some(c) => decimal_string(c as u128),
        None => String::from_str("-"),
    };
    let cp = pad_left(count.as_str(), 3);
    s.append(cp.as_str());
    push_char(&mut s, ' ');
    let ms = decimal_string(r.elapsed_ms);
    let mp = pad_left(ms.as_str(), 6);
    s.append(mp.as_str());
    s.append("ms  ");
    s.append(r.rel_path.as_str());
    assert(s@ =~= progress_text(*r));
    s
}

} // verus!

verus! {

/// The file name of a rebuilt file: the source's stem (`output` when it has
/// none) followed by `.rt.hwpx`.
pub open spec fn rt_file_name_text(stem: Option<Seq<char>>) -> Seq<char> {
    match stem {
        Some(t) => t + ".rt.hwpx"@,
        None => "output"@ + ".rt.hwpx"@,
    }
}

/// The file name of a rebuilt file.
pub fn rt_file_name(stem: Option<String>) -> (s: String)
    ensures
        s@ == rt_file_name_text(match stem { Some(t) => Some(t@), None => None }),
{
    let mut s = match stem {
        Some(t) => t,
        None => String::from_str("output"),
    };
    s.append(".rt.hwpx");
    s
}

} // verus!

verus! {

/// A row counts as a failed run exactly when parsing, serialising or
/// re-parsing failed: that is, when its status is `PARSE_FAIL`,
/// `SERIALIZE_FAIL` or `REPARSE_FAIL`. A difference, a package problem or a
/// second-round problem alone is no failure.
pub proof fn lemma_failed_rows_are_stage_failures(r: RoundtripRow)
    ensures
        row_failed(r) <==> (!r.parse_ok || !r.serialize_ok || !r.reparse_ok),
        row_failed(r) <==> status_index(r) <= 2,
        !r.parse_ok ==> row_failed(r),
        r.parse_ok && !r.serialize_ok ==> row_failed(r),
        r.parse_ok && r.serialize_ok && !r.reparse_ok ==> row_failed(r),
{
}

/// The run fails exactly when one of its rows failed a stage.
pub proof fn lemma_batch_fails_on_any_stage_failure(rows: Seq<RoundtripRow>, i: int)
    requires
        0 <= i < rows.len(),
        !rows[i].parse_ok || !rows[i].serialize_ok || !rows[i].reparse_ok,
    ensures
        exists|j: int| 0 <= j < rows.len() && row_failed(#[trigger] rows[j]),
{
    assert(row_failed(rows[i]));
}

} // verus!

verus! {

// ---------------------------------------------------------------------------
// The cells of an inventory line
// ---------------------------------------------------------------------------

/// How many tab characters a text holds.
pub open spec fn tab_count(s: Seq<char>) -> nat
    decreases s.len(),
{
    if s.len() == 0 {
        0
    } else {
        tab_count(s.drop_last()) + if s.last() == '\t' { 1nat } else { 0nat }
    }
}

proof fn lemma_tab_count_add(a: Seq<char>, b: Seq<char>)
    ensures
        tab_count(a + b) == tab_count(a) + tab_count(b),
    decreases b.len(),
{
    if b.len() > 0 {
        lemma_tab_count_add(a, b.drop_last());
        assert((a + b).drop_last() =~= a + b.drop_last());
        assert((a + b).last() == b.last());
    } else {
        assert(a + b =~= a);
    }
}

proof fn lemma_no_tabs(s: Seq<char>)
    requires
        forall|i: int| 0 <= i < s.len() ==> s[i] != '\t',
    ensures
        tab_count(s) == 0,
    decreases s.len(),
{
    if s.len() > 0 {
        lemma_no_tabs(s.drop_last());
    }
}

proof fn lemma_decimal_no_tabs(n: nat)
    ensures
        tab_count(decimal(n)) == 0,
    decreases n,
{
    let c = digit_char(n % 10);
    assert(c != '\t');
    if n >= 10 {
        lemma_decimal_no_tabs(n / 10);
        let d = decimal(n / 10);
        assert(decimal(n) == d.push(c));
        assert(d.push(c).drop_last() =~= d);
    } else {
        let one = seq![digit_char(n)];
        assert(decimal(n) == one);
        assert(tab_count(Seq::<char>::empty()) == 0);
        assert(one.drop_last() =~= Seq::<char>::empty());
        assert(tab_count(one) == tab_count(one.drop_last()));
    }
}

proof fn lemma_status_no_tabs(r: RoundtripRow)
    ensures
        tab_count(status_text(r)) == 0,
{
    reveal_strlit("PARSE_FAIL");
    reveal_strlit("SERIALIZE_FAIL");
    reveal_strlit("REPARSE_FAIL");
    reveal_strlit("IR_DIFF");
    reveal_strlit("PKG_FAIL");
    reveal_strlit("ROUND2_FAIL");
    reveal_strlit("ROUND2_DIFF");
    reveal_strlit("PASS");
    let s = status_text(r);
    assert forall|i: int| 0 <= i < s.len() implies s[i] != '\t' by {}
    lemma_no_tabs(s);
}

proof fn lemma_bool_no_tabs(b: bool)
    ensures
        tab_count(bool_text(b)) == 0,
{
    reveal_strlit("true");
    reveal_strlit("false");
    let s = bool_text(b);
    assert forall|i: int| 0 <= i < s.len() implies s[i] != '\t' by {}
    lemma_no_tabs(s);
}

proof fn lemma_escaped_no_tabs(s: Seq<char>)
    ensures
        tab_count(tsv_escaped(s)) == 0,
{
    lemma_tsv_escaped_is_one_cell(s);
    lemma_no_tabs(tsv_escaped(s));
}

/// The difference-count cell of a row: its count in decimal, `-` when the
/// comparison did not run.
pub open spec fn ir_count_cell(r: RoundtripRow) -> Seq<char> {
    match r.ir_diff_count {
        Some(n) => decimal(n as nat),
        None => seq!['-'],
    }
}

proof fn lemma_tab_is_one_tab()
    ensures
        tab_count(seq!['\t']) == 1,
{
    let tab = seq!['\t'];
    assert(tab_count(Seq::<char>::empty()) == 0);
    assert(tab.drop_last() =~= Seq::<char>::empty());
    assert(tab_count(tab) == tab_count(tab.drop_last()) + 1);
}

proof fn lemma_lead_has_two_tabs(r: RoundtripRow)
    ensures
        tab_count(tsv_line_lead(r)) == 2,
{
    let tab = seq!['\t'];
    lemma_tab_is_one_tab();
    lemma_escaped_no_tabs(r.rel_path@);
    lemma_status_no_tabs(r);
    let e = tsv_escaped(r.rel_path@);
    let st = status_text(r);
    lemma_tab_count_add(e, tab);
    lemma_tab_count_add(e + tab, st);
    lemma_tab_count_add(e + tab + st, tab);
}

proof fn lemma_flags_have_three_tabs(r: RoundtripRow)
    ensures
        tab_count(tsv_line_flags(r)) == 3,
        tsv_line_flags(r).len() > 0,
        tsv_line_flags(r).last() == '\t',
{
    let tab = seq!['\t'];
    lemma_tab_is_one_tab();
    lemma_bool_no_tabs(r.parse_ok);
    lemma_bool_no_tabs(r.serialize_ok);
    lemma_bool_no_tabs(r.reparse_ok);
    let b1 = bool_text(r.parse_ok);
    let b2 = bool_text(r.serialize_ok);
    let b3 = bool_text(r.reparse_ok);
    lemma_tab_count_add(b1, tab);
    lemma_tab_count_add(b1 + tab, b2);
    lemma_tab_count_add(b1 + tab + b2, tab);
    lemma_tab_count_add(b1 + tab + b2 + tab, b3);
    lemma_tab_count_add(b1 + tab + b2 + tab + b3, tab);
}

proof fn lemma_regroup(a: Seq<char>, b: Seq<char>, c: Seq<char>, d: Seq<char>, e: Seq<char>)
    ensures
        a + (b + c + d) + e == a + b + c + (d + e),
{
    assert(a + (b + c + d) + e =~= a + b + c + (d + e));
}

proof fn lemma_checks_start_with_ir_count(r: RoundtripRow)
    ensures
        tsv_line_checks(r) == ir_count_cell(r) + seq!['\t'] + (bool_text(r.pkg_ok) + seq!['\t']
            + bool_text(r.round2_ok) + seq!['\t'] + count_or_dash(r.round2_diff_count)
            + seq!['\t']),
{
    reveal_strlit("-");
    assert(count_or_dash(r.ir_diff_count) =~= ir_count_cell(r));
    let tab = seq!['\t'];
    let b = bool_text(r.pkg_ok);
    let c = bool_text(r.round2_ok);
    let d = count_or_dash(r.round2_diff_count);
    let x = ir_count_cell(r);
    assert(x + tab + b + tab + c + tab + d + tab =~= x + tab + (b + tab + c + tab + d + tab));
}

proof fn lemma_ir_count_cell_no_tabs(r: RoundtripRow)
    ensures
        tab_count(ir_count_cell(r)) == 0,
{
    reveal_strlit("-");
    let cell = ir_count_cell(r);
    match r.ir_diff_count {
        Some(n) => lemma_decimal_no_tabs(n as nat),
        None => {
            assert(tab_count(Seq::<char>::empty()) == 0);
            assert(cell.drop_last() =~= Seq::<char>::empty());
            assert(tab_count(cell) == tab_count(cell.drop_last()));
        },
    }
}

/// The sixth cell of a row's inventory line (after exactly five tabs, up to
/// the next tab) is the row's first-round difference count, whatever the
/// second round found.
pub proof fn lemma_inventory_sixth_cell_is_ir_count(r: RoundtripRow)
    ensures
        tab_count(ir_count_cell(r)) == 0,
        exists|pre: Seq<char>, rest: Seq<char>|
            tsv_line(r) == pre + ir_count_cell(r) + seq!['\t'] + rest
            && tab_count(pre) == 5 && pre.len() > 0 && pre.last() == '\t',
{
    let tab = seq!['\t'];
    let cell = ir_count_cell(r);
    lemma_ir_count_cell_no_tabs(r);
    let lead = tsv_line_lead(r);
    let flags = tsv_line_flags(r);
    lemma_lead_has_two_tabs(r);
    lemma_flags_have_three_tabs(r);
    let pre = lead + flags;
    lemma_tab_count_add(lead, flags);
    assert(pre.last() == flags.last());
    lemma_checks_start_with_ir_count(r);
    let mid = bool_text(r.pkg_ok) + tab + bool_text(r.round2_ok) + tab
        + count_or_dash(r.round2_diff_count) + tab;
    let texts = tsv_line_texts(r);
    assert(tsv_line(r) == pre + (cell + tab + mid) + texts);
    lemma_regroup(pre, cell, tab, mid, texts);
    assert(tsv_line(r) == pre + cell + tab + (mid + texts));
}

} // verus!
