use rhwp::hwpx_roundtrip_batch::{
    any_failure, inventory_tsv, parse_args, progress_line, rt_file_name, summarize, tsv_escape,
    Round2Failure, RoundtripChecks, RoundtripFailure, RoundtripRow,
};
use rhwp::roundtrip::{IrDiff, IrDifference};

#[test]
fn parse_args_single_file() {
    let args = vec!["sample.hwpx".to_string()];
    let o = parse_args(&args).unwrap();
    assert_eq!(o.input, "sample.hwpx");
    assert!(!o.batch);
    assert_eq!(o.out_dir, "output/poc/task1315");
}

#[test]
fn parse_args_batch_with_out() {
    let args = vec![
        "--batch".to_string(),
        "samples/hwpx".to_string(),
        "-o".to_string(),
        "output/poc/x".to_string(),
    ];
    let o = parse_args(&args).unwrap();
    assert!(o.batch);
    assert_eq!(o.input, "samples/hwpx");
    assert_eq!(o.out_dir, "output/poc/x");
}

#[test]
fn parse_args_rejects_unknown_option() {
    let args = vec!["--nope".to_string()];
    assert!(parse_args(&args).is_err());
}

#[test]
fn parse_args_requires_input() {
    let args: Vec<String> = vec![];
    assert!(parse_args(&args).is_err());
}

#[test]
fn tsv_escape_strips_tabs_newlines() {
    assert_eq!(tsv_escape("a\tb\nc"), "a b c");
}

// ----- further cases -----

#[test]
fn parse_args_messages() {
    let v = |xs: &[&str]| xs.iter().map(|s| s.to_string()).collect::<Vec<_>>();
    assert_eq!(parse_args(&v(&["--nope"])).unwrap_err(), "알 수 없는 옵션: --nope");
    assert_eq!(parse_args(&v(&["a.hwpx", "b.hwpx"])).unwrap_err(), "입력 경로가 중복 지정됨: b.hwpx");
    assert_eq!(parse_args(&v(&["a.hwpx", "-o"])).unwrap_err(), "-o 다음에 출력 폴더가 필요합니다");
    assert_eq!(
        parse_args(&v(&[])).unwrap_err(),
        "사용법: rhwp hwpx-roundtrip <입력.hwpx | --batch 폴더> [-o 출력폴더]"
    );
    let o = parse_args(&v(&["--out", "-dir", "x.hwpx"])).unwrap();
    assert_eq!(o.out_dir, "-dir");
    assert_eq!(o.input, "x.hwpx");
}

fn row(parse_ok: bool, serialize_ok: bool, reparse_ok: bool, count: Option<usize>) -> RoundtripRow {
    RoundtripRow {
        rel_path: "a/b.hwpx".to_string(),
        parse_ok,
        serialize_ok,
        reparse_ok,
        ir_diff_count: count,
        pkg_ok: true,
        pkg_issues: String::new(),
        round2_ok: true,
        round2_diff_count: Some(0),
        round2_error: String::new(),
        ir_diff_summary: String::new(),
        elapsed_ms: 42,
        error: String::new(),
    }
}

#[test]
fn status_words() {
    assert_eq!(row(false, false, false, None).status(), "PARSE_FAIL");
    assert_eq!(row(true, false, false, None).status(), "SERIALIZE_FAIL");
    assert_eq!(row(true, true, false, None).status(), "REPARSE_FAIL");
    assert_eq!(row(true, true, true, Some(0)).status(), "PASS");
    assert_eq!(row(true, true, true, Some(2)).status(), "IR_DIFF");
    let mut r = row(true, true, true, Some(0));
    r.round2_diff_count = Some(1);
    assert_eq!(r.status(), "ROUND2_DIFF");
    r.round2_ok = false;
    r.round2_diff_count = None;
    assert_eq!(r.status(), "ROUND2_FAIL");
    r.pkg_ok = false;
    assert_eq!(r.status(), "PKG_FAIL");
    r.ir_diff_count = Some(3);
    assert_eq!(r.status(), "IR_DIFF");
}

fn checks(diff: IrDiff) -> RoundtripChecks {
    RoundtripChecks { diff, package: Ok(()), round2: Ok(IrDiff::default()) }
}

#[test]
fn rows_from_outcomes() {
    let mut d = IrDiff::default();
    d.push(IrDifference::SectionCount { expected: 1, actual: 2 });
    d.push(IrDifference::StyleCount { expected: 3, actual: 4 });
    let r = RoundtripRow::from_outcome("x.hwpx".to_string(), Ok(checks(d)), 7);
    assert_eq!(r.status(), "IR_DIFF");
    assert_eq!(r.ir_diff_count, Some(2));
    assert_eq!(r.ir_diff_summary, "section count: expected=1 actual=2; styles count: expected=3 actual=4");
    assert_eq!(r.error, "");
    assert_eq!(r.elapsed_ms, 7);

    let r = RoundtripRow::from_outcome("x.hwpx".to_string(), Ok(checks(IrDiff::default())), 1);
    assert_eq!(r.status(), "PASS");
    assert!(r.pkg_ok && r.round2_ok);
    assert_eq!(r.round2_diff_count, Some(0));

    let mut c = checks(IrDiff::default());
    c.package = Err("mimetype not first".to_string());
    let r = RoundtripRow::from_outcome("x.hwpx".to_string(), Ok(c), 1);
    assert_eq!((r.status(), r.pkg_issues.as_str()), ("PKG_FAIL", "mimetype not first"));

    let mut c = checks(IrDiff::default());
    c.round2 = Err(Round2Failure::Reparse("bad zip".to_string()));
    let r = RoundtripRow::from_outcome("x.hwpx".to_string(), Ok(c), 1);
    assert_eq!((r.status(), r.round2_error.as_str()), ("ROUND2_FAIL", "2차 재파싱 실패: bad zip"));
    assert_eq!(r.error, "");
    assert_eq!(r.round2_diff_count, None);

    let mut c = checks(IrDiff::default());
    c.round2 = Err(Round2Failure::Serialize("w".to_string()));
    let r = RoundtripRow::from_outcome("x.hwpx".to_string(), Ok(c), 1);
    assert_eq!(r.round2_error, "2차 직렬화 실패: w");
    assert!(r.error.is_empty() && r.reparse_ok);

    let mut c = checks(IrDiff::default());
    let mut d2 = IrDiff::default();
    d2.push(IrDifference::SectionCount { expected: 1, actual: 0 });
    c.round2 = Ok(d2);
    let r = RoundtripRow::from_outcome("x.hwpx".to_string(), Ok(c), 1);
    assert_eq!((r.status(), r.round2_diff_count), ("ROUND2_DIFF", Some(1)));

    let r = RoundtripRow::from_outcome("x.hwpx".to_string(), Err(RoundtripFailure::Parse("bad".to_string())), 3);
    assert_eq!(r.status(), "PARSE_FAIL");
    assert_eq!(r.error, "파싱 실패: bad");
    assert_eq!(r.ir_diff_count, None);

    let r = RoundtripRow::from_outcome("x".to_string(), Err(RoundtripFailure::Read("io".to_string())), 3);
    assert_eq!((r.parse_ok, r.error.as_str()), (false, "읽기 실패: io"));
    let r = RoundtripRow::from_outcome("x".to_string(), Err(RoundtripFailure::Serialize("s".to_string())), 3);
    assert_eq!((r.parse_ok, r.serialize_ok, r.status()), (true, false, "SERIALIZE_FAIL"));
    assert_eq!(r.error, "직렬화 실패: s");
    let r = RoundtripRow::from_outcome("x".to_string(), Err(RoundtripFailure::CreateDir("d".to_string())), 3);
    assert_eq!((r.serialize_ok, r.reparse_ok, r.error.as_str()), (true, false, "출력 폴더 생성 실패: d"));
    let r = RoundtripRow::from_outcome("x".to_string(), Err(RoundtripFailure::Write("w".to_string())), 3);
    assert_eq!(r.error, "재조립 파일 쓰기 실패: w");
    let r = RoundtripRow::from_outcome("x".to_string(), Err(RoundtripFailure::Reparse("r".to_string())), 3);
    assert_eq!((r.status(), r.error.as_str()), ("REPARSE_FAIL", "재파싱 실패: r"));
}

#[test]
fn inventory_text() {
    let mut a = row(true, true, true, Some(0));
    a.rel_path = "ref\tx.hwpx".to_string();
    let mut b = row(false, false, false, None);
    b.error = "파싱 실패: line1\nline2".to_string();
    b.elapsed_ms = 1234;
    b.pkg_ok = false;
    b.round2_ok = false;
    b.round2_diff_count = None;
    let mut c = row(true, true, true, Some(0));
    c.pkg_ok = false;
    c.pkg_issues = "missing\tsettings.xml".to_string();
    let tsv = inventory_tsv(&vec![a, b, c]);
    assert_eq!(
        tsv,
        "sample\tstatus\tparse_ok\tserialize_ok\treparse_ok\tir_diff_count\tpkg_ok\tround2_ok\tround2_diff_count\telapsed_ms\terror\tir_diff_summary\tpkg_issues\n\
         ref x.hwpx\tPASS\ttrue\ttrue\ttrue\t0\ttrue\ttrue\t0\t42\t\t\t\n\
         a/b.hwpx\tPARSE_FAIL\tfalse\tfalse\tfalse\t-\tfalse\tfalse\t-\t1234\t파싱 실패: line1 line2\t\t\n\
         a/b.hwpx\tPKG_FAIL\ttrue\ttrue\ttrue\t0\tfalse\ttrue\t0\t42\t\t\tmissing settings.xml\n"
    );
    for line in tsv.lines() {
        assert_eq!(line.split('\t').count(), 13);
    }
}

#[test]
fn summary_and_failures() {
    let mut pkg = row(true, true, true, Some(0));
    pkg.pkg_ok = false;
    let mut r2f = row(true, true, true, Some(0));
    r2f.round2_ok = false;
    let mut r2d = row(true, true, true, Some(0));
    r2d.round2_diff_count = Some(2);
    let rows = vec![
        row(true, true, true, Some(0)),
        row(true, true, true, Some(3)),
        row(true, true, true, Some(0)),
        row(false, false, false, None),
        row(true, false, false, None),
        pkg,
        r2f,
        r2d,
    ];
    let s = summarize(&rows);
    assert_eq!(
        (s.total, s.pass, s.ir_diff, s.parse_fail, s.serialize_fail, s.reparse_fail),
        (8, 2, 1, 1, 1, 0)
    );
    assert_eq!((s.pkg_fail, s.round2_fail, s.round2_diff), (1, 1, 1));
    assert!(any_failure(&rows));
    assert!(!any_failure(&rows[..3].to_vec()));
    assert!(!any_failure(&rows[5..].to_vec()));
    assert!(!any_failure(&Vec::new()));
}

#[test]
fn rt_file_name_keeps_stem() {
    assert_eq!(rt_file_name(Some("ref_text".to_string())), "ref_text.rt.hwpx");
}

#[test]
fn rt_file_name_without_stem() {
    assert_eq!(rt_file_name(None), "output.rt.hwpx");
}

#[test]
fn rt_file_names() {
    assert_eq!(rt_file_name(Some("ref_text".to_string())), "ref_text.rt.hwpx");
    assert_eq!(rt_file_name(None), "output.rt.hwpx");
}

#[test]
fn progress_lines() {
    let r = row(true, true, true, Some(0));
    assert_eq!(progress_line(&r), "[          PASS] diff=  0     42ms  a/b.hwpx");
    let mut r = row(false, false, false, None);
    r.elapsed_ms = 1234567;
    assert_eq!(progress_line(&r), "[    PARSE_FAIL] diff=  - 1234567ms  a/b.hwpx");
}
