use rhwp::height_cursor::{
    choose_correction, gap_moves_base, injected_between_notes, Correction, CorrectionFlags,
    lazy_vpos_base, para_has_visible_text, para_hosts_para_table, para_is_blank, para_is_question_title,
    para_is_treat_as_char_equation_only, para_is_treat_as_char_picture_only, select_prev_line_seg,
    trailing_line_spacing, vpos_target, VposBases,
};
use rhwp::model::{
    CommonObjAttr, Control, DrawingShape, Equation, LineSeg, Paragraph, Picture, ShapeObject, Table,
    TextWrap, VertRelTo,
};
use rhwp::text::{decimal_string, push_decimal};

fn attr(treat_as_char: bool, wrap: TextWrap, rel: VertRelTo) -> CommonObjAttr {
    CommonObjAttr { treat_as_char, text_wrap: wrap, vert_rel_to: rel }
}

fn para(text: &str, controls: Vec<Control>) -> Paragraph {
    let mut p = Paragraph::default();
    p.text = text.to_string();
    p.controls = controls;
    p
}

fn seg(vpos: i32, lh: i32, ls: i32, w: i32) -> LineSeg {
    LineSeg { vertical_pos: vpos, line_height: lh, line_spacing: ls, segment_width: w }
}

#[test]
fn decimal_text() {
    assert_eq!(decimal_string(0), "0");
    assert_eq!(decimal_string(120), "120");
    assert_eq!(decimal_string(u128::MAX), u128::MAX.to_string());
    let mut s = "x가".to_string();
    push_decimal(&mut s, 9);
    push_decimal(&mut s, 10);
    assert_eq!(s, "x가910");
}

#[test]
fn visible_text() {
    assert!(!para_has_visible_text(&para("", vec![])));
    assert!(!para_has_visible_text(&para("\u{0001}\u{001F}\u{FFFC}", vec![])));
    assert!(para_has_visible_text(&para("\u{FFFC} ", vec![])));
    assert!(para_has_visible_text(&para("가", vec![])));
}

#[test]
fn inline_equation_and_picture() {
    let eq = |t| Control::Equation(Box::new(Equation { common: attr(t, TextWrap::Square, VertRelTo::Para) }));
    let pic = |t| Control::Picture(Box::new(Picture { common: attr(t, TextWrap::Square, VertRelTo::Para) }));
    let shape = |t| {
        Control::Shape(Box::new(ShapeObject::Line(DrawingShape { common: attr(t, TextWrap::Square, VertRelTo::Para), text_box: None })))
    };
    assert!(para_is_treat_as_char_equation_only(&para("\u{FFFC}", vec![Control::Other, eq(true)])));
    assert!(!para_is_treat_as_char_equation_only(&para("\u{FFFC}", vec![eq(false)])));
    assert!(!para_is_treat_as_char_equation_only(&para("x", vec![eq(true)])));
    assert!(para_is_treat_as_char_picture_only(&para(" \t\u{3000}", vec![pic(true)])));
    assert!(para_is_treat_as_char_picture_only(&para("", vec![shape(true)])));
    assert!(!para_is_treat_as_char_picture_only(&para("", vec![shape(false)])));
    assert!(!para_is_treat_as_char_picture_only(&para("\u{FFFC}", vec![pic(true)])));
}

#[test]
fn para_table_host_and_titles() {
    let table = |t, w, r| Control::Table(Box::new(Table { common: attr(t, w, r), cells: vec![] }));
    assert!(para_hosts_para_table(&para("", vec![table(false, TextWrap::TopAndBottom, VertRelTo::Para)])));
    assert!(!para_hosts_para_table(&para("", vec![table(true, TextWrap::TopAndBottom, VertRelTo::Para)])));
    assert!(!para_hosts_para_table(&para("", vec![table(false, TextWrap::Square, VertRelTo::Para)])));
    assert!(!para_hosts_para_table(&para("", vec![table(false, TextWrap::TopAndBottom, VertRelTo::Page)])));
    assert!(para_is_question_title(&para("  문11) 다음", vec![])));
    assert!(!para_is_question_title(&para("따라서 문11)", vec![])));
    assert!(!para_is_question_title(&para("   ", vec![])));
    assert!(para_is_blank(&para(" \u{00A0}\n", vec![])));
    assert!(!para_is_blank(&para(" a ", vec![])));
}

#[test]
fn previous_line_segment() {
    assert_eq!(select_prev_line_seg(&vec![]), None);
    let segs = vec![seg(0, 1, 0, 100), seg(10, 1, 0, 200), seg(20, 1, 0, 0)];
    assert_eq!(select_prev_line_seg(&segs), Some(seg(10, 1, 0, 200)));
    let segs = vec![seg(0, 1, 0, 0), seg(20, 1, 0, -1)];
    assert_eq!(select_prev_line_seg(&segs), Some(seg(20, 1, 0, -1)));
    assert_eq!(seg(1000, 1000, 50, 1).vpos_end(), 2050);
}

#[test]
fn trailing_spacing_and_lazy_base() {
    let mut prev = para("text", vec![]);
    prev.line_segs = vec![seg(1000, 1000, 300, 500)];
    assert_eq!(trailing_line_spacing(&prev, Some(2300), 2300), 0);
    assert_eq!(trailing_line_spacing(&prev, Some(2400), 2300), 300);
    assert_eq!(trailing_line_spacing(&prev, None, 2300), 300);
    let mut empty = para("", vec![]);
    empty.line_segs = vec![seg(1000, 1000, -5, 500)];
    assert_eq!(trailing_line_spacing(&empty, Some(2000), 2000), 0);
    // Lazy base from the test case in the cursor's own suite: y delta 1500 HU.
    assert_eq!(lazy_vpos_base(2000, 1500, 0), Some(500));
    assert_eq!(lazy_vpos_base(2000, 1500, 300), Some(200));
    assert_eq!(lazy_vpos_base(2000, 1900, 300), Some(100));
    assert_eq!(lazy_vpos_base(2000, 2100, 300), None);
}

#[test]
fn vpos_targets() {
    assert_eq!(vpos_target(Some(2000), 1000, false, false, 2000), 2000);
    assert_eq!(vpos_target(Some(2200), 1000, false, false, 2000), 2200);
    assert_eq!(vpos_target(Some(2200), 1000, false, true, 2000), 2000);
    assert_eq!(vpos_target(Some(45000), 55350, true, false, 56250), 45000);
    assert_eq!(vpos_target(Some(45000), 55350, false, false, 56250), 56250);
    assert_eq!(vpos_target(None, 55350, true, false, 56250), 56250);
}

#[test]
fn vpos_base_moves() {
    let mut b = VposBases { page: Some(100), lazy: Some(7) };
    b.shift_for_rendered_delta(0);
    assert_eq!(b, VposBases { page: Some(100), lazy: Some(7) });
    b.shift_for_rendered_delta(30);
    assert_eq!(b, VposBases { page: Some(70), lazy: Some(7) });
    let mut b = VposBases { page: None, lazy: Some(500) };
    b.shift_for_rendered_delta(-4);
    assert_eq!(b.lazy, Some(500));
    b.shift_for_rendered_delta(40);
    assert_eq!(b, VposBases { page: None, lazy: Some(460) });
    assert_eq!(b.active(), Some((460, false)));
    let mut n = VposBases { page: None, lazy: None };
    n.shift_for_rendered_delta(5);
    assert_eq!(n.active(), None);
    let mut m = VposBases { page: Some(10), lazy: None };
    m.move_base(true, 10, 5);
    assert_eq!(m.active(), Some((15, true)));
    m.move_base(false, 3, -2);
    assert_eq!(m, VposBases { page: Some(15), lazy: Some(1) });
    m.move_base(false, 3, 0);
    assert_eq!(m.lazy, Some(1));
}

fn no_flags() -> CorrectionFlags {
    CorrectionFlags {
        applied: false,
        stale_forward: false,
        title_bottom_backtrack: false,
        page_tail_backtrack: false,
        text_after_tall_tail_backtrack: false,
        question_title_bottom_fit: false,
        equation_tail_fit: false,
        single_line_tail_backtrack: false,
        title_tail_backtrack: false,
        deep_backtrack: false,
        safe_vpos_backtrack: false,
        new_note_jump: false,
        tac_picture_gap: false,
        stale_note_gap: false,
    }
}

#[test]
fn correction_priority() {
    assert_eq!(choose_correction(&no_flags()), Correction::Keep);
    let mut f = no_flags();
    f.applied = true;
    assert_eq!(choose_correction(&f), Correction::EndY);
    f.stale_forward = true;
    assert_eq!(choose_correction(&f), Correction::Keep);
    f.stale_note_gap = true;
    assert_eq!(choose_correction(&f), Correction::StaleNoteGap);
    f.new_note_jump = true;
    assert_eq!(choose_correction(&f), Correction::NewNoteGapCap);
    f.title_tail_backtrack = true;
    assert_eq!(choose_correction(&f), Correction::LimitedBacktrack);
    f.single_line_tail_backtrack = true;
    assert_eq!(choose_correction(&f), Correction::EndY);
    f.equation_tail_fit = true;
    assert_eq!(choose_correction(&f), Correction::EquationTailFit);
    f.question_title_bottom_fit = true;
    assert_eq!(choose_correction(&f), Correction::QuestionTitleBottomFit);
    f.text_after_tall_tail_backtrack = true;
    assert_eq!(choose_correction(&f), Correction::EndYBelowPreviousContent);
    f.title_bottom_backtrack = true;
    assert_eq!(choose_correction(&f), Correction::EndY);
    let mut g = no_flags();
    g.deep_backtrack = true;
    assert_eq!(choose_correction(&g), Correction::EndY);
    g.tac_picture_gap = true;
    assert_eq!(choose_correction(&g), Correction::Keep);
}

#[test]
fn gap_base_moves_and_injected_gap() {
    let mut f = no_flags();
    assert!(!gap_moves_base(&f));
    f.new_note_jump = true;
    assert!(!gap_moves_base(&f));
    f.applied = true;
    assert!(gap_moves_base(&f));
    let mut g = no_flags();
    g.stale_note_gap = true;
    assert!(gap_moves_base(&g));
    assert!(injected_between_notes(1984, 1984));
    assert!(!injected_between_notes(1984, 1000));
    assert!(!injected_between_notes(0, 1000));
}
