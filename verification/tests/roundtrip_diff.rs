use rhwp::model::{
    Cell, CharShapeRef, CommonObjAttr, Control, DocInfo, Document, DrawingShape, Endnote, Footnote, LineSeg,
    GroupShape, Paragraph, Section, ShapeObject, Table, TextBox, TextWrap, VertRelTo,
};
use rhwp::roundtrip::{diff_documents, roundtrip_ir_diff, IrDiff, IrDiffAllow, IrDifference, SerializeError};

fn common() -> CommonObjAttr {
    CommonObjAttr { treat_as_char: false, text_wrap: TextWrap::Square, vert_rel_to: VertRelTo::Para }
}

fn to_refs(refs: &[(u32, u32)]) -> Vec<CharShapeRef> {
    refs.iter()
        .map(|&(start_pos, char_shape_id)| CharShapeRef { start_pos, char_shape_id })
        .collect()
}

fn para_with(refs: &[(u32, u32)]) -> Paragraph {
    let mut p = Paragraph::default();
    p.char_shapes = to_refs(refs);
    p
}

fn doc_with_char_shapes(refs: &[(u32, u32)]) -> Document {
    let mut doc = Document::default();
    let mut section = Section::default();
    section.paragraphs.push(para_with(refs));
    doc.sections.push(section);
    doc
}

fn doc_with_control(ctrl: Control) -> Document {
    let mut para = Paragraph::default();
    para.controls.push(ctrl);
    let mut doc = Document::default();
    let mut section = Section::default();
    section.paragraphs.push(para);
    doc.sections.push(section);
    doc
}

fn table_control(cell_refs: &[(u32, u32)]) -> Control {
    let cell = Cell { paragraphs: vec![para_with(cell_refs)] };
    Control::Table(Box::new(Table { common: common(), cells: vec![cell] }))
}

fn textbox_control(refs: &[(u32, u32)]) -> Control {
    let rect = DrawingShape { common: common(), text_box: Some(TextBox { paragraphs: vec![para_with(refs)] }) };
    Control::Shape(Box::new(ShapeObject::Rectangle(rect)))
}

fn footnote_control(refs: &[(u32, u32)]) -> Control {
    Control::Footnote(Box::new(Footnote { paragraphs: vec![para_with(refs)] }))
}

fn assert_single_char_shapes_diff(diff: &IrDiff, expected_path: &str) {
    assert_eq!(diff.differences.len(), 1, "{:?}", diff);
    match &diff.differences[0] {
        IrDifference::ParagraphCharShapes { path, .. } => assert_eq!(path, expected_path),
        other => panic!("expected ParagraphCharShapes: {:?}", other),
    }
}

#[test]
fn ir_diff_empty_default() {
    let diff = IrDiff::default();
    assert!(diff.is_empty());
}

#[test]
fn diff_documents_empty_is_empty() {
    let a = Document::default();
    let b = Document::default();
    let diff = diff_documents(&a, &b);
    assert!(diff.is_empty(), "empty vs empty must have no diff");
}

#[test]
fn diff_documents_same_char_shapes_is_empty() {
    let a = doc_with_char_shapes(&[(0, 5), (3, 2), (10, 5)]);
    let b = doc_with_char_shapes(&[(0, 5), (3, 2), (10, 5)]);
    assert!(diff_documents(&a, &b).is_empty());
}

#[test]
fn diff_documents_detects_flattened_char_shapes() {
    let a = doc_with_char_shapes(&[(0, 5), (3, 2)]);
    let b = doc_with_char_shapes(&[(0, 5)]);
    let diff = diff_documents(&a, &b);
    assert_eq!(diff.differences.len(), 1);
    match &diff.differences[0] {
        IrDifference::ParagraphCharShapes { section, paragraph, path, expected, actual } => {
            assert_eq!(*section, 0);
            assert_eq!(*paragraph, 0);
            assert_eq!(path, "");
            assert_eq!(expected, "[(0,5),(3,2)]");
            assert_eq!(actual, "[(0,5)]");
        }
        other => panic!("expected ParagraphCharShapes: {:?}", other),
    }
}

#[test]
fn diff_documents_detects_char_shape_pos_change() {
    let a = doc_with_char_shapes(&[(0, 5), (3, 2)]);
    let b = doc_with_char_shapes(&[(0, 5), (4, 2)]);
    let diff = diff_documents(&a, &b);
    assert_eq!(diff.differences.len(), 1);
    assert!(matches!(diff.differences[0], IrDifference::ParagraphCharShapes { .. }));
}

#[test]
fn diff_documents_detects_cell_char_shapes() {
    let a = doc_with_control(table_control(&[(0, 1), (3, 2)]));
    let b = doc_with_control(table_control(&[(0, 1)]));
    assert_single_char_shapes_diff(&diff_documents(&a, &b), "/ctrl[0]tbl.cell[0].p[0]");
}

#[test]
fn diff_documents_same_cell_char_shapes_is_empty() {
    let a = doc_with_control(table_control(&[(0, 1), (3, 2)]));
    let b = doc_with_control(table_control(&[(0, 1), (3, 2)]));
    assert!(diff_documents(&a, &b).is_empty());
}

#[test]
fn diff_documents_detects_textbox_char_shapes() {
    let a = doc_with_control(textbox_control(&[(0, 1), (3, 2)]));
    let b = doc_with_control(textbox_control(&[(0, 1)]));
    assert_single_char_shapes_diff(&diff_documents(&a, &b), "/ctrl[0]shape.tb.p[0]");
}

#[test]
fn diff_documents_detects_footnote_char_shapes() {
    let a = doc_with_control(footnote_control(&[(0, 1), (3, 2)]));
    let b = doc_with_control(footnote_control(&[(0, 1)]));
    assert_single_char_shapes_diff(&diff_documents(&a, &b), "/ctrl[0]fn.p[0]");
}

#[test]
fn diff_documents_detects_section_count() {
    let a = Document::default();
    let mut b = Document::default();
    b.sections.push(Section::default());
    let diff = diff_documents(&a, &b);
    assert_eq!(diff.differences.len(), 1);
    assert!(matches!(diff.differences[0], IrDifference::SectionCount { expected: 0, actual: 1 }));
}

// ----- further cases -----

fn group_control(children: Vec<ShapeObject>) -> Control {
    Control::Shape(Box::new(ShapeObject::Group(GroupShape { common: common(), children })))
}

fn ellipse_with(refs: &[(u32, u32)]) -> ShapeObject {
    ShapeObject::Ellipse(DrawingShape { common: common(), text_box: Some(TextBox { paragraphs: vec![para_with(refs)] }) })
}

#[test]
fn group_child_textbox_path() {
    let a = doc_with_control(group_control(vec![ellipse_with(&[(0, 1)]), ellipse_with(&[(0, 1), (2, 3)])]));
    let b = doc_with_control(group_control(vec![ellipse_with(&[(0, 1)]), ellipse_with(&[(0, 1)])]));
    assert_single_char_shapes_diff(&diff_documents(&a, &b), "/ctrl[0]shape.child[1].tb.p[0]");
}

#[test]
fn endnote_path_and_second_control_index() {
    let mk = |refs: &[(u32, u32)]| {
        let mut para = Paragraph::default();
        para.controls.push(Control::Other);
        para.controls.push(Control::Endnote(Box::new(Endnote { paragraphs: vec![para_with(&[]), para_with(refs)] })));
        let mut doc = Document::default();
        let mut s = Section::default();
        s.paragraphs.push(Paragraph::default());
        s.paragraphs.push(para);
        doc.sections.push(s);
        doc
    };
    let diff = diff_documents(&mk(&[(0, 7)]), &mk(&[(0, 8)]));
    assert_eq!(diff.differences.len(), 1);
    match &diff.differences[0] {
        IrDifference::ParagraphCharShapes { section, paragraph, path, expected, actual } => {
            assert_eq!((*section, *paragraph), (0, 1));
            assert_eq!(path, "/ctrl[1]en.p[1]");
            assert_eq!(expected, "[(0,7)]");
            assert_eq!(actual, "[(0,8)]");
        }
        other => panic!("{:?}", other),
    }
}

#[test]
fn mismatched_control_kinds_are_not_entered() {
    let a = doc_with_control(table_control(&[(0, 1)]));
    let b = doc_with_control(footnote_control(&[(0, 2)]));
    assert!(diff_documents(&a, &b).is_empty());
}

#[test]
fn counts_and_report_order() {
    let mut a = doc_with_char_shapes(&[(0, 1)]);
    let mut b = doc_with_char_shapes(&[(0, 2)]);
    b.sections[0].paragraphs.push(Paragraph::default());
    a.doc_info = DocInfo { char_shape_count: 3, para_shape_count: 1, border_fill_count: 2, tab_def_count: 0, numbering_count: 0, style_count: 4 };
    b.doc_info = DocInfo { char_shape_count: 2, para_shape_count: 1, border_fill_count: 2, tab_def_count: 1, numbering_count: 0, style_count: 4 };
    a.bin_data_content_count = 1;
    let diff = diff_documents(&a, &b);
    let texts: Vec<String> = diff.differences.iter().map(|d| d.to_string()).collect();
    assert_eq!(
        texts,
        vec![
            "section[0] paragraph count: expected=1 actual=2".to_string(),
            "section[0] paragraph[0] char_shapes: expected=[(0,1)] actual=[(0,2)]".to_string(),
            "char_shapes count: expected=3 actual=2".to_string(),
            "tab_defs count: expected=0 actual=1".to_string(),
            "bin_data_content count: expected=1 actual=0".to_string(),
        ]
    );
}

#[test]
fn difference_texts() {
    let d = IrDifference::SectionCount { expected: 2, actual: 10 };
    assert_eq!(d.to_string(), "section count: expected=2 actual=10");
    let d = IrDifference::ParaShapeCount { expected: 0, actual: 1 };
    assert_eq!(d.to_string(), "para_shapes count: expected=0 actual=1");
    let d = IrDifference::BorderFillCount { expected: 5, actual: 4 };
    assert_eq!(d.to_string(), "border_fills count: expected=5 actual=4");
    let d = IrDifference::NumberingCount { expected: 1, actual: 0 };
    assert_eq!(d.to_string(), "numberings count: expected=1 actual=0");
    let d = IrDifference::StyleCount { expected: 12, actual: 11 };
    assert_eq!(d.to_string(), "styles count: expected=12 actual=11");
    let d = IrDifference::ParagraphCharShapes {
        section: 1,
        paragraph: 3,
        path: "/ctrl[0]fn.p[2]".to_string(),
        expected: "[(0,1)]".to_string(),
        actual: "[]".to_string(),
    };
    assert_eq!(d.to_string(), "section[1] paragraph[3]/ctrl[0]fn.p[2] char_shapes: expected=[(0,1)] actual=[]");
}

#[test]
fn push_and_allowed() {
    let mut diff = IrDiff::default();
    assert!(diff.allowed(IrDiffAllow { shape_raw: true }));
    diff.push(IrDifference::StyleCount { expected: 1, actual: 2 });
    assert!(!diff.is_empty());
    assert_eq!(diff.differences.len(), 1);
    assert!(!diff.allowed(IrDiffAllow { shape_raw: true }));
    assert!(!diff.allowed(IrDiffAllow::default()));
}

fn nested_doc(last: u32) -> Document {
    let mut d = doc_with_control(table_control(&[(0, 1), (4, last)]));
    d.sections[0].paragraphs[0].controls.push(textbox_control(&[(0, last)]));
    d.sections[0].paragraphs[0].controls.push(footnote_control(&[(1, 1)]));
    d
}

#[test]
fn law_document_against_itself_is_clean() {
    let d = nested_doc(9);
    assert!(diff_documents(&d, &d).is_empty());
}

#[test]
fn law_other_way_round_swaps_expected_and_actual() {
    let a = nested_doc(9);
    let b = nested_doc(8);
    let ab = diff_documents(&a, &b);
    let ba = diff_documents(&b, &a);
    assert_eq!(ab.differences.len(), 2);
    assert_eq!(ba.differences.len(), 2);
    for (x, y) in ab.differences.iter().zip(ba.differences.iter()) {
        match (x, y) {
            (
                IrDifference::ParagraphCharShapes { path: p1, expected: e1, actual: a1, .. },
                IrDifference::ParagraphCharShapes { path: p2, expected: e2, actual: a2, .. },
            ) => {
                assert_eq!(p1, p2);
                assert_eq!(e1, a2);
                assert_eq!(a1, e2);
            }
            _ => panic!("unexpected {:?} {:?}", x, y),
        }
    }
}

fn fake_parse(bytes: &Vec<u8>) -> Result<Document, String> {
    match bytes.first() {
        None => Err("empty input".to_string()),
        Some(&n) => Ok(doc_with_char_shapes(&[(0, n as u32)])),
    }
}

fn fake_serialize(doc: &Document) -> Result<Vec<u8>, SerializeError> {
    let id = doc.sections[0].paragraphs[0].char_shapes[0].char_shape_id;
    if id == 99 {
        Err(SerializeError::XmlError("no writer".to_string()))
    } else if id == 0 {
        Ok(Vec::new())
    } else {
        Ok(vec![(id + 1) as u8])
    }
}

#[test]
fn roundtrip_pipeline_outcomes() {
    // A serialiser that keeps the document gives an empty comparison.
    let same = roundtrip_ir_diff(&vec![5u8], fake_parse, |d: &Document| {
        Ok(vec![d.sections[0].paragraphs[0].char_shapes[0].char_shape_id as u8])
    })
    .unwrap();
    assert!(same.is_empty());
    // One that changes a run is reported.
    let changed = roundtrip_ir_diff(&vec![5u8], fake_parse, fake_serialize).unwrap();
    assert_eq!(changed.differences.len(), 1);
    assert_eq!(
        changed.differences[0].to_string(),
        "section[0] paragraph[0] char_shapes: expected=[(0,5)] actual=[(0,6)]"
    );
    // Source that does not parse.
    match roundtrip_ir_diff(&Vec::new(), fake_parse, fake_serialize) {
        Err(SerializeError::XmlError(m)) => assert_eq!(m, "원본 HWPX 파싱 실패: empty input"),
        other => panic!("{:?}", other.map(|d| d.differences.len())),
    }
    // Serialiser failure comes back as is.
    match roundtrip_ir_diff(&vec![99u8], fake_parse, fake_serialize) {
        Err(SerializeError::XmlError(m)) => assert_eq!(m, "no writer"),
        other => panic!("{:?}", other.map(|d| d.differences.len())),
    }
    // Serialised bytes that do not parse.
    match roundtrip_ir_diff(&vec![0u8], fake_parse, fake_serialize) {
        Err(SerializeError::XmlError(m)) => assert_eq!(m, "재직렬화 HWPX 파싱 실패: empty input"),
        other => panic!("{:?}", other.map(|d| d.differences.len())),
    }
}

#[test]
fn law_text_segments_and_trailing_controls_are_not_compared() {
    let mut a = doc_with_control(table_control(&[(0, 1)]));
    let mut b = doc_with_control(table_control(&[(0, 1)]));
    a.sections[0].paragraphs[0].text = "original".to_string();
    b.sections[0].paragraphs[0].text = "changed".to_string();
    b.sections[0].paragraphs[0].line_segs = vec![LineSeg { vertical_pos: 10, line_height: 1, line_spacing: 2, segment_width: 3 }];
    a.sections[0].paragraphs[0].controls.push(footnote_control(&[(0, 4)]));
    a.sections[0].paragraphs[0].controls.push(Control::Other);
    assert!(diff_documents(&a, &b).is_empty());
    assert!(diff_documents(&b, &a).is_empty());
}
