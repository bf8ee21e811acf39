//! Round-trip IR comparison: what differs between a document and the one
//! that comes back after serialising and parsing it again.
//!
//! The comparison is semantic, not byte-wise: section and paragraph counts,
//! the resource counts of the document header, the binary-data count, and the
//! character-shape runs of every paragraph, including the paragraphs inside
//! table cells, text boxes (through groups) and foot/end notes.

use vstd::prelude::*;
use crate::model::{
    Cell, CharShapeRef, Control, DocInfo, Document, Paragraph, Section, ShapeObject, TextBox,
};
use crate::text::{decimal, push_char, push_decimal};

verus! {

/// One difference found by the comparison.
#[allow(inconsistent_fields)]
#[derive(Debug, Clone)]
pub enum IrDifference {
    SectionCount { expected: usize, actual: usize },
    ParagraphCount { section: usize, expected: usize, actual: usize },
    CharShapeCount { expected: usize, actual: usize },
    ParaShapeCount { expected: usize, actual: usize },
    BorderFillCount { expected: usize, actual: usize },
    TabDefCount { expected: usize, actual: usize },
    NumberingCount { expected: usize, actual: usize },
    StyleCount { expected: usize, actual: usize },
    BinDataContentCount { expected: usize, actual: usize },
    /// The character-shape runs of a paragraph differ. `path` locates a
    /// nested paragraph (empty for a body paragraph, `/ctrl[i]tbl.cell[j].p[k]`
    /// and the like inside controls); `expected` and `actual` list the runs
    /// as `[(start_pos,char_shape_id),...]`.
    ParagraphCharShapes {
        section: usize,
        paragraph: usize,
        path: String,
        expected: String,
        actual: String,
    },
}

/// A difference as a mathematical value.
#[allow(inconsistent_fields)]
pub enum Difference {
    SectionCount { expected: nat, actual: nat },
    ParagraphCount { section: nat, expected: nat, actual: nat },
    CharShapeCount { expected: nat, actual: nat },
    ParaShapeCount { expected: nat, actual: nat },
    BorderFillCount { expected: nat, actual: nat },
    TabDefCount { expected: nat, actual: nat },
    NumberingCount { expected: nat, actual: nat },
    StyleCount { expected: nat, actual: nat },
    BinDataContentCount { expected: nat, actual: nat },
    ParagraphCharShapes {
        section: nat,
        paragraph: nat,
        path: Seq<char>,
        expected: Seq<char>,
        actual: Seq<char>,
    },
}

impl View for IrDifference {
    type V = Difference;

    open spec fn view(&self) -> Difference {
        match self {
            IrDifference::SectionCount { expected, actual } =>
                Difference::SectionCount { expected: *expected as nat, actual: *actual as nat },
            IrDifference::ParagraphCount { section, expected, actual } =>
                Difference::ParagraphCount {
                    section: *section as nat,
                    expected: *expected as nat,
                    actual: *actual as nat,
                },
            IrDifference::CharShapeCount { expected, actual } =>
                Difference::CharShapeCount { expected: *expected as nat, actual: *actual as nat },
            IrDifference::ParaShapeCount { expected, actual } =>
                Difference::ParaShapeCount { expected: *expected as nat, actual: *actual as nat },
            IrDifference::BorderFillCount { expected, actual } =>
                Difference::BorderFillCount { expected: *expected as nat, actual: *actual as nat },
            IrDifference::TabDefCount { expected, actual } =>
                Difference::TabDefCount { expected: *expected as nat, actual: *actual as nat },
            IrDifference::NumberingCount { expected, actual } =>
                Difference::NumberingCount { expected: *expected as nat, actual: *actual as nat },
            IrDifference::StyleCount { expected, actual } =>
                Difference::StyleCount { expected: *expected as nat, actual: *actual as nat },
            IrDifference::BinDataContentCount { expected, actual } =>
                Difference::BinDataContentCount {
                    expected: *expected as nat,
                    actual: *actual as nat,
                },
            IrDifference::ParagraphCharShapes { section, paragraph, path, expected, actual } =>
                Difference::ParagraphCharShapes {
                    section: *section as nat,
                    paragraph: *paragraph as nat,
                    path: path@,
                    expected: expected@,
                    actual: actual@,
                },
        }
    }
}

// ---------------------------------------------------------------------------
// What the comparison reports
// ---------------------------------------------------------------------------

/// `(start_pos,char_shape_id)`.
pub open spec fn char_shape_item(r: CharShapeRef) -> Seq<char> {
    seq!['('] + decimal(r.start_pos as nat) + seq![','] + decimal(r.char_shape_id as nat)
        + seq![')']
}

/// The items of a run list joined by commas.
pub open spec fn char_shape_items(refs: Seq<CharShapeRef>) -> Seq<char>
    decreases refs.len(),
{
    if refs.len() == 0 {
        Seq::empty()
    } else if refs.len() == 1 {
        char_shape_item(refs[0])
    } else {
        char_shape_items(refs.drop_last()) + seq![','] + char_shape_item(refs.last())
    }
}

/// A run list written as `[(start_pos,char_shape_id),...]`.
pub open spec fn char_shapes_text(refs: Seq<CharShapeRef>) -> Seq<char> {
    seq!['['] + char_shape_items(refs) + seq![']']
}

/// `prefix` followed by the index `k` and a closing bracket.
pub open spec fn indexed(prefix: Seq<char>, k: nat) -> Seq<char> {
    prefix + decimal(k) + seq![']']
}

/// The path prefix of the paragraphs of cell `cell_i` of the table that is
/// control `ci`.
pub open spec fn cell_prefix(path: Seq<char>, ci: nat, cell_i: nat) -> Seq<char> {
    path + "/ctrl["@ + decimal(ci) + "]tbl.cell["@ + decimal(cell_i) + "].p["@
}

/// The path prefix of the paragraphs of the footnote that is control `ci`.
pub open spec fn footnote_prefix(path: Seq<char>, ci: nat) -> Seq<char> {
    path + "/ctrl["@ + decimal(ci) + "]fn.p["@
}

/// The path prefix of the paragraphs of the endnote that is control `ci`.
pub open spec fn endnote_prefix(path: Seq<char>, ci: nat) -> Seq<char> {
    path + "/ctrl["@ + decimal(ci) + "]en.p["@
}

/// The path of the drawing that is control `ci`.
pub open spec fn shape_path(path: Seq<char>, ci: nat) -> Seq<char> {
    path + "/ctrl["@ + decimal(ci) + "]shape"@
}

/// The text box of a drawing object, if it has one.
pub open spec fn spec_text_box(s: ShapeObject) -> Option<TextBox> {
    match s {
        ShapeObject::Line(x) => x.text_box,
        ShapeObject::Rectangle(x) => x.text_box,
        ShapeObject::Ellipse(x) => x.text_box,
        ShapeObject::Arc(x) => x.text_box,
        ShapeObject::Polygon(x) => x.text_box,
        ShapeObject::Curve(x) => x.text_box,
        ShapeObject::Chart(x) => x.text_box,
        ShapeObject::Ole(x) => x.text_box,
        ShapeObject::Group(_) => None,
        ShapeObject::Picture(_) => None,
    }
}

/// Differences of a paragraph pair and of the paragraphs nested in its
/// controls, in document order.
pub open spec fn para_diffs(section: nat, paragraph: nat, path: Seq<char>, pa: Paragraph, pb: Paragraph) -> Seq<Difference>
    decreases pa, 0nat,
{
    let own = if pa.char_shapes@ == pb.char_shapes@ {
        Seq::<Difference>::empty()
    } else {
        seq![Difference::ParagraphCharShapes {
            section,
            paragraph,
            path,
            expected: char_shapes_text(pa.char_shapes@),
            actual: char_shapes_text(pb.char_shapes@),
        }]
    };
    own + controls_diffs(section, paragraph, path, pa.controls@, pb.controls@, 0)
}

/// Differences of the control pairs `ci..` of two control lists (paired by
/// index, as far as the shorter list goes).
pub open spec fn controls_diffs(section: nat, paragraph: nat, path: Seq<char>, ca: Seq<Control>, cb: Seq<Control>, ci: nat) -> Seq<Difference>
    decreases ca, ca.len() - ci,
{
    if ci >= ca.len() || ci >= cb.len() {
        Seq::empty()
    } else {
        control_diffs(section, paragraph, path, ci, ca[ci as int], cb[ci as int])
            + controls_diffs(section, paragraph, path, ca, cb, ci + 1)
    }
}

/// Differences inside one control pair: cells of two tables, two drawings,
/// two footnotes or two endnotes. Pairs of other kinds are not entered.
pub open spec fn control_diffs(section: nat, paragraph: nat, path: Seq<char>, ci: nat, a: Control, b: Control) -> Seq<Difference>
    decreases a, 0nat,
{
    match (a, b) {
        (Control::Table(ta), Control::Table(tb)) =>
            cells_diffs(section, paragraph, path, ci, ta.cells@, tb.cells@, 0),
        (Control::Shape(sa), Control::Shape(sb)) =>
            shape_diffs(section, paragraph, shape_path(path, ci), *sa, *sb),
        (Control::Footnote(na), Control::Footnote(nb)) =>
            paras_diffs(section, paragraph, footnote_prefix(path, ci), na.paragraphs@, nb.paragraphs@, 0),
        (Control::Endnote(na), Control::Endnote(nb)) =>
            paras_diffs(section, paragraph, endnote_prefix(path, ci), na.paragraphs@, nb.paragraphs@, 0),
        _ => Seq::empty(),
    }
}

/// Differences of the cell pairs `cell_i..` of two tables.
pub open spec fn cells_diffs(section: nat, paragraph: nat, path: Seq<char>, ci: nat, ta: Seq<Cell>, tb: Seq<Cell>, cell_i: nat) -> Seq<Difference>
    decreases ta, ta.len() - cell_i,
{
    if cell_i >= ta.len() || cell_i >= tb.len() {
        Seq::empty()
    } else {
        paras_diffs(section, paragraph, cell_prefix(path, ci, cell_i),
            ta[cell_i as int].paragraphs@, tb[cell_i as int].paragraphs@, 0)
            + cells_diffs(section, paragraph, path, ci, ta, tb, cell_i + 1)
    }
}

/// Differences of the paragraph pairs `k..` of two paragraph lists; pair `k`
/// is reported under the path `prefix` + `k` + `]`.
pub open spec fn paras_diffs(section: nat, paragraph: nat, prefix: Seq<char>, qa: Seq<Paragraph>, qb: Seq<Paragraph>, k: nat) -> Seq<Difference>
    decreases qa, qa.len() - k,
{
    if k >= qa.len() || k >= qb.len() {
        Seq::empty()
    } else {
        para_diffs(section, paragraph, indexed(prefix, k), qa[k as int], qb[k as int])
            + paras_diffs(section, paragraph, prefix, qa, qb, k + 1)
    }
}

/// Differences inside two drawings: their text boxes when both have one,
/// then, for two groups, their children pair by pair.
pub open spec fn shape_diffs(section: nat, paragraph: nat, path: Seq<char>, sa: ShapeObject, sb: ShapeObject) -> Seq<Difference>
    decreases sa, 0nat,
{
    let in_text_boxes = match (sa, sb) {
        (ShapeObject::Group(_), _) => Seq::empty(),
        (ShapeObject::Picture(_), _) => Seq::empty(),
        (ShapeObject::Line(x), _) => text_box_diffs(section, paragraph, path, x.text_box, spec_text_box(sb)),
        (ShapeObject::Rectangle(x), _) => text_box_diffs(section, paragraph, path, x.text_box, spec_text_box(sb)),
        (ShapeObject::Ellipse(x), _) => text_box_diffs(section, paragraph, path, x.text_box, spec_text_box(sb)),
        (ShapeObject::Arc(x), _) => text_box_diffs(section, paragraph, path, x.text_box, spec_text_box(sb)),
        (ShapeObject::Polygon(x), _) => text_box_diffs(section, paragraph, path, x.text_box, spec_text_box(sb)),
        (ShapeObject::Curve(x), _) => text_box_diffs(section, paragraph, path, x.text_box, spec_text_box(sb)),
        (ShapeObject::Chart(x), _) => text_box_diffs(section, paragraph, path, x.text_box, spec_text_box(sb)),
        (ShapeObject::Ole(x), _) => text_box_diffs(section, paragraph, path, x.text_box, spec_text_box(sb)),
    };
    let in_children = match (sa, sb) {
        (ShapeObject::Group(ga), ShapeObject::Group(gb)) =>
            shapes_diffs(section, paragraph, path + ".child["@, ga.children@, gb.children@, 0),
        _ => Seq::empty(),
    };
    in_text_boxes + in_children
}

/// Differences of two optional text boxes: none unless both are present.
pub open spec fn text_box_diffs(section: nat, paragraph: nat, path: Seq<char>, ta: Option<TextBox>, tb: Option<TextBox>) -> Seq<Difference>
    decreases ta, 0nat,
{
    match (ta, tb) {
        (Some(a), Some(b)) =>
            paras_diffs(section, paragraph, path + ".tb.p["@, a.paragraphs@, b.paragraphs@, 0),
        _ => Seq::empty(),
    }
}

/// Differences of the drawing pairs `k..` of two groups' children.
pub open spec fn shapes_diffs(section: nat, paragraph: nat, prefix: Seq<char>, xa: Seq<ShapeObject>, xb: Seq<ShapeObject>, k: nat) -> Seq<Difference>
    decreases xa, xa.len() - k,
{
    if k >= xa.len() || k >= xb.len() {
        Seq::empty()
    } else {
        shape_diffs(section, paragraph, indexed(prefix, k), xa[k as int], xb[k as int])
            + shapes_diffs(section, paragraph, prefix, xa, xb, k + 1)
    }
}

} // verus!

verus! {

/// `seq![d]` when `cond` holds, else nothing.
pub open spec fn diff_if(cond: bool, d: Difference) -> Seq<Difference> {
    if cond { seq![d] } else { Seq::empty() }
}

/// Body-paragraph pairs `j..` of section `i`, compared at the empty path.
pub open spec fn body_paras_diffs(i: nat, pa: Seq<Paragraph>, pb: Seq<Paragraph>, j: nat) -> Seq<Difference>
    decreases pa.len() - j,
{
    if j >= pa.len() || j >= pb.len() {
        Seq::empty()
    } else {
        para_diffs(i, j, Seq::empty(), pa[j as int], pb[j as int])
            + body_paras_diffs(i, pa, pb, j + 1)
    }
}

/// Section pairs `i..`: a paragraph-count difference when the counts
/// differ, then the paragraph pairs of the section.
pub open spec fn sections_diffs(sa: Seq<Section>, sb: Seq<Section>, i: nat) -> Seq<Difference>
    decreases sa.len() - i,
{
    if i >= sa.len() || i >= sb.len() {
        Seq::empty()
    } else {
        let ap = sa[i as int].paragraphs@.len();
        let bp = sb[i as int].paragraphs@.len();
        diff_if(ap != bp, Difference::ParagraphCount { section: i, expected: ap, actual: bp })
            + body_paras_diffs(i, sa[i as int].paragraphs@, sb[i as int].paragraphs@, 0)
            + sections_diffs(sa, sb, i + 1)
    }
}

/// The difference for header resource `kind` (character shapes, paragraph
/// shapes, border fills, tab definitions, numberings, styles) when its
/// counts differ.
pub open spec fn resource_diff(kind: nat, e: nat, a: nat) -> Seq<Difference> {
    diff_if(e != a,
        if kind == 0 { Difference::CharShapeCount { expected: e, actual: a } }
        else if kind == 1 { Difference::ParaShapeCount { expected: e, actual: a } }
        else if kind == 2 { Difference::BorderFillCount { expected: e, actual: a } }
        else if kind == 3 { Difference::TabDefCount { expected: e, actual: a } }
        else if kind == 4 { Difference::NumberingCount { expected: e, actual: a } }
        else { Difference::StyleCount { expected: e, actual: a } })
}

/// Resource-count differences of two document headers, in field order.
pub open spec fn header_diffs(a: DocInfo, b: DocInfo) -> Seq<Difference> {
    resource_diff(0, a.char_shape_count as nat, b.char_shape_count as nat)
    + resource_diff(1, a.para_shape_count as nat, b.para_shape_count as nat)
    + resource_diff(2, a.border_fill_count as nat, b.border_fill_count as nat)
    + resource_diff(3, a.tab_def_count as nat, b.tab_def_count as nat)
    + resource_diff(4, a.numbering_count as nat, b.numbering_count as nat)
    + resource_diff(5, a.style_count as nat, b.style_count as nat)
}

/// Everything that differs between document `a` (expected) and `b`
/// (actual), in report order.
pub open spec fn doc_diffs(a: Document, b: Document) -> Seq<Difference> {
    diff_if(a.sections@.len() != b.sections@.len(),
        Difference::SectionCount { expected: a.sections@.len(), actual: b.sections@.len() })
    + sections_diffs(a.sections@, b.sections@, 0)
    + header_diffs(a.doc_info, b.doc_info)
    + diff_if(a.bin_data_content_count != b.bin_data_content_count,
        Difference::BinDataContentCount {
            expected: a.bin_data_content_count as nat,
            actual: b.bin_data_content_count as nat,
        })
}

} // verus!

verus! {

/// The result of a comparison: the differences found, in report order.
#[derive(Debug)]
pub struct IrDiff {
    pub differences: Vec<IrDifference>,
}

impl View for IrDiff {
    type V = Seq<Difference>;

    open spec fn view(&self) -> Seq<Difference> {
        self.differences@.map_values(|d: IrDifference| d@)
    }
}

/// Tolerances for a comparison (none of them relaxes anything yet).
#[derive(Debug, Default, Clone, Copy)]
pub struct IrDiffAllow {
    pub shape_raw: bool,
}

impl Default for IrDiff {
    fn default() -> (r: Self)
        ensures
            r@ == Seq::<Difference>::empty(),
    {
        let r = IrDiff { differences: Vec::new() };
        assert(r@ =~= Seq::<Difference>::empty());
        r
    }
}

impl IrDiff {
    /// Whether no difference was found.
    pub fn is_empty(&self) -> (b: bool)
        ensures
            b == (self@.len() == 0),
    {
        self.differences.len() == 0
    }

    /// Appends a difference.
    pub fn push(&mut self, d: IrDifference)
        ensures
            final(self)@ == old(self)@.push(d@),
    {
        self.differences.push(d);
        assert(self@ =~= old(self)@.push(d@));
    }

    /// Whether the comparison passes under the given tolerances: exactly when
    /// no difference was found.
    pub fn allowed(&self, _allow: IrDiffAllow) -> (b: bool)
        ensures
            b == (self@.len() == 0),
    {
        self.is_empty()
    }
}

/// A run list written as `[(start_pos,char_shape_id),...]`.
fn format_char_shapes(refs: &Vec<CharShapeRef>) -> (s: String)
    ensures
        s@ == char_shapes_text(refs@),
{
    let mut s = String::new();
    push_char(&mut s, '[');
    let mut i: usize = 0;
    while i < refs.len()
        invariant
            i <= refs@.len(),
            s@ == seq!['['] + char_shape_items(refs@.take(i as int)),
        decreases refs@.len() - i,
    {
        let ghost before = s@;
        if i > 0 {
            push_char(&mut s, ',');
        }
        push_char(&mut s, '(');
        push_decimal(&mut s, refs[i].start_pos as u128);
        push_char(&mut s, ',');
        push_decimal(&mut s, refs[i].char_shape_id as u128);
        push_char(&mut s, ')');
        proof {
            let t = refs@.take(i + 1);
            assert(t.drop_last() =~= refs@.take(i as int));
            assert(t.last() == refs@[i as int]);
            if i == 0 {
                assert(char_shape_items(t) == char_shape_item(refs@[0]));
                assert(char_shape_items(refs@.take(0)) =~= Seq::<char>::empty());
            }
            assert(s@ =~= seq!['['] + char_shape_items(t));
        }
        i = i + 1;
    }
    push_char(&mut s, ']');
    assert(refs@.take(refs@.len() as int) =~= refs@);
    assert(s@ =~= char_shapes_text(refs@));
    s
}

/// The text box of a drawing object, if it has one.
fn shape_text_box(s: &ShapeObject) -> (r: Option<&TextBox>)
    ensures
        match r {
            Some(t) => spec_text_box(*s) == Some(*t),
            None => spec_text_box(*s) is None,
        },
{
    match s {
        ShapeObject::Line(x) => x.text_box.as_ref(),
        ShapeObject::Rectangle(x) => x.text_box.as_ref(),
        ShapeObject::Ellipse(x) => x.text_box.as_ref(),
        ShapeObject::Arc(x) => x.text_box.as_ref(),
        ShapeObject::Polygon(x) => x.text_box.as_ref(),
        ShapeObject::Curve(x) => x.text_box.as_ref(),
        ShapeObject::Chart(x) => x.text_box.as_ref(),
        ShapeObject::Ole(x) => x.text_box.as_ref(),
        ShapeObject::Group(_) | ShapeObject::Picture(_) => None,
    }
}

/// A copy of `s` followed by `tail`.
fn concat_str(s: &str, tail: &str) -> (r: String)
    ensures
        r@ == s@ + tail@,
{
    let mut r = String::from_str(s);
    r.append(tail);
    r
}

} // verus!

verus! {

/// Whether two run lists are equal item by item.
fn same_char_shapes(ca: &Vec<CharShapeRef>, cb: &Vec<CharShapeRef>) -> (b: bool)
    ensures
        b == (ca@ == cb@),
{
    if ca.len() != cb.len() {
        return false;
    }
    let mut i: usize = 0;
    while i < ca.len()
        invariant
            ca@.len() == cb@.len(),
            i <= ca@.len(),
            forall|j: int| 0 <= j < i ==> ca@[j] == cb@[j],
        decreases ca@.len() - i,
    {
        if ca[i].start_pos != cb[i].start_pos || ca[i].char_shape_id != cb[i].char_shape_id {
            return false;
        }
        i = i + 1;
    }
    assert(ca@ =~= cb@);
    true
}

/// `prefix` followed by the index `k` and a closing bracket.
fn indexed_path(prefix: &str, k: usize) -> (r: String)
    ensures
        r@ == indexed(prefix@, k as nat),
{
    let mut r = String::from_str(prefix);
    push_decimal(&mut r, k as u128);
    push_char(&mut r, ']');
    r
}

/// `path/ctrl[ci]` followed by `tail`.
fn control_path(path: &str, ci: usize, tail: &str) -> (r: String)
    ensures
        r@ == path@ + "/ctrl["@ + decimal(ci as nat) + tail@,
{
    let mut r = String::from_str(path);
    r.append("/ctrl[");
    push_decimal(&mut r, ci as u128);
    r.append(tail);
    r
}

/// Compares the character-shape runs of a paragraph pair, then the
/// paragraphs nested in their controls.
fn diff_paragraph_char_shapes(
    diff: &mut IrDiff,
    section: usize,
    paragraph: usize,
    path: &str,
    pa: &Paragraph,
    pb: &Paragraph,
)
    ensures
        final(diff)@ == old(diff)@ + para_diffs(section as nat, paragraph as nat, path@, *pa, *pb),
    decreases pa,
{
    let ghost s = section as nat;
    let ghost p = paragraph as nat;
    let ca = &pa.char_shapes;
    let cb = &pb.char_shapes;
    if !same_char_shapes(ca, cb) {
        diff.push(IrDifference::ParagraphCharShapes {
            section,
            paragraph,
            path: String::from_str(path),
            expected: format_char_shapes(ca),
            actual: format_char_shapes(cb),
        });
    }
    let ghost mid = diff@;
    let n = if pa.controls.len() < pb.controls.len() { pa.controls.len() } else { pb.controls.len() };
    let mut ci: usize = 0;
    while ci < n
        invariant
            s == section as nat,
            p == paragraph as nat,
            n <= pa.controls@.len(),
            n <= pb.controls@.len(),
            n == pa.controls@.len() || n == pb.controls@.len(),
            ci <= n,
            diff@ + controls_diffs(s, p, path@, pa.controls@, pb.controls@, ci as nat)
                == mid + controls_diffs(s, p, path@, pa.controls@, pb.controls@, 0),
        decreases n - ci,
    {
        let ghost before = diff@;
        diff_control(diff, section, paragraph, path, ci, &pa.controls[ci], &pb.controls[ci]);
        proof {
            let cd = control_diffs(s, p, path@, ci as nat, pa.controls@[ci as int], pb.controls@[ci as int]);
            let rest = controls_diffs(s, p, path@, pa.controls@, pb.controls@, ci as nat + 1);
            assert(controls_diffs(s, p, path@, pa.controls@, pb.controls@, ci as nat) == cd + rest);
            assert(before + (cd + rest) =~= (before + cd) + rest);
        }
        ci = ci + 1;
    }
    proof {
        assert(controls_diffs(s, p, path@, pa.controls@, pb.controls@, ci as nat) =~= Seq::empty());
        assert(diff@ =~= mid + controls_diffs(s, p, path@, pa.controls@, pb.controls@, 0));
        assert(old(diff)@ + para_diffs(s, p, path@, *pa, *pb) =~= diff@);
    }
}

/// Compares the paragraphs nested in one control pair.
fn diff_control(
    diff: &mut IrDiff,
    section: usize,
    paragraph: usize,
    path: &str,
    ci: usize,
    a: &Control,
    b: &Control,
)
    ensures
        final(diff)@ == old(diff)@ + control_diffs(section as nat, paragraph as nat, path@, ci as nat, *a, *b),
    decreases a,
{
    let ghost s = section as nat;
    let ghost p = paragraph as nat;
    match (a, b) {
        (Control::Table(ta), Control::Table(tb)) => {
            let ghost start = diff@;
            assert(decreases_to!(*a => ta.cells@));
            let n = if ta.cells.len() < tb.cells.len() { ta.cells.len() } else { tb.cells.len() };
            let mut cell_i: usize = 0;
            while cell_i < n
                invariant
                    s == section as nat,
                    p == paragraph as nat,
                    decreases_to!(*a => ta.cells@),
                    n <= ta.cells@.len(),
                    n <= tb.cells@.len(),
                    n == ta.cells@.len() || n == tb.cells@.len(),
                    cell_i <= n,
                    diff@ + cells_diffs(s, p, path@, ci as nat, ta.cells@, tb.cells@, cell_i as nat)
                        == start + cells_diffs(s, p, path@, ci as nat, ta.cells@, tb.cells@, 0),
                decreases n - cell_i,
            {
                let ghost before = diff@;
                let mut prefix = control_path(path, ci, "]tbl.cell[");
                push_decimal(&mut prefix, cell_i as u128);
                prefix.append("].p[");
                assert(prefix@ =~= cell_prefix(path@, ci as nat, cell_i as nat));
                assert(decreases_to!(*a => ta.cells@[cell_i as int].paragraphs));
                diff_paras(diff, section, paragraph, prefix.as_str(),
                    &ta.cells[cell_i].paragraphs, &tb.cells[cell_i].paragraphs);
                proof {
                    let cd = paras_diffs(s, p, cell_prefix(path@, ci as nat, cell_i as nat),
                        ta.cells@[cell_i as int].paragraphs@, tb.cells@[cell_i as int].paragraphs@, 0);
                    let rest = cells_diffs(s, p, path@, ci as nat, ta.cells@, tb.cells@, cell_i as nat + 1);
                    assert(cells_diffs(s, p, path@, ci as nat, ta.cells@, tb.cells@, cell_i as nat) == cd + rest);
                    assert(before + (cd + rest) =~= (before + cd) + rest);
                }
                cell_i = cell_i + 1;
            }
            proof {
                assert(cells_diffs(s, p, path@, ci as nat, ta.cells@, tb.cells@, cell_i as nat) =~= Seq::empty());
                assert(diff@ =~= start + cells_diffs(s, p, path@, ci as nat, ta.cells@, tb.cells@, 0));
            }
        },
        (Control::Shape(sa), Control::Shape(sb)) => {
            let sp = control_path(path, ci, "]shape");
            diff_shape_char_shapes(diff, section, paragraph, sp.as_str(), &**sa, &**sb);
        },
        (Control::Footnote(na), Control::Footnote(nb)) => {
            let prefix = control_path(path, ci, "]fn.p[");
            diff_paras(diff, section, paragraph, prefix.as_str(), &na.paragraphs, &nb.paragraphs);
        },
        (Control::Endnote(na), Control::Endnote(nb)) => {
            let prefix = control_path(path, ci, "]en.p[");
            diff_paras(diff, section, paragraph, prefix.as_str(), &na.paragraphs, &nb.paragraphs);
        },
        _ => {
            assert(diff@ =~= old(diff)@ + Seq::<Difference>::empty());
        },
    }
}

/// Compares two paragraph lists pair by pair, pair `k` under the path
/// `prefix` + `k` + `]`.
fn diff_paras(
    diff: &mut IrDiff,
    section: usize,
    paragraph: usize,
    prefix: &str,
    qa: &Vec<Paragraph>,
    qb: &Vec<Paragraph>,
)
    ensures
        final(diff)@ == old(diff)@ + paras_diffs(section as nat, paragraph as nat, prefix@, qa@, qb@, 0),
    decreases qa,
{
    let ghost s = section as nat;
    let ghost p = paragraph as nat;
    let n = if qa.len() < qb.len() { qa.len() } else { qb.len() };
    let mut k: usize = 0;
    while k < n
        invariant
            s == section as nat,
            p == paragraph as nat,
            n <= qa@.len(),
            n <= qb@.len(),
            n == qa@.len() || n == qb@.len(),
            k <= n,
            diff@ + paras_diffs(s, p, prefix@, qa@, qb@, k as nat)
                == old(diff)@ + paras_diffs(s, p, prefix@, qa@, qb@, 0),
        decreases n - k,
    {
        let ghost before = diff@;
        let qp = indexed_path(prefix, k);
        diff_paragraph_char_shapes(diff, section, paragraph, qp.as_str(), &qa[k], &qb[k]);
        proof {
            let cd = para_diffs(s, p, indexed(prefix@, k as nat), qa@[k as int], qb@[k as int]);
            let rest = paras_diffs(s, p, prefix@, qa@, qb@, k as nat + 1);
            assert(paras_diffs(s, p, prefix@, qa@, qb@, k as nat) == cd + rest);
            assert(before + (cd + rest) =~= (before + cd) + rest);
        }
        k = k + 1;
    }
    proof {
        assert(paras_diffs(s, p, prefix@, qa@, qb@, k as nat) =~= Seq::empty());
        assert(diff@ =~= old(diff)@ + paras_diffs(s, p, prefix@, qa@, qb@, 0));
    }
}

/// Compares the text boxes of two drawings, then the children of two
/// groups pair by pair.
fn diff_shape_char_shapes(
    diff: &mut IrDiff,
    section: usize,
    paragraph: usize,
    path: &str,
    sa: &ShapeObject,
    sb: &ShapeObject,
)
    ensures
        final(diff)@ == old(diff)@ + shape_diffs(section as nat, paragraph as nat, path@, *sa, *sb),
    decreases sa,
{
    let ghost s = section as nat;
    let ghost p = paragraph as nat;
    let ghost start = diff@;
    let tba = shape_text_box(sa);
    let tbb = shape_text_box(sb);
    match (tba, tbb) {
        (Some(ta), Some(tb)) => {
            let prefix = concat_str(path, ".tb.p[");
            assert(decreases_to!(*sa => ta.paragraphs));
            diff_paras(diff, section, paragraph, prefix.as_str(), &ta.paragraphs, &tb.paragraphs);
        },
        _ => {},
    }
    let ghost mid = diff@;
    assert(mid == start + text_box_diffs(s, p, path@, spec_text_box(*sa), spec_text_box(*sb)));
    match (sa, sb) {
        (ShapeObject::Group(ga), ShapeObject::Group(gb)) => {
            let prefix = concat_str(path, ".child[");
            assert(decreases_to!(*sa => ga.children@));
            let n = if ga.children.len() < gb.children.len() { ga.children.len() } else { gb.children.len() };
            let mut k: usize = 0;
            while k < n
                invariant
                    s == section as nat,
                    p == paragraph as nat,
                    decreases_to!(*sa => ga.children@),
                    n <= ga.children@.len(),
                    n <= gb.children@.len(),
                    n == ga.children@.len() || n == gb.children@.len(),
                    k <= n,
                    prefix@ == path@ + ".child["@,
                    diff@ + shapes_diffs(s, p, prefix@, ga.children@, gb.children@, k as nat)
                        == mid + shapes_diffs(s, p, prefix@, ga.children@, gb.children@, 0),
                decreases n - k,
            {
                let ghost before = diff@;
                let cp = indexed_path(prefix.as_str(), k);
                assert(decreases_to!(*sa => ga.children@[k as int]));
                diff_shape_char_shapes(diff, section, paragraph, cp.as_str(), &ga.children[k], &gb.children[k]);
                proof {
                    let cd = shape_diffs(s, p, indexed(prefix@, k as nat), ga.children@[k as int], gb.children@[k as int]);
                    let rest = shapes_diffs(s, p, prefix@, ga.children@, gb.children@, k as nat + 1);
                    assert(shapes_diffs(s, p, prefix@, ga.children@, gb.children@, k as nat) == cd + rest);
                    assert(before + (cd + rest) =~= (before + cd) + rest);
                }
                k = k + 1;
            }
            proof {
                assert(shapes_diffs(s, p, prefix@, ga.children@, gb.children@, k as nat) =~= Seq::empty());
            }
        },
        _ => {},
    }
    assert(diff@ =~= old(diff)@ + shape_diffs(s, p, path@, *sa, *sb));
}

} // verus!

verus! {

/// Pushes a count difference when the counts differ.
fn push_count_diff(diff: &mut IrDiff, differs: bool, d: IrDifference)
    ensures
        final(diff)@ == old(diff)@ + diff_if(differs, d@),
{
    if differs {
        diff.push(d);
    } else {
        assert(diff@ =~= old(diff)@ + diff_if(differs, d@));
    }
}

/// Compares the body-paragraph pairs of section `i`.
fn diff_section_paragraphs(diff: &mut IrDiff, i: usize, pa: &Vec<Paragraph>, pb: &Vec<Paragraph>)
    ensures
        final(diff)@ == old(diff)@ + body_paras_diffs(i as nat, pa@, pb@, 0),
{
    let pp = if pa.len() < pb.len() { pa.len() } else { pb.len() };
    let mut j: usize = 0;
    while j < pp
        invariant
            pp <= pa@.len(),
            pp <= pb@.len(),
            pp == pa@.len() || pp == pb@.len(),
            j <= pp,
            diff@ + body_paras_diffs(i as nat, pa@, pb@, j as nat)
                == old(diff)@ + body_paras_diffs(i as nat, pa@, pb@, 0),
        decreases pp - j,
    {
        let ghost before = diff@;
        let empty = String::new();
        diff_paragraph_char_shapes(diff, i, j, empty.as_str(), &pa[j], &pb[j]);
        proof {
            let cd = para_diffs(i as nat, j as nat, Seq::empty(), pa@[j as int], pb@[j as int]);
            let rest = body_paras_diffs(i as nat, pa@, pb@, j as nat + 1);
            assert(empty@ =~= Seq::<char>::empty());
            assert(body_paras_diffs(i as nat, pa@, pb@, j as nat) == cd + rest);
            assert(before + (cd + rest) =~= (before + cd) + rest);
        }
        j = j + 1;
    }
    assert(body_paras_diffs(i as nat, pa@, pb@, j as nat) =~= Seq::empty());
    assert(diff@ =~= old(diff)@ + body_paras_diffs(i as nat, pa@, pb@, 0));
}

/// Compares the section pairs of two documents.
fn diff_sections(diff: &mut IrDiff, sa: &Vec<Section>, sb: &Vec<Section>)
    ensures
        final(diff)@ == old(diff)@ + sections_diffs(sa@, sb@, 0),
{
    let pairs = if sa.len() < sb.len() { sa.len() } else { sb.len() };
    let mut i: usize = 0;
    while i < pairs
        invariant
            pairs <= sa@.len(),
            pairs <= sb@.len(),
            pairs == sa@.len() || pairs == sb@.len(),
            i <= pairs,
            diff@ + sections_diffs(sa@, sb@, i as nat) == old(diff)@ + sections_diffs(sa@, sb@, 0),
        decreases pairs - i,
    {
        let ghost before = diff@;
        let pa = &sa[i].paragraphs;
        let pb = &sb[i].paragraphs;
        let ap = pa.len();
        let bp = pb.len();
        push_count_diff(diff, ap != bp,
            IrDifference::ParagraphCount { section: i, expected: ap, actual: bp });
        diff_section_paragraphs(diff, i, pa, pb);
        proof {
            let cd = diff_if(ap != bp, Difference::ParagraphCount { section: i as nat, expected: ap as nat, actual: bp as nat })
                + body_paras_diffs(i as nat, pa@, pb@, 0);
            let rest = sections_diffs(sa@, sb@, i as nat + 1);
            assert(sections_diffs(sa@, sb@, i as nat) == cd + rest);
            assert(diff@ =~= before + cd);
            assert(before + (cd + rest) =~= (before + cd) + rest);
        }
        i = i + 1;
    }
    assert(sections_diffs(sa@, sb@, i as nat) =~= Seq::empty());
    assert(diff@ =~= old(diff)@ + sections_diffs(sa@, sb@, 0));
}

/// Compares the count of one header resource.
#[verifier::spinoff_prover]
fn diff_resource(diff: &mut IrDiff, kind: usize, e: usize, a: usize)
    requires
        kind < 6,
    ensures
        final(diff)@ == old(diff)@ + resource_diff(kind as nat, e as nat, a as nat),
{
    let d = if kind == 0 {
        IrDifference::CharShapeCount { expected: e, actual: a }
    } else if kind == 1 {
        IrDifference::ParaShapeCount { expected: e, actual: a }
    } else if kind == 2 {
        IrDifference::BorderFillCount { expected: e, actual: a }
    } else if kind == 3 {
        IrDifference::TabDefCount { expected: e, actual: a }
    } else if kind == 4 {
        IrDifference::NumberingCount { expected: e, actual: a }
    } else {
        IrDifference::StyleCount { expected: e, actual: a }
    };
    push_count_diff(diff, e != a, d);
}

/// Compares the resource counts of two document headers.
#[verifier::spinoff_prover]
fn diff_header(diff: &mut IrDiff, da: &DocInfo, db: &DocInfo)
    ensures
        final(diff)@ == old(diff)@ + header_diffs(*da, *db),
{
    let ghost d0 = diff@;
    diff_resource(diff, 0, da.char_shape_count, db.char_shape_count);
    let ghost d1 = diff@;
    diff_resource(diff, 1, da.para_shape_count, db.para_shape_count);
    let ghost d2 = diff@;
    diff_resource(diff, 2, da.border_fill_count, db.border_fill_count);
    let ghost d3 = diff@;
    diff_resource(diff, 3, da.tab_def_count, db.tab_def_count);
    let ghost d4 = diff@;
    diff_resource(diff, 4, da.numbering_count, db.numbering_count);
    let ghost d5 = diff@;
    diff_resource(diff, 5, da.style_count, db.style_count);
    proof {
        let (a, b) = (*da, *db);
        let x1 = resource_diff(0, a.char_shape_count as nat, b.char_shape_count as nat);
        let x2 = resource_diff(1, a.para_shape_count as nat, b.para_shape_count as nat);
        let x3 = resource_diff(2, a.border_fill_count as nat, b.border_fill_count as nat);
        let x4 = resource_diff(3, a.tab_def_count as nat, b.tab_def_count as nat);
        let x5 = resource_diff(4, a.numbering_count as nat, b.numbering_count as nat);
        let x6 = resource_diff(5, a.style_count as nat, b.style_count as nat);
        assert(header_diffs(a, b) == x1 + x2 + x3 + x4 + x5 + x6);
        assert(diff@ =~= d0 + (x1 + x2 + x3 + x4 + x5 + x6));
    }
}

/// Compares document `a` (expected) with document `b` (actual): section
/// count; per section pair, paragraph count and the paragraph pairs with the
/// paragraphs nested in their controls; the header resource counts; the
/// binary-data count.
pub fn diff_documents(a: &Document, b: &Document) -> (diff: IrDiff)
    ensures
        diff@ == doc_diffs(*a, *b),
{
    let mut diff = IrDiff::default();
    push_count_diff(&mut diff, a.sections.len() != b.sections.len(),
        IrDifference::SectionCount { expected: a.sections.len(), actual: b.sections.len() });
    diff_sections(&mut diff, &a.sections, &b.sections);
    diff_header(&mut diff, &a.doc_info, &b.doc_info);
    push_count_diff(&mut diff, a.bin_data_content_count != b.bin_data_content_count,
        IrDifference::BinDataContentCount {
            expected: a.bin_data_content_count,
            actual: b.bin_data_content_count,
        });
    assert(diff@ =~= doc_diffs(*a, *b));
    diff
}

} // verus!

verus! {

/// `expected=E actual=A`.
pub open spec fn expected_actual(e: nat, a: nat) -> Seq<char> {
    "expected="@ + decimal(e) + " actual="@ + decimal(a)
}

/// `LABEL count: expected=E actual=A`.
pub open spec fn count_text(label: Seq<char>, e: nat, a: nat) -> Seq<char> {
    label + " count: "@ + expected_actual(e, a)
}

/// The one-line description of a difference.
pub open spec fn difference_text(d: Difference) -> Seq<char> {
    match d {
        Difference::SectionCount { expected, actual } => count_text("section"@, expected, actual),
        Difference::ParagraphCount { section, expected, actual } =>
            "section["@ + decimal(section) + "] paragraph count: "@ + expected_actual(expected, actual),
        Difference::CharShapeCount { expected, actual } => count_text("char_shapes"@, expected, actual),
        Difference::ParaShapeCount { expected, actual } => count_text("para_shapes"@, expected, actual),
        Difference::BorderFillCount { expected, actual } => count_text("border_fills"@, expected, actual),
        Difference::TabDefCount { expected, actual } => count_text("tab_defs"@, expected, actual),
        Difference::NumberingCount { expected, actual } => count_text("numberings"@, expected, actual),
        Difference::StyleCount { expected, actual } => count_text("styles"@, expected, actual),
        Difference::BinDataContentCount { expected, actual } =>
            count_text("bin_data_content"@, expected, actual),
        Difference::ParagraphCharShapes { section, paragraph, path, expected, actual } =>
            "section["@ + decimal(section) + "] paragraph["@ + decimal(paragraph) + "]"@ + path
                + " char_shapes: expected="@ + expected + " actual="@ + actual,
    }
}

/// Appends `expected=E actual=A`.
fn push_expected_actual(s: &mut String, e: usize, a: usize)
    ensures
        final(s)@ == old(s)@ + expected_actual(e as nat, a as nat),
{
    s.append("expected=");
    push_decimal(s, e as u128);
    s.append(" actual=");
    push_decimal(s, a as u128);
    assert(s@ =~= old(s)@ + expected_actual(e as nat, a as nat));
}

/// `LABEL count: expected=E actual=A`.
fn count_line(label: &str, e: usize, a: usize) -> (s: String)
    ensures
        s@ == count_text(label@, e as nat, a as nat),
{
    let mut s = String::from_str(label);
    s.append(" count: ");
    push_expected_actual(&mut s, e, a);
    assert(s@ =~= count_text(label@, e as nat, a as nat));
    s
}

impl IrDifference {
    /// The one-line description of the difference, as reports print it.
    pub fn to_string(&self) -> (s: String)
        ensures
            s@ == difference_text(self@),
    {
        match self {
            IrDifference::SectionCount { expected, actual } => count_line("section", *expected, *actual),
            IrDifference::ParagraphCount { section, expected, actual } => {
                let mut s = String::from_str("section[");
                push_decimal(&mut s, *section as u128);
                s.append("] paragraph count: ");
                push_expected_actual(&mut s, *expected, *actual);
                assert(s@ =~= difference_text(self@));
                s
            },
            IrDifference::CharShapeCount { expected, actual } => count_line("char_shapes", *expected, *actual),
            IrDifference::ParaShapeCount { expected, actual } => count_line("para_shapes", *expected, *actual),
            IrDifference::BorderFillCount { expected, actual } => count_line("border_fills", *expected, *actual),
            IrDifference::TabDefCount { expected, actual } => count_line("tab_defs", *expected, *actual),
            IrDifference::NumberingCount { expected, actual } => count_line("numberings", *expected, *actual),
            IrDifference::StyleCount { expected, actual } => count_line("styles", *expected, *actual),
            IrDifference::BinDataContentCount { expected, actual } =>
                count_line("bin_data_content", *expected, *actual),
            IrDifference::ParagraphCharShapes { section, paragraph, path, expected, actual } => {
                let mut s = String::from_str("section[");
                push_decimal(&mut s, *section as u128);
                s.append("] paragraph[");
                push_decimal(&mut s, *paragraph as u128);
                s.append("]");
                s.append(path.as_str());
                s.append(" char_shapes: expected=");
                s.append(expected.as_str());
                s.append(" actual=");
                s.append(actual.as_str());
                assert(s@ =~= difference_text(self@));
                s
            },
        }
    }
}

} // verus!

verus! {

/// Why serialising, or the round trip around it, failed.
#[derive(Debug, Clone)]
pub enum SerializeError {
    XmlError(String),
}

/// The message for a source document that does not parse.
pub open spec fn source_parse_failure(e: Seq<char>) -> Seq<char> {
    "원본 HWPX 파싱 실패: "@ + e
}

/// The message for serialised bytes that do not parse again.
pub open spec fn reparse_failure(e: Seq<char>) -> Seq<char> {
    "재직렬화 HWPX 파싱 실패: "@ + e
}

/// Parses `hwpx_bytes`, serialises the document, parses the result again
/// and compares the two documents. `parse` and `serialize` are the HWPX
/// reader and writer.
///
/// A parse failure of the source comes back as `XmlError` with the
/// source-parse message, a serialisation failure as the serialiser's own
/// error, a parse failure of the serialised bytes as `XmlError` with the
/// re-parse message; otherwise the comparison of the first document
/// (expected) with the second (actual).
pub fn roundtrip_ir_diff<P, S>(hwpx_bytes: &Vec<u8>, parse: P, serialize: S) -> (r: Result<IrDiff, SerializeError>)
    where
        P: Fn(&Vec<u8>) -> Result<Document, String>,
        S: Fn(&Document) -> Result<Vec<u8>, SerializeError>,
    requires
        forall|b: &Vec<u8>| parse.requires((b,)),
        forall|d: &Document| serialize.requires((d,)),
    ensures
        match r {
            Ok(diff) => exists|d1: Document, out: Vec<u8>, d2: Document|
                parse.ensures((hwpx_bytes,), Ok::<Document, String>(d1))
                && serialize.ensures((&d1,), Ok::<Vec<u8>, SerializeError>(out))
                && parse.ensures((&out,), Ok::<Document, String>(d2))
                && diff@ == doc_diffs(d1, d2),
            Err(SerializeError::XmlError(m)) =>
                (exists|e: String| parse.ensures((hwpx_bytes,), Err::<Document, String>(e))
                    && m@ == source_parse_failure(e@))
                || (exists|d1: Document| parse.ensures((hwpx_bytes,), Ok::<Document, String>(d1))
                    && serialize.ensures((&d1,), Err::<Vec<u8>, SerializeError>(SerializeError::XmlError(m))))
                || (exists|d1: Document, out: Vec<u8>, e: String|
                    parse.ensures((hwpx_bytes,), Ok::<Document, String>(d1))
                    && serialize.ensures((&d1,), Ok::<Vec<u8>, SerializeError>(out))
                    && parse.ensures((&out,), Err::<Document, String>(e))
                    && m@ == reparse_failure(e@)),
        },
{
    let doc1 = match parse(hwpx_bytes) {
        Ok(d) => d,
        Err(e) => {
            let mut m = String::from_str("원본 HWPX 파싱 실패: ");
            m.append(e.as_str());
            return Err(SerializeError::XmlError(m));
        },
    };
    let out = match serialize(&doc1) {
        Ok(o) => o,
        Err(e) => {
            return Err(e);
        },
    };
    let doc2 = match parse(&out) {
        Ok(d) => d,
        Err(e) => {
            let mut m = String::from_str("재직렬화 HWPX 파싱 실패: ");
            m.append(e.as_str());
            return Err(SerializeError::XmlError(m));
        },
    };
    Ok(diff_documents(&doc1, &doc2))
}

} // verus!

verus! {

// ---------------------------------------------------------------------------
// A document compared with itself shows no difference
// ---------------------------------------------------------------------------

proof fn lemma_para_refl(s: nat, p: nat, path: Seq<char>, x: Paragraph)
    ensures
        para_diffs(s, p, path, x, x) =~= Seq::<Difference>::empty(),
    decreases x, 0nat,
{
    lemma_controls_refl(s, p, path, x.controls@, 0);
}

proof fn lemma_controls_refl(s: nat, p: nat, path: Seq<char>, cs: Seq<Control>, ci: nat)
    ensures
        controls_diffs(s, p, path, cs, cs, ci) =~= Seq::<Difference>::empty(),
    decreases cs, cs.len() - ci,
{
    if ci < cs.len() {
        lemma_control_refl(s, p, path, ci, cs[ci as int]);
        lemma_controls_refl(s, p, path, cs, ci + 1);
    }
}

proof fn lemma_control_refl(s: nat, p: nat, path: Seq<char>, ci: nat, c: Control)
    ensures
        control_diffs(s, p, path, ci, c, c) =~= Seq::<Difference>::empty(),
    decreases c, 0nat,
{
    match c {
        Control::Table(t) => lemma_cells_refl(s, p, path, ci, t.cells@, 0),
        Control::Shape(x) => lemma_shape_refl(s, p, shape_path(path, ci), *x),
        Control::Footnote(n) => lemma_paras_refl(s, p, footnote_prefix(path, ci), n.paragraphs@, 0),
        Control::Endnote(n) => lemma_paras_refl(s, p, endnote_prefix(path, ci), n.paragraphs@, 0),
        _ => {},
    }
}

proof fn lemma_cells_refl(s: nat, p: nat, path: Seq<char>, ci: nat, cells: Seq<Cell>, i: nat)
    ensures
        cells_diffs(s, p, path, ci, cells, cells, i) =~= Seq::<Difference>::empty(),
    decreases cells, cells.len() - i,
{
    if i < cells.len() {
        lemma_paras_refl(s, p, cell_prefix(path, ci, i), cells[i as int].paragraphs@, 0);
        lemma_cells_refl(s, p, path, ci, cells, i + 1);
    }
}

proof fn lemma_paras_refl(s: nat, p: nat, prefix: Seq<char>, qs: Seq<Paragraph>, k: nat)
    ensures
        paras_diffs(s, p, prefix, qs, qs, k) =~= Seq::<Difference>::empty(),
    decreases qs, qs.len() - k,
{
    if k < qs.len() {
        lemma_para_refl(s, p, indexed(prefix, k), qs[k as int]);
        lemma_paras_refl(s, p, prefix, qs, k + 1);
    }
}

proof fn lemma_text_box_refl(s: nat, p: nat, path: Seq<char>, t: Option<TextBox>)
    ensures
        text_box_diffs(s, p, path, t, t) =~= Seq::<Difference>::empty(),
    decreases t, 0nat,
{
    match t {
        Some(x) => lemma_paras_refl(s, p, path + ".tb.p["@, x.paragraphs@, 0),
        None => {},
    }
}

proof fn lemma_shape_refl(s: nat, p: nat, path: Seq<char>, x: ShapeObject)
    ensures
        shape_diffs(s, p, path, x, x) =~= Seq::<Difference>::empty(),
    decreases x, 0nat,
{
    match x {
        ShapeObject::Line(d) => lemma_text_box_refl(s, p, path, d.text_box),
        ShapeObject::Rectangle(d) => lemma_text_box_refl(s, p, path, d.text_box),
        ShapeObject::Ellipse(d) => lemma_text_box_refl(s, p, path, d.text_box),
        ShapeObject::Arc(d) => lemma_text_box_refl(s, p, path, d.text_box),
        ShapeObject::Polygon(d) => lemma_text_box_refl(s, p, path, d.text_box),
        ShapeObject::Curve(d) => lemma_text_box_refl(s, p, path, d.text_box),
        ShapeObject::Chart(d) => lemma_text_box_refl(s, p, path, d.text_box),
        ShapeObject::Ole(d) => lemma_text_box_refl(s, p, path, d.text_box),
        ShapeObject::Group(g) => lemma_shapes_refl(s, p, path + ".child["@, g.children@, 0),
        ShapeObject::Picture(_) => {},
    }
}

proof fn lemma_shapes_refl(s: nat, p: nat, prefix: Seq<char>, xs: Seq<ShapeObject>, k: nat)
    ensures
        shapes_diffs(s, p, prefix, xs, xs, k) =~= Seq::<Difference>::empty(),
    decreases xs, xs.len() - k,
{
    if k < xs.len() {
        lemma_shape_refl(s, p, indexed(prefix, k), xs[k as int]);
        lemma_shapes_refl(s, p, prefix, xs, k + 1);
    }
}

proof fn lemma_body_refl(i: nat, ps: Seq<Paragraph>, j: nat)
    ensures
        body_paras_diffs(i, ps, ps, j) =~= Seq::<Difference>::empty(),
    decreases ps.len() - j,
{
    if j < ps.len() {
        lemma_para_refl(i, j, Seq::empty(), ps[j as int]);
        lemma_body_refl(i, ps, j + 1);
    }
}

proof fn lemma_sections_refl(ss: Seq<Section>, i: nat)
    ensures
        sections_diffs(ss, ss, i) =~= Seq::<Difference>::empty(),
    decreases ss.len() - i,
{
    if i < ss.len() {
        lemma_body_refl(i, ss[i as int].paragraphs@, 0);
        lemma_sections_refl(ss, i + 1);
    }
}

/// A document compared with itself shows no difference: a round trip that
/// gives back the same document passes.
pub proof fn lemma_diff_documents_reflexive(a: Document)
    ensures
        doc_diffs(a, a) =~= Seq::<Difference>::empty(),
{
    lemma_sections_refl(a.sections@, 0);
}

} // verus!

verus! {

// ---------------------------------------------------------------------------
// Comparing the other way round swaps expected and actual
// ---------------------------------------------------------------------------

/// The same difference seen from the other side: `expected` and `actual`
/// exchanged, everything else kept.
pub open spec fn swapped(d: Difference) -> Difference {
    match d {
        Difference::SectionCount { expected, actual } =>
            Difference::SectionCount { expected: actual, actual: expected },
        Difference::ParagraphCount { section, expected, actual } =>
            Difference::ParagraphCount { section, expected: actual, actual: expected },
        Difference::CharShapeCount { expected, actual } =>
            Difference::CharShapeCount { expected: actual, actual: expected },
        Difference::ParaShapeCount { expected, actual } =>
            Difference::ParaShapeCount { expected: actual, actual: expected },
        Difference::BorderFillCount { expected, actual } =>
            Difference::BorderFillCount { expected: actual, actual: expected },
        Difference::TabDefCount { expected, actual } =>
            Difference::TabDefCount { expected: actual, actual: expected },
        Difference::NumberingCount { expected, actual } =>
            Difference::NumberingCount { expected: actual, actual: expected },
        Difference::StyleCount { expected, actual } =>
            Difference::StyleCount { expected: actual, actual: expected },
        Difference::BinDataContentCount { expected, actual } =>
            Difference::BinDataContentCount { expected: actual, actual: expected },
        Difference::ParagraphCharShapes { section, paragraph, path, expected, actual } =>
            Difference::ParagraphCharShapes { section, paragraph, path, expected: actual, actual: expected },
    }
}

/// Every difference of a list seen from the other side.
pub open spec fn swap_all(ds: Seq<Difference>) -> Seq<Difference> {
    ds.map_values(|d: Difference| swapped(d))
}

proof fn lemma_swap_add(x: Seq<Difference>, y: Seq<Difference>)
    ensures
        swap_all(x + y) =~= swap_all(x) + swap_all(y),
{
}

proof fn lemma_swap_empty()
    ensures
        swap_all(Seq::<Difference>::empty()) =~= Seq::<Difference>::empty(),
{
}

proof fn lemma_swap_if(c: bool, d: Difference)
    ensures
        swap_all(diff_if(c, d)) =~= diff_if(c, swapped(d)),
{
}

proof fn lemma_para_sym(s: nat, p: nat, path: Seq<char>, x: Paragraph, y: Paragraph)
    ensures
        para_diffs(s, p, path, y, x) =~= swap_all(para_diffs(s, p, path, x, y)),
    decreases x, 0nat,
{
    let own = diff_if(x.char_shapes@ != y.char_shapes@, Difference::ParagraphCharShapes {
        section: s,
        paragraph: p,
        path,
        expected: char_shapes_text(x.char_shapes@),
        actual: char_shapes_text(y.char_shapes@),
    });
    lemma_swap_if(x.char_shapes@ != y.char_shapes@, Difference::ParagraphCharShapes {
        section: s,
        paragraph: p,
        path,
        expected: char_shapes_text(x.char_shapes@),
        actual: char_shapes_text(y.char_shapes@),
    });
    lemma_controls_sym(s, p, path, x.controls@, y.controls@, 0);
    lemma_swap_add(own, controls_diffs(s, p, path, x.controls@, y.controls@, 0));
}

proof fn lemma_controls_sym(s: nat, p: nat, path: Seq<char>, ca: Seq<Control>, cb: Seq<Control>, ci: nat)
    ensures
        controls_diffs(s, p, path, cb, ca, ci) =~= swap_all(controls_diffs(s, p, path, ca, cb, ci)),
    decreases ca, ca.len() - ci,
{
    if ci < ca.len() && ci < cb.len() {
        lemma_control_sym(s, p, path, ci, ca[ci as int], cb[ci as int]);
        lemma_controls_sym(s, p, path, ca, cb, ci + 1);
        lemma_swap_add(control_diffs(s, p, path, ci, ca[ci as int], cb[ci as int]),
            controls_diffs(s, p, path, ca, cb, ci + 1));
    } else {
        lemma_swap_empty();
    }
}

proof fn lemma_control_sym(s: nat, p: nat, path: Seq<char>, ci: nat, a: Control, b: Control)
    ensures
        control_diffs(s, p, path, ci, b, a) =~= swap_all(control_diffs(s, p, path, ci, a, b)),
    decreases a, 0nat,
{
    lemma_swap_empty();
    match (a, b) {
        (Control::Table(ta), Control::Table(tb)) => lemma_cells_sym(s, p, path, ci, ta.cells@, tb.cells@, 0),
        (Control::Shape(sa), Control::Shape(sb)) => lemma_shape_sym(s, p, shape_path(path, ci), *sa, *sb),
        (Control::Footnote(na), Control::Footnote(nb)) =>
            lemma_paras_sym(s, p, footnote_prefix(path, ci), na.paragraphs@, nb.paragraphs@, 0),
        (Control::Endnote(na), Control::Endnote(nb)) =>
            lemma_paras_sym(s, p, endnote_prefix(path, ci), na.paragraphs@, nb.paragraphs@, 0),
        _ => {},
    }
}

proof fn lemma_cells_sym(s: nat, p: nat, path: Seq<char>, ci: nat, ta: Seq<Cell>, tb: Seq<Cell>, i: nat)
    ensures
        cells_diffs(s, p, path, ci, tb, ta, i) =~= swap_all(cells_diffs(s, p, path, ci, ta, tb, i)),
    decreases ta, ta.len() - i,
{
    if i < ta.len() && i < tb.len() {
        lemma_paras_sym(s, p, cell_prefix(path, ci, i), ta[i as int].paragraphs@, tb[i as int].paragraphs@, 0);
        lemma_cells_sym(s, p, path, ci, ta, tb, i + 1);
        lemma_swap_add(
            paras_diffs(s, p, cell_prefix(path, ci, i), ta[i as int].paragraphs@, tb[i as int].paragraphs@, 0),
            cells_diffs(s, p, path, ci, ta, tb, i + 1));
    } else {
        lemma_swap_empty();
    }
}

proof fn lemma_paras_sym(s: nat, p: nat, prefix: Seq<char>, qa: Seq<Paragraph>, qb: Seq<Paragraph>, k: nat)
    ensures
        paras_diffs(s, p, prefix, qb, qa, k) =~= swap_all(paras_diffs(s, p, prefix, qa, qb, k)),
    decreases qa, qa.len() - k,
{
    if k < qa.len() && k < qb.len() {
        lemma_para_sym(s, p, indexed(prefix, k), qa[k as int], qb[k as int]);
        lemma_paras_sym(s, p, prefix, qa, qb, k + 1);
        lemma_swap_add(para_diffs(s, p, indexed(prefix, k), qa[k as int], qb[k as int]),
            paras_diffs(s, p, prefix, qa, qb, k + 1));
    } else {
        lemma_swap_empty();
    }
}

proof fn lemma_text_box_sym(s: nat, p: nat, path: Seq<char>, ta: Option<TextBox>, tb: Option<TextBox>)
    ensures
        text_box_diffs(s, p, path, tb, ta) =~= swap_all(text_box_diffs(s, p, path, ta, tb)),
    decreases ta, 0nat,
{
    lemma_swap_empty();
    match (ta, tb) {
        (Some(a), Some(b)) => lemma_paras_sym(s, p, path + ".tb.p["@, a.paragraphs@, b.paragraphs@, 0),
        _ => {},
    }
}

/// The text-box part of a drawing comparison.
spec fn in_text_boxes(s: nat, p: nat, path: Seq<char>, sa: ShapeObject, sb: ShapeObject) -> Seq<Difference> {
    text_box_diffs(s, p, path, spec_text_box(sa), spec_text_box(sb))
}

proof fn lemma_shape_sym(s: nat, p: nat, path: Seq<char>, sa: ShapeObject, sb: ShapeObject)
    ensures
        shape_diffs(s, p, path, sb, sa) =~= swap_all(shape_diffs(s, p, path, sa, sb)),
    decreases sa, 0nat,
{
    lemma_swap_empty();
    let tb = spec_text_box(sb);
    match sa {
        ShapeObject::Line(d) => lemma_text_box_sym(s, p, path, d.text_box, tb),
        ShapeObject::Rectangle(d) => lemma_text_box_sym(s, p, path, d.text_box, tb),
        ShapeObject::Ellipse(d) => lemma_text_box_sym(s, p, path, d.text_box, tb),
        ShapeObject::Arc(d) => lemma_text_box_sym(s, p, path, d.text_box, tb),
        ShapeObject::Polygon(d) => lemma_text_box_sym(s, p, path, d.text_box, tb),
        ShapeObject::Curve(d) => lemma_text_box_sym(s, p, path, d.text_box, tb),
        ShapeObject::Chart(d) => lemma_text_box_sym(s, p, path, d.text_box, tb),
        ShapeObject::Ole(d) => lemma_text_box_sym(s, p, path, d.text_box, tb),
        ShapeObject::Group(_) => {},
        ShapeObject::Picture(_) => {},
    }
    let in_a = in_text_boxes(s, p, path, sa, sb);
    let in_b = in_text_boxes(s, p, path, sb, sa);
    let ch_a = match (sa, sb) {
        (ShapeObject::Group(ga), ShapeObject::Group(gb)) =>
            shapes_diffs(s, p, path + ".child["@, ga.children@, gb.children@, 0),
        _ => Seq::empty(),
    };
    let ch_b = match (sb, sa) {
        (ShapeObject::Group(gb), ShapeObject::Group(ga)) =>
            shapes_diffs(s, p, path + ".child["@, gb.children@, ga.children@, 0),
        _ => Seq::empty(),
    };
    match (sa, sb) {
        (ShapeObject::Group(ga), ShapeObject::Group(gb)) =>
            lemma_shapes_sym(s, p, path + ".child["@, ga.children@, gb.children@, 0),
        _ => {},
    }
    assert(shape_diffs(s, p, path, sa, sb) == in_a + ch_a);
    assert(shape_diffs(s, p, path, sb, sa) == in_b + ch_b);
    assert(in_b =~= swap_all(in_a));
    assert(ch_b =~= swap_all(ch_a));
    lemma_swap_add(in_a, ch_a);
}

proof fn lemma_shapes_sym(s: nat, p: nat, prefix: Seq<char>, xa: Seq<ShapeObject>, xb: Seq<ShapeObject>, k: nat)
    ensures
        shapes_diffs(s, p, prefix, xb, xa, k) =~= swap_all(shapes_diffs(s, p, prefix, xa, xb, k)),
    decreases xa, xa.len() - k,
{
    if k < xa.len() && k < xb.len() {
        lemma_shape_sym(s, p, indexed(prefix, k), xa[k as int], xb[k as int]);
        lemma_shapes_sym(s, p, prefix, xa, xb, k + 1);
        lemma_swap_add(shape_diffs(s, p, indexed(prefix, k), xa[k as int], xb[k as int]),
            shapes_diffs(s, p, prefix, xa, xb, k + 1));
    } else {
        lemma_swap_empty();
    }
}

} // verus!

verus! {

proof fn lemma_body_sym(i: nat, pa: Seq<Paragraph>, pb: Seq<Paragraph>, j: nat)
    ensures
        body_paras_diffs(i, pb, pa, j) =~= swap_all(body_paras_diffs(i, pa, pb, j)),
    decreases pa.len() - j,
{
    if j < pa.len() && j < pb.len() {
        lemma_para_sym(i, j, Seq::empty(), pa[j as int], pb[j as int]);
        lemma_body_sym(i, pa, pb, j + 1);
        lemma_swap_add(para_diffs(i, j, Seq::empty(), pa[j as int], pb[j as int]),
            body_paras_diffs(i, pa, pb, j + 1));
    } else {
        lemma_swap_empty();
    }
}

proof fn lemma_sections_sym(sa: Seq<Section>, sb: Seq<Section>, i: nat)
    ensures
        sections_diffs(sb, sa, i) =~= swap_all(sections_diffs(sa, sb, i)),
    decreases sa.len() - i,
{
    if i < sa.len() && i < sb.len() {
        let ap = sa[i as int].paragraphs@.len();
        let bp = sb[i as int].paragraphs@.len();
        let c = diff_if(ap != bp, Difference::ParagraphCount { section: i, expected: ap, actual: bp });
        let body = body_paras_diffs(i, sa[i as int].paragraphs@, sb[i as int].paragraphs@, 0);
        let rest = sections_diffs(sa, sb, i + 1);
        lemma_swap_if(ap != bp, Difference::ParagraphCount { section: i, expected: ap, actual: bp });
        lemma_body_sym(i, sa[i as int].paragraphs@, sb[i as int].paragraphs@, 0);
        lemma_sections_sym(sa, sb, i + 1);
        lemma_swap_add(c, body);
        lemma_swap_add(c + body, rest);
    } else {
        lemma_swap_empty();
    }
}

proof fn lemma_resource_sym(kind: nat, e: nat, a: nat)
    ensures
        resource_diff(kind, a, e) =~= swap_all(resource_diff(kind, e, a)),
{
}

/// Comparing the other way round finds the same differences, in the same
/// order, with expected and actual exchanged.
pub proof fn lemma_diff_documents_symmetric(a: Document, b: Document)
    ensures
        doc_diffs(b, a) =~= swap_all(doc_diffs(a, b)),
{
    let sc = diff_if(a.sections@.len() != b.sections@.len(),
        Difference::SectionCount { expected: a.sections@.len(), actual: b.sections@.len() });
    let secs = sections_diffs(a.sections@, b.sections@, 0);
    let hd = header_diffs(a.doc_info, b.doc_info);
    let bin = diff_if(a.bin_data_content_count != b.bin_data_content_count,
        Difference::BinDataContentCount {
            expected: a.bin_data_content_count as nat,
            actual: b.bin_data_content_count as nat,
        });
    lemma_swap_if(a.sections@.len() != b.sections@.len(),
        Difference::SectionCount { expected: a.sections@.len(), actual: b.sections@.len() });
    lemma_swap_if(a.bin_data_content_count != b.bin_data_content_count,
        Difference::BinDataContentCount {
            expected: a.bin_data_content_count as nat,
            actual: b.bin_data_content_count as nat,
        });
    lemma_sections_sym(a.sections@, b.sections@, 0);
    let (x, y) = (a.doc_info, b.doc_info);
    let r0 = resource_diff(0, x.char_shape_count as nat, y.char_shape_count as nat);
    let r1 = resource_diff(1, x.para_shape_count as nat, y.para_shape_count as nat);
    let r2 = resource_diff(2, x.border_fill_count as nat, y.border_fill_count as nat);
    let r3 = resource_diff(3, x.tab_def_count as nat, y.tab_def_count as nat);
    let r4 = resource_diff(4, x.numbering_count as nat, y.numbering_count as nat);
    let r5 = resource_diff(5, x.style_count as nat, y.style_count as nat);
    lemma_resource_sym(0, x.char_shape_count as nat, y.char_shape_count as nat);
    lemma_resource_sym(1, x.para_shape_count as nat, y.para_shape_count as nat);
    lemma_resource_sym(2, x.border_fill_count as nat, y.border_fill_count as nat);
    lemma_resource_sym(3, x.tab_def_count as nat, y.tab_def_count as nat);
    lemma_resource_sym(4, x.numbering_count as nat, y.numbering_count as nat);
    lemma_resource_sym(5, x.style_count as nat, y.style_count as nat);
    lemma_swap_add(r0, r1);
    lemma_swap_add(r0 + r1, r2);
    lemma_swap_add(r0 + r1 + r2, r3);
    lemma_swap_add(r0 + r1 + r2 + r3, r4);
    lemma_swap_add(r0 + r1 + r2 + r3 + r4, r5);
    assert(header_diffs(y, x) =~= swap_all(hd));
    lemma_swap_add(sc, secs);
    lemma_swap_add(sc + secs, hd);
    lemma_swap_add(sc + secs + hd, bin);
}

} // verus!

verus! {

// ---------------------------------------------------------------------------
// What the comparison does not look at
// ---------------------------------------------------------------------------

/// Two control lists agree on every pair up to the shorter list.
pub open spec fn controls_agree(ca: Seq<Control>, cb: Seq<Control>) -> bool {
    forall|i: int| 0 <= i < ca.len() && i < cb.len() ==> ca[i] == cb[i]
}

/// Two paragraphs differ at most in their text, their line segments and
/// the controls past the shorter control list.
pub open spec fn same_but_unchecked(pa: Paragraph, pb: Paragraph) -> bool {
    &&& pa.char_shapes@ == pb.char_shapes@
    &&& controls_agree(pa.controls@, pb.controls@)
}

/// Two documents differ at most in paragraph text, line segments and
/// trailing controls: same section and paragraph counts, same runs, the
/// controls equal as far as both lists go, same header and binary-data
/// counts.
pub open spec fn same_but_text_segments_or_trailing_controls(a: Document, b: Document) -> bool {
    &&& a.sections@.len() == b.sections@.len()
    &&& forall|i: int| 0 <= i < a.sections@.len() ==>
        (#[trigger] a.sections@[i]).paragraphs@.len() == b.sections@[i].paragraphs@.len()
    &&& forall|i: int, j: int| 0 <= i < a.sections@.len() && 0 <= j < a.sections@[i].paragraphs@.len() ==>
        same_but_unchecked(#[trigger] a.sections@[i].paragraphs@[j], b.sections@[i].paragraphs@[j])
    &&& a.doc_info == b.doc_info
    &&& a.bin_data_content_count == b.bin_data_content_count
}

proof fn lemma_controls_agree_clean(s: nat, p: nat, path: Seq<char>, ca: Seq<Control>, cb: Seq<Control>, ci: nat)
    requires
        controls_agree(ca, cb),
    ensures
        controls_diffs(s, p, path, ca, cb, ci) =~= Seq::<Difference>::empty(),
    decreases ca.len() - ci,
{
    if ci < ca.len() && ci < cb.len() {
        assert(ca[ci as int] == cb[ci as int]);
        lemma_control_refl(s, p, path, ci, ca[ci as int]);
        lemma_controls_agree_clean(s, p, path, ca, cb, ci + 1);
    }
}

proof fn lemma_body_unchecked_clean(i: nat, pa: Seq<Paragraph>, pb: Seq<Paragraph>, j: nat)
    requires
        pa.len() == pb.len(),
        forall|k: int| 0 <= k < pa.len() ==> same_but_unchecked(#[trigger] pa[k], pb[k]),
    ensures
        body_paras_diffs(i, pa, pb, j) =~= Seq::<Difference>::empty(),
    decreases pa.len() - j,
{
    if j < pa.len() {
        let (x, y) = (pa[j as int], pb[j as int]);
        assert(same_but_unchecked(x, y));
        lemma_controls_agree_clean(i, j, Seq::empty(), x.controls@, y.controls@, 0);
        assert(para_diffs(i, j, Seq::empty(), x, y) =~= Seq::<Difference>::empty());
        lemma_body_unchecked_clean(i, pa, pb, j + 1);
    }
}

proof fn lemma_sections_unchecked_clean(a: Document, b: Document, i: nat)
    requires
        same_but_text_segments_or_trailing_controls(a, b),
    ensures
        sections_diffs(a.sections@, b.sections@, i) =~= Seq::<Difference>::empty(),
    decreases a.sections@.len() - i,
{
    if i < a.sections@.len() {
        let (pa, pb) = (a.sections@[i as int].paragraphs@, b.sections@[i as int].paragraphs@);
        assert(pa.len() == pb.len());
        assert forall|k: int| 0 <= k < pa.len() implies same_but_unchecked(#[trigger] pa[k], pb[k]) by {
            assert(same_but_unchecked(a.sections@[i as int].paragraphs@[k], b.sections@[i as int].paragraphs@[k]));
        }
        lemma_body_unchecked_clean(i, pa, pb, 0);
        lemma_sections_unchecked_clean(a, b, i + 1);
    }
}

/// Paragraph text, line segments and controls past the shorter control
/// list are not compared: documents that differ only there show no
/// difference.
pub proof fn lemma_text_segments_and_trailing_controls_unchecked(a: Document, b: Document)
    requires
        same_but_text_segments_or_trailing_controls(a, b),
    ensures
        doc_diffs(a, b) =~= Seq::<Difference>::empty(),
{
    lemma_sections_unchecked_clean(a, b, 0);
}

} // verus!

verus! {

// ---------------------------------------------------------------------------
// A difference inside any table cell is reported
// ---------------------------------------------------------------------------

proof fn lemma_contains_left(a: Seq<Difference>, b: Seq<Difference>, d: Difference)
    requires
        a.contains(d),
    ensures
        (a + b).contains(d),
{
    let x = choose|x: int| 0 <= x < a.len() && a[x] == d;
    assert((a + b)[x] == d);
}

proof fn lemma_contains_right(a: Seq<Difference>, b: Seq<Difference>, d: Difference)
    requires
        b.contains(d),
    ensures
        (a + b).contains(d),
{
    let x = choose|x: int| 0 <= x < b.len() && b[x] == d;
    assert((a + b)[a.len() + x] == d);
}

proof fn lemma_paras_contains(s: nat, p: nat, prefix: Seq<char>, qa: Seq<Paragraph>, qb: Seq<Paragraph>, k0: nat, k: nat, d: Difference)
    requires
        k0 <= k,
        k < qa.len(),
        k < qb.len(),
        para_diffs(s, p, indexed(prefix, k), qa[k as int], qb[k as int]).contains(d),
    ensures
        paras_diffs(s, p, prefix, qa, qb, k0).contains(d),
    decreases k - k0,
{
    let head = para_diffs(s, p, indexed(prefix, k0), qa[k0 as int], qb[k0 as int]);
    let rest = paras_diffs(s, p, prefix, qa, qb, k0 + 1);
    if k0 == k {
        lemma_contains_left(head, rest, d);
    } else {
        lemma_paras_contains(s, p, prefix, qa, qb, k0 + 1, k, d);
        lemma_contains_right(head, rest, d);
    }
}

proof fn lemma_cells_contains(s: nat, p: nat, path: Seq<char>, ci: nat, ta: Seq<Cell>, tb: Seq<Cell>, c0: nat, c: nat, d: Difference)
    requires
        c0 <= c,
        c < ta.len(),
        c < tb.len(),
        paras_diffs(s, p, cell_prefix(path, ci, c), ta[c as int].paragraphs@, tb[c as int].paragraphs@, 0).contains(d),
    ensures
        cells_diffs(s, p, path, ci, ta, tb, c0).contains(d),
    decreases c - c0,
{
    let head = paras_diffs(s, p, cell_prefix(path, ci, c0), ta[c0 as int].paragraphs@, tb[c0 as int].paragraphs@, 0);
    let rest = cells_diffs(s, p, path, ci, ta, tb, c0 + 1);
    if c0 == c {
        lemma_contains_left(head, rest, d);
    } else {
        lemma_cells_contains(s, p, path, ci, ta, tb, c0 + 1, c, d);
        lemma_contains_right(head, rest, d);
    }
}

proof fn lemma_controls_contains(s: nat, p: nat, path: Seq<char>, ca: Seq<Control>, cb: Seq<Control>, c0: nat, c: nat, d: Difference)
    requires
        c0 <= c,
        c < ca.len(),
        c < cb.len(),
        control_diffs(s, p, path, c, ca[c as int], cb[c as int]).contains(d),
    ensures
        controls_diffs(s, p, path, ca, cb, c0).contains(d),
    decreases c - c0,
{
    let head = control_diffs(s, p, path, c0, ca[c0 as int], cb[c0 as int]);
    let rest = controls_diffs(s, p, path, ca, cb, c0 + 1);
    if c0 == c {
        lemma_contains_left(head, rest, d);
    } else {
        lemma_controls_contains(s, p, path, ca, cb, c0 + 1, c, d);
        lemma_contains_right(head, rest, d);
    }
}

proof fn lemma_body_contains(i: nat, pa: Seq<Paragraph>, pb: Seq<Paragraph>, j0: nat, j: nat, d: Difference)
    requires
        j0 <= j,
        j < pa.len(),
        j < pb.len(),
        para_diffs(i, j, Seq::empty(), pa[j as int], pb[j as int]).contains(d),
    ensures
        body_paras_diffs(i, pa, pb, j0).contains(d),
    decreases j - j0,
{
    let head = para_diffs(i, j0, Seq::empty(), pa[j0 as int], pb[j0 as int]);
    let rest = body_paras_diffs(i, pa, pb, j0 + 1);
    if j0 == j {
        lemma_contains_left(head, rest, d);
    } else {
        lemma_body_contains(i, pa, pb, j0 + 1, j, d);
        lemma_contains_right(head, rest, d);
    }
}

proof fn lemma_sections_contains(sa: Seq<Section>, sb: Seq<Section>, i0: nat, i: nat, d: Difference)
    requires
        i0 <= i,
        i < sa.len(),
        i < sb.len(),
        body_paras_diffs(i, sa[i as int].paragraphs@, sb[i as int].paragraphs@, 0).contains(d),
    ensures
        sections_diffs(sa, sb, i0).contains(d),
    decreases i - i0,
{
    let ap = sa[i0 as int].paragraphs@.len();
    let bp = sb[i0 as int].paragraphs@.len();
    let c = diff_if(ap != bp, Difference::ParagraphCount { section: i0, expected: ap, actual: bp });
    let body = body_paras_diffs(i0, sa[i0 as int].paragraphs@, sb[i0 as int].paragraphs@, 0);
    let rest = sections_diffs(sa, sb, i0 + 1);
    if i0 == i {
        lemma_contains_right(c, body, d);
        lemma_contains_left(c + body, rest, d);
    } else {
        lemma_sections_contains(sa, sb, i0 + 1, i, d);
        lemma_contains_right(c + body, rest, d);
    }
}

/// A run difference in a paragraph of a table cell is reported, for every
/// cell both tables have (not only the first): when control `ci` of body
/// paragraph `j` of section `i` is a table on both sides, and paragraph `q`
/// of cell `k` has different runs, the comparison lists a run difference at
/// section `i`, paragraph `j`, path `/ctrl[ci]tbl.cell[k].p[q]`, with both
/// run lists.
pub proof fn lemma_cell_run_difference_reported(
    a: Document,
    b: Document,
    i: int,
    j: int,
    ci: int,
    k: int,
    q: int,
)
    requires
        0 <= i < a.sections@.len() && i < b.sections@.len(),
        0 <= j < a.sections@[i].paragraphs@.len() && j < b.sections@[i].paragraphs@.len(),
        0 <= ci < a.sections@[i].paragraphs@[j].controls@.len()
            && ci < b.sections@[i].paragraphs@[j].controls@.len(),
        a.sections@[i].paragraphs@[j].controls@[ci] is Table,
        b.sections@[i].paragraphs@[j].controls@[ci] is Table,
        0 <= k < a.sections@[i].paragraphs@[j].controls@[ci]->Table_0.cells@.len()
            && k < b.sections@[i].paragraphs@[j].controls@[ci]->Table_0.cells@.len(),
        0 <= q < a.sections@[i].paragraphs@[j].controls@[ci]->Table_0.cells@[k].paragraphs@.len()
            && q < b.sections@[i].paragraphs@[j].controls@[ci]->Table_0.cells@[k].paragraphs@.len(),
        a.sections@[i].paragraphs@[j].controls@[ci]->Table_0.cells@[k].paragraphs@[q].char_shapes@
            != b.sections@[i].paragraphs@[j].controls@[ci]->Table_0.cells@[k].paragraphs@[q].char_shapes@,
    ensures
        doc_diffs(a, b).contains(Difference::ParagraphCharShapes {
            section: i as nat,
            paragraph: j as nat,
            path: "/ctrl["@ + decimal(ci as nat) + "]tbl.cell["@ + decimal(k as nat) + "].p["@
                + decimal(q as nat) + seq![']'],
            expected: char_shapes_text(
                a.sections@[i].paragraphs@[j].controls@[ci]->Table_0.cells@[k].paragraphs@[q].char_shapes@),
            actual: char_shapes_text(
                b.sections@[i].paragraphs@[j].controls@[ci]->Table_0.cells@[k].paragraphs@[q].char_shapes@),
        }),
{
    let (si, sj, sci, sk, sq) = (i as nat, j as nat, ci as nat, k as nat, q as nat);
    let pa = a.sections@[i].paragraphs@[j];
    let pb = b.sections@[i].paragraphs@[j];
    let ta = pa.controls@[ci]->Table_0;
    let tb = pb.controls@[ci]->Table_0;
    let xa = ta.cells@[k].paragraphs@[q];
    let xb = tb.cells@[k].paragraphs@[q];
    let empty = Seq::<char>::empty();
    let prefix = cell_prefix(empty, sci, sk);
    let path = indexed(prefix, sq);
    assert(path =~= "/ctrl["@ + decimal(sci) + "]tbl.cell["@ + decimal(sk) + "].p["@ + decimal(sq) + seq![']']);
    let d = Difference::ParagraphCharShapes {
        section: si,
        paragraph: sj,
        path,
        expected: char_shapes_text(xa.char_shapes@),
        actual: char_shapes_text(xb.char_shapes@),
    };
    // The paragraph's own difference.
    let own = seq![d];
    assert(own[0] == d);
    let inner = para_diffs(si, sj, path, xa, xb);
    assert(inner == own + controls_diffs(si, sj, path, xa.controls@, xb.controls@, 0));
    lemma_contains_left(own, controls_diffs(si, sj, path, xa.controls@, xb.controls@, 0), d);
    // Up through the cell, the table control, the paragraph, the section.
    lemma_paras_contains(si, sj, prefix, ta.cells@[k].paragraphs@, tb.cells@[k].paragraphs@, 0, sq, d);
    lemma_cells_contains(si, sj, empty, sci, ta.cells@, tb.cells@, 0, sk, d);
    assert(control_diffs(si, sj, empty, sci, pa.controls@[ci], pb.controls@[ci])
        == cells_diffs(si, sj, empty, sci, ta.cells@, tb.cells@, 0));
    lemma_controls_contains(si, sj, empty, pa.controls@, pb.controls@, 0, sci, d);
    let own_p = diff_if(pa.char_shapes@ != pb.char_shapes@, Difference::ParagraphCharShapes {
        section: si,
        paragraph: sj,
        path: empty,
        expected: char_shapes_text(pa.char_shapes@),
        actual: char_shapes_text(pb.char_shapes@),
    });
    assert(para_diffs(si, sj, empty, pa, pb) == own_p + controls_diffs(si, sj, empty, pa.controls@, pb.controls@, 0));
    lemma_contains_right(own_p, controls_diffs(si, sj, empty, pa.controls@, pb.controls@, 0), d);
    lemma_body_contains(si, a.sections@[i].paragraphs@, b.sections@[i].paragraphs@, 0, sj, d);
    lemma_sections_contains(a.sections@, b.sections@, 0, si, d);
    let sc = diff_if(a.sections@.len() != b.sections@.len(),
        Difference::SectionCount { expected: a.sections@.len(), actual: b.sections@.len() });
    let secs = sections_diffs(a.sections@, b.sections@, 0);
    let hd = header_diffs(a.doc_info, b.doc_info);
    let bin = diff_if(a.bin_data_content_count != b.bin_data_content_count,
        Difference::BinDataContentCount {
            expected: a.bin_data_content_count as nat,
            actual: b.bin_data_content_count as nat,
        });
    lemma_contains_right(sc, secs, d);
    lemma_contains_left(sc + secs, hd, d);
    lemma_contains_left(sc + secs + hd, bin, d);
    assert(doc_diffs(a, b) == sc + secs + hd + bin);
}

} // verus!
