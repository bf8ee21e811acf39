//! The document model that the comparisons and the height cursor read:
//! sections of paragraphs, and the controls (tables, drawings, notes) that
//! carry paragraphs of their own.

use vstd::prelude::*;

verus! {

/// One laid-out line of a paragraph, in HWP units.
#[derive(Clone, Copy, Debug, PartialEq, Eq, Structural)]
pub struct LineSeg {
    pub vertical_pos: i32,
    pub line_height: i32,
    pub line_spacing: i32,
    pub segment_width: i32,
}

/// Start of a character-shape run inside a paragraph.
#[derive(Clone, Copy, Debug, PartialEq, Eq, Structural)]
pub struct CharShapeRef {
    pub start_pos: u32,
    pub char_shape_id: u32,
}

/// How body text flows around an object.
#[derive(Clone, Copy, Debug, PartialEq, Eq, Structural)]
pub enum TextWrap {
    Square,
    Tight,
    Through,
    TopAndBottom,
    BehindText,
    InFrontOfText,
}

/// What an object's vertical offset is measured from.
#[derive(Clone, Copy, Debug, PartialEq, Eq, Structural)]
pub enum VertRelTo {
    Paper,
    Page,
    Para,
}

/// Placement attributes shared by every object control.
#[derive(Clone, Copy, Debug, PartialEq, Eq, Structural)]
pub struct CommonObjAttr {
    pub treat_as_char: bool,
    pub text_wrap: TextWrap,
    pub vert_rel_to: VertRelTo,
}

/// A paragraph: its text, its character-shape runs, its line segments and
/// the controls anchored in it.
#[derive(Debug)]
pub struct Paragraph {
    pub text: String,
    pub para_shape_id: u16,
    pub char_shapes: Vec<CharShapeRef>,
    pub line_segs: Vec<LineSeg>,
    pub controls: Vec<Control>,
}

/// A control anchored in a paragraph.
#[derive(Debug)]
pub enum Control {
    Table(Box<Table>),
    Shape(Box<ShapeObject>),
    Picture(Box<Picture>),
    Equation(Box<Equation>),
    Footnote(Box<Footnote>),
    Endnote(Box<Endnote>),
    /// Any other control (section or column definitions, fields, ...), which
    /// holds no paragraphs.
    Other,
}

#[derive(Debug)]
pub struct Table {
    pub common: CommonObjAttr,
    pub cells: Vec<Cell>,
}

#[derive(Debug)]
pub struct Cell {
    pub paragraphs: Vec<Paragraph>,
}

#[derive(Debug)]
pub struct Picture {
    pub common: CommonObjAttr,
}

#[derive(Debug)]
pub struct Equation {
    pub common: CommonObjAttr,
}

#[derive(Debug)]
pub struct Footnote {
    pub paragraphs: Vec<Paragraph>,
}

#[derive(Debug)]
pub struct Endnote {
    pub paragraphs: Vec<Paragraph>,
}

/// Text written inside a drawing object.
#[derive(Debug)]
pub struct TextBox {
    pub paragraphs: Vec<Paragraph>,
}

/// A drawing object that may carry a text box.
#[derive(Debug)]
pub struct DrawingShape {
    pub common: CommonObjAttr,
    pub text_box: Option<TextBox>,
}

/// A group of drawing objects.
#[derive(Debug)]
pub struct GroupShape {
    pub common: CommonObjAttr,
    pub children: Vec<ShapeObject>,
}

/// A drawing object.
#[derive(Debug)]
pub enum ShapeObject {
    Line(DrawingShape),
    Rectangle(DrawingShape),
    Ellipse(DrawingShape),
    Arc(DrawingShape),
    Polygon(DrawingShape),
    Curve(DrawingShape),
    Chart(DrawingShape),
    Ole(DrawingShape),
    Group(GroupShape),
    Picture(Picture),
}

impl ShapeObject {
    pub open spec fn spec_common(&self) -> CommonObjAttr {
        match self {
            ShapeObject::Line(x) => x.common,
            ShapeObject::Rectangle(x) => x.common,
            ShapeObject::Ellipse(x) => x.common,
            ShapeObject::Arc(x) => x.common,
            ShapeObject::Polygon(x) => x.common,
            ShapeObject::Curve(x) => x.common,
            ShapeObject::Chart(x) => x.common,
            ShapeObject::Ole(x) => x.common,
            ShapeObject::Group(x) => x.common,
            ShapeObject::Picture(x) => x.common,
        }
    }

    /// The placement attributes of the object.
    pub fn common(&self) -> (c: &CommonObjAttr)
        ensures
            *c == self.spec_common(),
    {
        match self {
            ShapeObject::Line(x) => &x.common,
            ShapeObject::Rectangle(x) => &x.common,
            ShapeObject::Ellipse(x) => &x.common,
            ShapeObject::Arc(x) => &x.common,
            ShapeObject::Polygon(x) => &x.common,
            ShapeObject::Curve(x) => &x.common,
            ShapeObject::Chart(x) => &x.common,
            ShapeObject::Ole(x) => &x.common,
            ShapeObject::Group(x) => &x.common,
            ShapeObject::Picture(x) => &x.common,
        }
    }
}

#[derive(Debug)]
pub struct Section {
    pub paragraphs: Vec<Paragraph>,
}

/// Resource counts of the document header.
#[derive(Clone, Copy, Debug, PartialEq, Eq, Structural)]
pub struct DocInfo {
    pub char_shape_count: usize,
    pub para_shape_count: usize,
    pub border_fill_count: usize,
    pub tab_def_count: usize,
    pub numbering_count: usize,
    pub style_count: usize,
}

/// A whole document.
#[derive(Debug)]
pub struct Document {
    pub sections: Vec<Section>,
    pub doc_info: DocInfo,
    pub bin_data_content_count: usize,
}

impl Default for DocInfo {
    fn default() -> (r: Self)
        ensures
            r.char_shape_count == 0 && r.para_shape_count == 0 && r.border_fill_count == 0
                && r.tab_def_count == 0 && r.numbering_count == 0 && r.style_count == 0,
    {
        DocInfo {
            char_shape_count: 0,
            para_shape_count: 0,
            border_fill_count: 0,
            tab_def_count: 0,
            numbering_count: 0,
            style_count: 0,
        }
    }
}

impl Default for Document {
    fn default() -> (r: Self)
        ensures
            r.sections@.len() == 0,
            r.doc_info.char_shape_count == 0 && r.doc_info.para_shape_count == 0
                && r.doc_info.border_fill_count == 0 && r.doc_info.tab_def_count == 0
                && r.doc_info.numbering_count == 0 && r.doc_info.style_count == 0,
            r.bin_data_content_count == 0,
    {
        Document { sections: Vec::new(), doc_info: DocInfo::default(), bin_data_content_count: 0 }
    }
}

impl Default for Section {
    fn default() -> (r: Self)
        ensures
            r.paragraphs@.len() == 0,
    {
        Section { paragraphs: Vec::new() }
    }
}

impl Default for Paragraph {
    fn default() -> (r: Self)
        ensures
            r.text@.len() == 0,
            r.para_shape_id == 0,
            r.char_shapes@.len() == 0,
            r.line_segs@.len() == 0,
            r.controls@.len() == 0,
    {
        Paragraph {
            text: String::new(),
            para_shape_id: 0,
            char_shapes: Vec::new(),
            line_segs: Vec::new(),
            controls: Vec::new(),
        }
    }
}

} // verus!
