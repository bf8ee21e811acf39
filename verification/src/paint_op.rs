//! Vocabulary of the paint layer: the names that backends and serialised
//! paint lists use for decorations, glyph-outline payloads and strokes,
//! text variants, glyph-run orientation and glyph clusters, and the
//! decisions on whether a stroke or a text style can be replayed strictly.

use vstd::prelude::*;

verus! {

#[derive(Debug, Clone, Copy, PartialEq, Eq, Structural)]
pub enum TextDecorationKind {
    Underline,
    Strikethrough,
    EmphasisDot,
}

impl TextDecorationKind {
    /// The serialised name.
    pub fn as_str(self) -> (s: &'static str)
        ensures
            s@ == match self {
                TextDecorationKind::Underline => "underline"@,
                TextDecorationKind::Strikethrough => "strikethrough"@,
                TextDecorationKind::EmphasisDot => "emphasisDot"@,
            },
    {
        match self {
            TextDecorationKind::Underline => "underline",
            TextDecorationKind::Strikethrough => "strikethrough",
            TextDecorationKind::EmphasisDot => "emphasisDot",
        }
    }
}

#[derive(Debug, Clone, Copy, PartialEq, Eq, Structural)]
pub enum GlyphOutlinePayloadKind {
    MonochromeFill,
    MonochromeFillStroke,
}

impl GlyphOutlinePayloadKind {
    /// The serialised name.
    pub fn as_str(self) -> (s: &'static str)
        ensures
            s@ == match self {
                GlyphOutlinePayloadKind::MonochromeFill => "monochromeFill"@,
                GlyphOutlinePayloadKind::MonochromeFillStroke => "monochromeFillStroke"@,
            },
    {
        match self {
            GlyphOutlinePayloadKind::MonochromeFill => "monochromeFill",
            GlyphOutlinePayloadKind::MonochromeFillStroke => "monochromeFillStroke",
        }
    }
}

#[derive(Debug, Clone, Copy, PartialEq, Eq, Structural)]
pub enum GlyphOutlineFillRule {
    NonZero,
    EvenOdd,
}

impl GlyphOutlineFillRule {
    /// The serialised name (as in SVG `fill-rule`).
    pub fn as_str(self) -> (s: &'static str)
        ensures
            s@ == match self {
                GlyphOutlineFillRule::NonZero => "nonzero"@,
                GlyphOutlineFillRule::EvenOdd => "evenodd"@,
            },
    {
        match self {
            GlyphOutlineFillRule::NonZero => "nonzero",
            GlyphOutlineFillRule::EvenOdd => "evenodd",
        }
    }
}

#[derive(Debug, Clone, Copy, PartialEq, Eq, Structural)]
pub enum GlyphOutlineStrokeJoin {
    Miter,
    Round,
    Bevel,
}

impl GlyphOutlineStrokeJoin {
    /// The serialised name.
    pub fn as_str(self) -> (s: &'static str)
        ensures
            s@ == match self {
                GlyphOutlineStrokeJoin::Miter => "miter"@,
                GlyphOutlineStrokeJoin::Round => "round"@,
                GlyphOutlineStrokeJoin::Bevel => "bevel"@,
            },
    {
        match self {
            GlyphOutlineStrokeJoin::Miter => "miter",
            GlyphOutlineStrokeJoin::Round => "round",
            GlyphOutlineStrokeJoin::Bevel => "bevel",
        }
    }
}

#[derive(Debug, Clone, Copy, PartialEq, Eq, Structural)]
pub enum GlyphOutlineStrokeCap {
    Butt,
    Round,
    Square,
}

impl GlyphOutlineStrokeCap {
    /// The serialised name.
    pub fn as_str(self) -> (s: &'static str)
        ensures
            s@ == match self {
                GlyphOutlineStrokeCap::Butt => "butt"@,
                GlyphOutlineStrokeCap::Round => "round"@,
                GlyphOutlineStrokeCap::Square => "square"@,
            },
    {
        match self {
            GlyphOutlineStrokeCap::Butt => "butt",
            GlyphOutlineStrokeCap::Round => "round",
            GlyphOutlineStrokeCap::Square => "square",
        }
    }
}

#[derive(Debug, Clone, Copy, PartialEq, Eq, Structural)]
pub enum GlyphOutlinePaintOrder {
    FillOnly,
    StrokeOnly,
    FillThenStroke,
    StrokeThenFill,
}

impl GlyphOutlinePaintOrder {
    /// The serialised name.
    pub fn as_str(self) -> (s: &'static str)
        ensures
            s@ == match self {
                GlyphOutlinePaintOrder::FillOnly => "fillOnly"@,
                GlyphOutlinePaintOrder::StrokeOnly => "strokeOnly"@,
                GlyphOutlinePaintOrder::FillThenStroke => "fillThenStroke"@,
                GlyphOutlinePaintOrder::StrokeThenFill => "strokeThenFill"@,
            },
    {
        match self {
            GlyphOutlinePaintOrder::FillOnly => "fillOnly",
            GlyphOutlinePaintOrder::StrokeOnly => "strokeOnly",
            GlyphOutlinePaintOrder::FillThenStroke => "fillThenStroke",
            GlyphOutlinePaintOrder::StrokeThenFill => "strokeThenFill",
        }
    }
}

/// The shape part of the strict glyph-outline stroke subset: miter joins,
/// butt caps, and both a fill and a stroke in either order.
pub open spec fn spec_is_strict_stroke_shape(
    join: GlyphOutlineStrokeJoin,
    cap: GlyphOutlineStrokeCap,
    order: GlyphOutlinePaintOrder,
) -> bool {
    &&& join == GlyphOutlineStrokeJoin::Miter
    &&& cap == GlyphOutlineStrokeCap::Butt
    &&& (order == GlyphOutlinePaintOrder::FillThenStroke
        || order == GlyphOutlinePaintOrder::StrokeThenFill)
}

/// Whether join, cap and paint order lie in the strict stroke subset (the
/// width and miter limit are checked apart, on their float values).
pub fn is_strict_stroke_shape(
    join: GlyphOutlineStrokeJoin,
    cap: GlyphOutlineStrokeCap,
    order: GlyphOutlinePaintOrder,
) -> (b: bool)
    ensures
        b == spec_is_strict_stroke_shape(join, cap, order),
{
    matches!(join, GlyphOutlineStrokeJoin::Miter) && matches!(cap, GlyphOutlineStrokeCap::Butt)
        && matches!(order, GlyphOutlinePaintOrder::FillThenStroke | GlyphOutlinePaintOrder::StrokeThenFill)
}

#[derive(Debug, Clone, Copy, PartialEq, Eq, Structural)]
pub enum TextVariantKind {
    TextRun,
    GlyphRun,
    GlyphOutline,
}

impl TextVariantKind {
    /// The serialised name.
    pub fn as_str(self) -> (s: &'static str)
        ensures
            s@ == match self {
                TextVariantKind::TextRun => "textRun"@,
                TextVariantKind::GlyphRun => "glyphRun"@,
                TextVariantKind::GlyphOutline => "glyphOutline"@,
            },
    {
        match self {
            TextVariantKind::TextRun => "textRun",
            TextVariantKind::GlyphRun => "glyphRun",
            TextVariantKind::GlyphOutline => "glyphOutline",
        }
    }
}

#[derive(Debug, Clone, Copy, PartialEq, Eq, Structural)]
pub enum TextVariantQuality {
    Exact,
    PositionAdjusted,
    Approximate,
    DiagnosticOnly,
    Omitted,
}

impl TextVariantQuality {
    /// The serialised name.
    pub fn as_str(self) -> (s: &'static str)
        ensures
            s@ == match self {
                TextVariantQuality::Exact => "exact"@,
                TextVariantQuality::PositionAdjusted => "positionAdjusted"@,
                TextVariantQuality::Approximate => "approximate"@,
                TextVariantQuality::DiagnosticOnly => "diagnosticOnly"@,
                TextVariantQuality::Omitted => "omitted"@,
            },
    {
        match self {
            TextVariantQuality::Exact => "exact",
            TextVariantQuality::PositionAdjusted => "positionAdjusted",
            TextVariantQuality::Approximate => "approximate",
            TextVariantQuality::DiagnosticOnly => "diagnosticOnly",
            TextVariantQuality::Omitted => "omitted",
        }
    }
}

/// Variant grouping metadata for TextRun/GlyphRun/GlyphOutline
/// alternatives. Consumers select one `variant_id` per `equivalence_group`
/// and paint every part of that variant; a TextRun fallback stays required.
#[derive(Debug, Clone)]
pub struct PaintVariantMeta {
    pub equivalence_group: String,
    pub variant_id: String,
    pub variant_kind: TextVariantKind,
    pub part_index: u32,
    pub part_count: u32,
    pub is_default_fallback: bool,
    pub requires: Vec<String>,
    pub quality: Option<TextVariantQuality>,
    pub anchor_op_id: Option<String>,
    pub local_paint_order: Option<u32>,
}

impl PaintVariantMeta {
    /// The metadata of the default TextRun fallback of a group: variant
    /// `textRun`, one part, no requirements, no quality, anchor or order.
    pub fn text_run_default(equivalence_group: String) -> (m: Self)
        ensures
            m.equivalence_group@ == equivalence_group@,
            m.variant_id@ == "textRun"@,
            m.variant_kind == TextVariantKind::TextRun,
            m.part_index == 0,
            m.part_count == 1,
            m.is_default_fallback,
            m.requires@.len() == 0,
            m.quality is None,
            m.anchor_op_id is None,
            m.local_paint_order is None,
    {
        PaintVariantMeta {
            equivalence_group,
            variant_id: String::from_str("textRun"),
            variant_kind: TextVariantKind::TextRun,
            part_index: 0,
            part_count: 1,
            is_default_fallback: true,
            requires: Vec::new(),
            quality: None,
            anchor_op_id: None,
            local_paint_order: None,
        }
    }
}

/// What a glyph run's orientation is decided from: whether its text run is
/// vertical, and whether it is rotated (a rotation whose magnitude exceeds
/// `f64::EPSILON`).
#[derive(Debug, Clone, Copy)]
pub struct TextRunAxes {
    pub is_vertical: bool,
    pub is_rotated: bool,
}

#[derive(Debug, Clone, Copy, PartialEq, Eq, Structural)]
pub enum GlyphRunOrientation {
    Horizontal,
    VerticalUpright,
    VerticalSideways,
    MixedPerGlyph,
}

impl GlyphRunOrientation {
    /// Horizontal for a horizontal run; for a vertical run, sideways when
    /// rotated and upright otherwise.
    pub fn from_text_run(run: &TextRunAxes) -> (o: Self)
        ensures
            o == if !run.is_vertical {
                GlyphRunOrientation::Horizontal
            } else if run.is_rotated {
                GlyphRunOrientation::VerticalSideways
            } else {
                GlyphRunOrientation::VerticalUpright
            },
    {
        if !run.is_vertical {
            GlyphRunOrientation::Horizontal
        } else if run.is_rotated {
            GlyphRunOrientation::VerticalSideways
        } else {
            GlyphRunOrientation::VerticalUpright
        }
    }

    /// The serialised name.
    pub fn as_str(self) -> (s: &'static str)
        ensures
            s@ == match self {
                GlyphRunOrientation::Horizontal => "horizontal"@,
                GlyphRunOrientation::VerticalUpright => "vertical-upright"@,
                GlyphRunOrientation::VerticalSideways => "vertical-sideways"@,
                GlyphRunOrientation::MixedPerGlyph => "mixedPerGlyph"@,
            },
    {
        match self {
            GlyphRunOrientation::Horizontal => "horizontal",
            GlyphRunOrientation::VerticalUpright => "vertical-upright",
            GlyphRunOrientation::VerticalSideways => "vertical-sideways",
            GlyphRunOrientation::MixedPerGlyph => "mixedPerGlyph",
        }
    }
}

/// A half-open range of glyph indices.
#[derive(Debug, Clone, Copy, PartialEq, Eq, Structural)]
pub struct GlyphRange {
    pub start: u32,
    pub end: u32,
}

impl GlyphRange {
    pub fn new(start: u32, end: u32) -> (r: Self)
        ensures
            r.start == start,
            r.end == end,
    {
        GlyphRange { start, end }
    }
}

#[derive(Debug, Clone, Copy, PartialEq, Eq, Structural)]
pub enum GlyphClusterFlag {
    Ligature,
    FallbackBoundary,
}

impl GlyphClusterFlag {
    /// The serialised name.
    pub fn as_str(self) -> (s: &'static str)
        ensures
            s@ == match self {
                GlyphClusterFlag::Ligature => "ligature"@,
                GlyphClusterFlag::FallbackBoundary => "fallbackBoundary"@,
            },
    {
        match self {
            GlyphClusterFlag::Ligature => "ligature",
            GlyphClusterFlag::FallbackBoundary => "fallbackBoundary",
        }
    }
}

/// A half-open range of source-text offsets.
#[derive(Debug, Clone, Copy, PartialEq, Eq, Structural)]
pub struct TextSourceRange {
    pub start: u32,
    pub end: u32,
}

/// A glyph cluster: the source text it renders (in UTF-8 and, where known,
/// UTF-16 offsets), the text range it covers, its glyphs and its flags.
#[derive(Debug, Clone)]
pub struct GlyphCluster {
    pub source_range_utf8: TextSourceRange,
    pub source_range_utf16: Option<TextSourceRange>,
    pub text_range_utf8: Option<TextSourceRange>,
    pub glyph_range: GlyphRange,
    pub flags: Vec<GlyphClusterFlag>,
}

/// Underline placement of a text style.
#[derive(Debug, Clone, Copy, PartialEq, Eq, Structural)]
pub enum UnderlineType {
    NoUnderline,
    Bottom,
    Top,
}

/// The text effects of a paint text style, as plain values.
#[derive(Debug, Clone, Copy)]
pub struct TextEffects {
    pub tab_leader_count: usize,
    pub underline: UnderlineType,
    pub strikethrough: bool,
    pub outline_type: u8,
    pub shadow_type: u8,
    pub emboss: bool,
    pub engrave: bool,
    pub superscript: bool,
    pub subscript: bool,
    pub emphasis_dot: u8,
    pub shade_color: u32,
}

/// No effect that a fill-only glyph replay would lose: no tab leaders,
/// underline, strikethrough, outline, shadow, emboss, engrave,
/// super/subscript or emphasis dot, and a white shade (its RGB bits all set).
pub open spec fn spec_has_no_replay_effects(e: TextEffects) -> bool {
    &&& e.tab_leader_count == 0
    &&& e.underline == UnderlineType::NoUnderline
    &&& !e.strikethrough
    &&& e.outline_type == 0
    &&& e.shadow_type == 0
    &&& !e.emboss
    &&& !e.engrave
    &&& !e.superscript
    &&& !e.subscript
    &&& e.emphasis_dot == 0
    &&& (e.shade_color & 0x00FF_FFFFu32) == 0x00FF_FFFFu32
}

impl TextEffects {
    /// Whether the style carries none of the effects a fill-only glyph
    /// replay would drop (the width ratio is checked apart, on its float
    /// value).
    pub fn has_no_replay_effects(&self) -> (b: bool)
        ensures
            b == spec_has_no_replay_effects(*self),
    {
        self.tab_leader_count == 0
            && matches!(self.underline, UnderlineType::NoUnderline)
            && !self.strikethrough
            && self.outline_type == 0
            && self.shadow_type == 0
            && !self.emboss
            && !self.engrave
            && !self.superscript
            && !self.subscript
            && self.emphasis_dot == 0
            && (self.shade_color & 0x00FF_FFFFu32) == 0x00FF_FFFFu32
    }
}

} // verus!

verus! {

/// Any one effect that a fill-only glyph replay would lose makes a style
/// ineligible, whatever the others are; a style with none of them (and a
/// white shade) is eligible.
pub proof fn lemma_replay_effects_each_disqualify(e: TextEffects)
    ensures
        e.tab_leader_count > 0 ==> !spec_has_no_replay_effects(e),
        e.underline != UnderlineType::NoUnderline ==> !spec_has_no_replay_effects(e),
        e.strikethrough ==> !spec_has_no_replay_effects(e),
        e.outline_type != 0 ==> !spec_has_no_replay_effects(e),
        e.shadow_type != 0 ==> !spec_has_no_replay_effects(e),
        e.emboss ==> !spec_has_no_replay_effects(e),
        e.engrave ==> !spec_has_no_replay_effects(e),
        e.superscript ==> !spec_has_no_replay_effects(e),
        e.subscript ==> !spec_has_no_replay_effects(e),
        e.emphasis_dot != 0 ==> !spec_has_no_replay_effects(e),
        (e.shade_color & 0x00FF_FFFFu32) != 0x00FF_FFFFu32 ==> !spec_has_no_replay_effects(e),
        (e.tab_leader_count == 0 && e.underline == UnderlineType::NoUnderline && !e.strikethrough
            && e.outline_type == 0 && e.shadow_type == 0 && !e.emboss && !e.engrave
            && !e.superscript && !e.subscript && e.emphasis_dot == 0
            && (e.shade_color & 0x00FF_FFFFu32) == 0x00FF_FFFFu32) ==> spec_has_no_replay_effects(e),
{
}

/// A strict stroke joins with miters, ends with butt caps, and paints both
/// fill and stroke; any other join, cap or a fill-only/stroke-only order is
/// refused.
pub proof fn lemma_strict_stroke_shape(
    join: GlyphOutlineStrokeJoin,
    cap: GlyphOutlineStrokeCap,
    order: GlyphOutlinePaintOrder,
)
    ensures
        join != GlyphOutlineStrokeJoin::Miter ==> !spec_is_strict_stroke_shape(join, cap, order),
        cap != GlyphOutlineStrokeCap::Butt ==> !spec_is_strict_stroke_shape(join, cap, order),
        order == GlyphOutlinePaintOrder::FillOnly ==> !spec_is_strict_stroke_shape(join, cap, order),
        order == GlyphOutlinePaintOrder::StrokeOnly ==> !spec_is_strict_stroke_shape(join, cap, order),
        join == GlyphOutlineStrokeJoin::Miter && cap == GlyphOutlineStrokeCap::Butt
            && order == GlyphOutlinePaintOrder::FillThenStroke ==> spec_is_strict_stroke_shape(join, cap, order),
        join == GlyphOutlineStrokeJoin::Miter && cap == GlyphOutlineStrokeCap::Butt
            && order == GlyphOutlinePaintOrder::StrokeThenFill ==> spec_is_strict_stroke_shape(join, cap, order),
{
}

} // verus!
