use rhwp::ole_chart::{grid_top, plan_ole_chart_render, OleChartRenderError};
use rhwp::paint_op::{
    is_strict_stroke_shape, GlyphClusterFlag, GlyphOutlineFillRule, GlyphOutlinePaintOrder,
    GlyphOutlinePayloadKind, GlyphOutlineStrokeCap, GlyphOutlineStrokeJoin, GlyphRange,
    GlyphRunOrientation, PaintVariantMeta, TextDecorationKind, TextEffects, TextRunAxes,
    TextVariantKind, TextVariantQuality, UnderlineType,
};

#[test]
fn paint_names() {
    assert_eq!(TextDecorationKind::Underline.as_str(), "underline");
    assert_eq!(TextDecorationKind::Strikethrough.as_str(), "strikethrough");
    assert_eq!(TextDecorationKind::EmphasisDot.as_str(), "emphasisDot");
    assert_eq!(GlyphOutlinePayloadKind::MonochromeFill.as_str(), "monochromeFill");
    assert_eq!(GlyphOutlinePayloadKind::MonochromeFillStroke.as_str(), "monochromeFillStroke");
    assert_eq!(GlyphOutlineFillRule::NonZero.as_str(), "nonzero");
    assert_eq!(GlyphOutlineFillRule::EvenOdd.as_str(), "evenodd");
    assert_eq!(GlyphOutlineStrokeJoin::Miter.as_str(), "miter");
    assert_eq!(GlyphOutlineStrokeJoin::Round.as_str(), "round");
    assert_eq!(GlyphOutlineStrokeJoin::Bevel.as_str(), "bevel");
    assert_eq!(GlyphOutlineStrokeCap::Butt.as_str(), "butt");
    assert_eq!(GlyphOutlineStrokeCap::Round.as_str(), "round");
    assert_eq!(GlyphOutlineStrokeCap::Square.as_str(), "square");
    assert_eq!(GlyphOutlinePaintOrder::FillOnly.as_str(), "fillOnly");
    assert_eq!(GlyphOutlinePaintOrder::StrokeOnly.as_str(), "strokeOnly");
    assert_eq!(GlyphOutlinePaintOrder::FillThenStroke.as_str(), "fillThenStroke");
    assert_eq!(GlyphOutlinePaintOrder::StrokeThenFill.as_str(), "strokeThenFill");
    assert_eq!(TextVariantKind::TextRun.as_str(), "textRun");
    assert_eq!(TextVariantKind::GlyphRun.as_str(), "glyphRun");
    assert_eq!(TextVariantKind::GlyphOutline.as_str(), "glyphOutline");
    assert_eq!(TextVariantQuality::Exact.as_str(), "exact");
    assert_eq!(TextVariantQuality::PositionAdjusted.as_str(), "positionAdjusted");
    assert_eq!(TextVariantQuality::Approximate.as_str(), "approximate");
    assert_eq!(TextVariantQuality::DiagnosticOnly.as_str(), "diagnosticOnly");
    assert_eq!(TextVariantQuality::Omitted.as_str(), "omitted");
    assert_eq!(GlyphRunOrientation::Horizontal.as_str(), "horizontal");
    assert_eq!(GlyphRunOrientation::VerticalUpright.as_str(), "vertical-upright");
    assert_eq!(GlyphRunOrientation::VerticalSideways.as_str(), "vertical-sideways");
    assert_eq!(GlyphRunOrientation::MixedPerGlyph.as_str(), "mixedPerGlyph");
    assert_eq!(GlyphClusterFlag::Ligature.as_str(), "ligature");
    assert_eq!(GlyphClusterFlag::FallbackBoundary.as_str(), "fallbackBoundary");
}

#[test]
fn orientation_from_run() {
    let o = |v, r| GlyphRunOrientation::from_text_run(&TextRunAxes { is_vertical: v, is_rotated: r });
    assert_eq!(o(false, false), GlyphRunOrientation::Horizontal);
    assert_eq!(o(false, true), GlyphRunOrientation::Horizontal);
    assert_eq!(o(true, true), GlyphRunOrientation::VerticalSideways);
    assert_eq!(o(true, false), GlyphRunOrientation::VerticalUpright);
}

#[test]
fn text_run_default_meta() {
    let m = PaintVariantMeta::text_run_default("g1".to_string());
    assert_eq!(m.equivalence_group, "g1");
    assert_eq!(m.variant_id, "textRun");
    assert_eq!(m.variant_kind, TextVariantKind::TextRun);
    assert_eq!((m.part_index, m.part_count), (0, 1));
    assert!(m.is_default_fallback);
    assert!(m.requires.is_empty());
    assert!(m.quality.is_none() && m.anchor_op_id.is_none() && m.local_paint_order.is_none());
    assert_eq!(GlyphRange::new(3, 9), GlyphRange { start: 3, end: 9 });
}

#[test]
fn strict_stroke_shape() {
    assert!(is_strict_stroke_shape(GlyphOutlineStrokeJoin::Miter, GlyphOutlineStrokeCap::Butt, GlyphOutlinePaintOrder::FillThenStroke));
    assert!(is_strict_stroke_shape(GlyphOutlineStrokeJoin::Miter, GlyphOutlineStrokeCap::Butt, GlyphOutlinePaintOrder::StrokeThenFill));
    assert!(!is_strict_stroke_shape(GlyphOutlineStrokeJoin::Miter, GlyphOutlineStrokeCap::Butt, GlyphOutlinePaintOrder::FillOnly));
    assert!(!is_strict_stroke_shape(GlyphOutlineStrokeJoin::Round, GlyphOutlineStrokeCap::Butt, GlyphOutlinePaintOrder::FillThenStroke));
    assert!(!is_strict_stroke_shape(GlyphOutlineStrokeJoin::Miter, GlyphOutlineStrokeCap::Square, GlyphOutlinePaintOrder::FillThenStroke));
}

fn plain_effects() -> TextEffects {
    TextEffects {
        tab_leader_count: 0,
        underline: UnderlineType::NoUnderline,
        strikethrough: false,
        outline_type: 0,
        shadow_type: 0,
        emboss: false,
        engrave: false,
        superscript: false,
        subscript: false,
        emphasis_dot: 0,
        shade_color: 0xFFFF_FFFF,
    }
}

#[test]
fn replay_effects() {
    assert!(plain_effects().has_no_replay_effects());
    let mut e = plain_effects();
    e.shade_color = 0x00FF_FFFF;
    assert!(e.has_no_replay_effects());
    e.shade_color = 0x00FF_FFFE;
    assert!(!e.has_no_replay_effects());
    let mut e = plain_effects();
    e.underline = UnderlineType::Bottom;
    assert!(!e.has_no_replay_effects());
    let mut e = plain_effects();
    e.tab_leader_count = 1;
    assert!(!e.has_no_replay_effects());
    let mut e = plain_effects();
    e.emphasis_dot = 2;
    assert!(!e.has_no_replay_effects());
}

#[test]
fn chart_errors_and_plan() {
    assert_eq!(OleChartRenderError::EmptyChart.code(), "EMPTY_OLE_CHART");
    assert_eq!(OleChartRenderError::CharmingSsr("x".to_string()).code(), "CHARMING_SSR_RENDER_FAILED");
    assert_eq!(OleChartRenderError::EmptyChart.to_string(), "empty OLE chart");
    assert_eq!(
        OleChartRenderError::CharmingSsr("boom".to_string()).to_string(),
        "charming SSR render failed: boom"
    );
    assert_eq!(plan_ole_chart_render(0, 3, 420, 320), Err(OleChartRenderError::EmptyChart));
    assert_eq!(plan_ole_chart_render(4, 0, 420, 320), Err(OleChartRenderError::EmptyChart));
    assert_eq!(plan_ole_chart_render(4, 2, 420, 320), Ok((420, 320)));
    assert_eq!(plan_ole_chart_render(4, 2, 0, 0), Ok((1, 1)));
    assert_eq!(grid_top(true), "18%");
    assert_eq!(grid_top(false), "10%");
}

#[test]
fn glyph_cluster_holds_ranges() {
    use_cluster();
}

fn use_cluster() {
    let c = rhwp::paint_op::GlyphCluster {
        source_range_utf8: rhwp::paint_op::TextSourceRange { start: 0, end: 3 },
        source_range_utf16: None,
        text_range_utf8: Some(rhwp::paint_op::TextSourceRange { start: 0, end: 3 }),
        glyph_range: GlyphRange::new(0, 2),
        flags: vec![GlyphClusterFlag::Ligature],
    };
    let d = c.clone();
    assert_eq!(d.glyph_range, GlyphRange { start: 0, end: 2 });
    assert_eq!(d.flags, vec![GlyphClusterFlag::Ligature]);
    assert_eq!(d.source_range_utf8.end, 3);
}
