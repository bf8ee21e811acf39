//! The integer side of the column height cursor: what a paragraph holds
//! (visible text, inline equations and pictures, a para-relative table),
//! which line segment of the previous paragraph the vertical position is
//! read from, where the lazily derived vpos base lies, which stored vpos an
//! item is aimed at, and how the active vpos base moves.

use vstd::prelude::*;
use crate::model::{Control, LineSeg, Paragraph, ShapeObject, TextWrap, VertRelTo};
use crate::text::{blank, is_blank, starts_with_after_blanks, starts_with_trimmed};

verus! {

// ---------------------------------------------------------------------------
// What a paragraph holds
// ---------------------------------------------------------------------------

/// A character that shows: above the control range and not the object
/// replacement character.
pub open spec fn is_visible_char(c: char) -> bool {
    (c as u32) > 0x1F && (c as u32) != 0xFFFC
}

pub open spec fn spec_has_visible_text(p: Paragraph) -> bool {
    exists|i: int| 0 <= i < p.text@.len() && is_visible_char(#[trigger] p.text@[i])
}

/// Whether the paragraph has a character that shows.
pub fn para_has_visible_text(para: &Paragraph) -> (b: bool)
    ensures
        b == spec_has_visible_text(*para),
{
    let s = para.text.as_str();
    let n = s.unicode_len();
    let mut i: usize = 0;
    while i < n
        invariant
            n == para.text@.len(),
            s@ == para.text@,
            i <= n,
            forall|j: int| 0 <= j < i ==> !is_visible_char(#[trigger] para.text@[j]),
        decreases n - i,
    {
        let c = s.get_char(i);
        if (c as u32) > 0x1F && (c as u32) != 0xFFFC {
            assert(is_visible_char(para.text@[i as int]));
            return true;
        }
        i = i + 1;
    }
    false
}

/// A control that is an equation placed like a character.
pub open spec fn is_inline_equation(c: Control) -> bool {
    c matches Control::Equation(eq) && eq.common.treat_as_char
}

/// A control that is a picture or drawing placed like a character.
pub open spec fn is_inline_picture(c: Control) -> bool {
    match c {
        Control::Picture(pic) => pic.common.treat_as_char,
        Control::Shape(shape) => shape.spec_common().treat_as_char,
        _ => false,
    }
}

/// A table that flows top-and-bottom and is placed relative to the
/// paragraph (not like a character).
pub open spec fn is_para_top_bottom_table(c: Control) -> bool {
    c matches Control::Table(t) && !t.common.treat_as_char
        && t.common.text_wrap == TextWrap::TopAndBottom
        && t.common.vert_rel_to == VertRelTo::Para
}

pub open spec fn spec_is_treat_as_char_equation_only(p: Paragraph) -> bool {
    !spec_has_visible_text(p)
        && exists|i: int| 0 <= i < p.controls@.len() && is_inline_equation(#[trigger] p.controls@[i])
}

pub open spec fn spec_is_treat_as_char_picture_only(p: Paragraph) -> bool {
    is_blank(p.text@)
        && exists|i: int| 0 <= i < p.controls@.len() && is_inline_picture(#[trigger] p.controls@[i])
}

pub open spec fn spec_hosts_para_table(p: Paragraph) -> bool {
    exists|i: int| 0 <= i < p.controls@.len() && is_para_top_bottom_table(#[trigger] p.controls@[i])
}

fn control_is_inline_equation(c: &Control) -> (b: bool)
    ensures
        b == is_inline_equation(*c),
{
    match c {
        Control::Equation(eq) => eq.common.treat_as_char,
        _ => false,
    }
}

fn control_is_inline_picture(c: &Control) -> (b: bool)
    ensures
        b == is_inline_picture(*c),
{
    match c {
        Control::Picture(pic) => pic.common.treat_as_char,
        Control::Shape(shape) => {
            let s: &ShapeObject = &**shape;
            s.common().treat_as_char
        },
        _ => false,
    }
}

fn control_is_para_top_bottom_table(c: &Control) -> (b: bool)
    ensures
        b == is_para_top_bottom_table(*c),
{
    match c {
        Control::Table(t) => !t.common.treat_as_char
            && matches!(t.common.text_wrap, TextWrap::TopAndBottom)
            && matches!(t.common.vert_rel_to, VertRelTo::Para),
        _ => false,
    }
}

/// Whether the paragraph shows no text and holds an equation placed like a
/// character.
pub fn para_is_treat_as_char_equation_only(para: &Paragraph) -> (b: bool)
    ensures
        b == spec_is_treat_as_char_equation_only(*para),
{
    if para_has_visible_text(para) {
        return false;
    }
    let mut i: usize = 0;
    while i < para.controls.len()
        invariant
            i <= para.controls@.len(),
            !spec_has_visible_text(*para),
            forall|j: int| 0 <= j < i ==> !is_inline_equation(#[trigger] para.controls@[j]),
        decreases para.controls@.len() - i,
    {
        if control_is_inline_equation(&para.controls[i]) {
            assert(is_inline_equation(para.controls@[i as int]));
            return true;
        }
        i = i + 1;
    }
    false
}

/// Whether the paragraph's text is all white space and it holds a picture
/// or drawing placed like a character.
pub fn para_is_treat_as_char_picture_only(para: &Paragraph) -> (b: bool)
    ensures
        b == spec_is_treat_as_char_picture_only(*para),
{
    if !blank(para.text.as_str()) {
        return false;
    }
    let mut i: usize = 0;
    while i < para.controls.len()
        invariant
            i <= para.controls@.len(),
            is_blank(para.text@),
            forall|j: int| 0 <= j < i ==> !is_inline_picture(#[trigger] para.controls@[j]),
        decreases para.controls@.len() - i,
    {
        if control_is_inline_picture(&para.controls[i]) {
            assert(is_inline_picture(para.controls@[i as int]));
            return true;
        }
        i = i + 1;
    }
    false
}

/// Whether the paragraph hosts a top-and-bottom table placed relative to
/// the paragraph: its first vpos may then include the table's reserved
/// height.
pub fn para_hosts_para_table(para: &Paragraph) -> (b: bool)
    ensures
        b == spec_hosts_para_table(*para),
{
    let mut i: usize = 0;
    while i < para.controls.len()
        invariant
            i <= para.controls@.len(),
            forall|j: int| 0 <= j < i ==> !is_para_top_bottom_table(#[trigger] para.controls@[j]),
        decreases para.controls@.len() - i,
    {
        if control_is_para_top_bottom_table(&para.controls[i]) {
            return true;
        }
        i = i + 1;
    }
    false
}

/// Whether the paragraph is an endnote question title: its first character
/// that is not white space is `문`.
pub fn para_is_question_title(para: &Paragraph) -> (b: bool)
    ensures
        b == starts_with_after_blanks(para.text@, '문'),
{
    starts_with_trimmed(para.text.as_str(), '문')
}

/// Whether the paragraph's text is all white space.
pub fn para_is_blank(para: &Paragraph) -> (b: bool)
    ensures
        b == is_blank(para.text@),
{
    blank(para.text.as_str())
}

} // verus!

verus! {

// ---------------------------------------------------------------------------
// Vertical positions
// ---------------------------------------------------------------------------

/// The last segment with a positive width, if any.
pub open spec fn last_wide_seg(segs: Seq<LineSeg>) -> Option<LineSeg>
    decreases segs.len(),
{
    if segs.len() == 0 {
        None
    } else if segs.last().segment_width > 0 {
        Some(segs.last())
    } else {
        last_wide_seg(segs.drop_last())
    }
}

/// The segment the previous paragraph's vpos is read from: the last one
/// with a positive width, else the last one.
pub open spec fn spec_prev_line_seg(segs: Seq<LineSeg>) -> Option<LineSeg> {
    match last_wide_seg(segs) {
        Some(s) => Some(s),
        None => if segs.len() == 0 { None } else { Some(segs.last()) },
    }
}

/// The segment the previous paragraph's vpos is read from.
pub fn select_prev_line_seg(segs: &Vec<LineSeg>) -> (r: Option<LineSeg>)
    ensures
        r == spec_prev_line_seg(segs@),
{
    let n = segs.len();
    assert(segs@.take(n as int) =~= segs@);
    let mut k: usize = n;
    while k > 0
        invariant
            k <= n,
            n == segs@.len(),
            last_wide_seg(segs@) == last_wide_seg(segs@.take(k as int)),
        decreases k,
    {
        let s = segs[k - 1];
        let ghost t = segs@.take(k as int);
        assert(t.last() == s);
        assert(t.drop_last() =~= segs@.take(k - 1));
        if s.segment_width > 0 {
            return Some(s);
        }
        k = k - 1;
    }
    assert(segs@.take(0) =~= Seq::<LineSeg>::empty());
    if n == 0 {
        None
    } else {
        Some(segs[n - 1])
    }
}

/// The vpos just after a segment: its position, height and spacing.
pub open spec fn seg_end(s: LineSeg) -> int {
    s.vertical_pos + s.line_height + s.line_spacing
}

impl LineSeg {
    /// The vpos just after the segment.
    pub fn vpos_end(&self) -> (e: i32)
        requires
            i32::MIN <= self.vertical_pos + self.line_height <= i32::MAX,
            i32::MIN <= seg_end(*self) <= i32::MAX,
        ensures
            e == seg_end(*self),
    {
        self.vertical_pos + self.line_height + self.line_spacing
    }
}

/// The trailing line spacing that bridges the previous paragraph to the
/// current one when the lazy base is derived: none when the previous
/// paragraph shows text and the current one continues the vpos flow (its
/// first vpos is known and not past `prev_vpos_end`); otherwise the
/// previous paragraph's last segment's spacing, negative taken as zero.
pub open spec fn spec_trailing_line_spacing(prev: Paragraph, curr_first_vpos: Option<i32>, prev_vpos_end: i32) -> int {
    let continuous = curr_first_vpos matches Some(v) && v <= prev_vpos_end;
    if continuous && spec_has_visible_text(prev) {
        0
    } else if prev.line_segs@.len() == 0 {
        0
    } else if prev.line_segs@.last().line_spacing > 0 {
        prev.line_segs@.last().line_spacing as int
    } else {
        0
    }
}

/// The trailing line spacing bridged when the lazy base is derived.
pub fn trailing_line_spacing(prev: &Paragraph, curr_first_vpos: Option<i32>, prev_vpos_end: i32) -> (t: i32)
    ensures
        t == spec_trailing_line_spacing(*prev, curr_first_vpos, prev_vpos_end),
        t >= 0,
{
    let continuous = match curr_first_vpos {
        Some(v) => v <= prev_vpos_end,
        None => false,
    };
    if continuous && para_has_visible_text(prev) {
        0
    } else if prev.line_segs.len() == 0 {
        0
    } else {
        let ls = prev.line_segs[prev.line_segs.len() - 1].line_spacing;
        if ls > 0 { ls } else { 0 }
    }
}

/// The lazily derived vpos base: the previous paragraph's vpos end less the
/// sequential offset and the bridged trailing spacing; without the bridge
/// when that goes below zero; none when even that is below zero (the
/// derivation is then invalid and no correction is made).
pub open spec fn spec_lazy_vpos_base(prev_vpos_end: int, y_delta_hu: int, trailing_hu: int) -> Option<int> {
    let corrected = prev_vpos_end - (y_delta_hu + trailing_hu);
    let base = if corrected >= 0 { corrected } else { prev_vpos_end - y_delta_hu };
    if base < 0 { None } else { Some(base) }
}

/// The lazily derived vpos base, if the derivation is valid.
pub fn lazy_vpos_base(prev_vpos_end: i32, y_delta_hu: i32, trailing_hu: i32) -> (r: Option<i32>)
    requires
        i32::MIN <= y_delta_hu + trailing_hu <= i32::MAX,
        i32::MIN <= prev_vpos_end - (y_delta_hu + trailing_hu) <= i32::MAX,
        i32::MIN <= prev_vpos_end - y_delta_hu <= i32::MAX,
    ensures
        match r {
            Some(b) => spec_lazy_vpos_base(prev_vpos_end as int, y_delta_hu as int, trailing_hu as int) == Some(b as int),
            None => spec_lazy_vpos_base(prev_vpos_end as int, y_delta_hu as int, trailing_hu as int) is None,
        },
        r matches Some(b) ==> b >= 0,
{
    let corrected = prev_vpos_end - (y_delta_hu + trailing_hu);
    let base = if corrected >= 0 { corrected } else { prev_vpos_end - y_delta_hu };
    if base < 0 { None } else { Some(base) }
}

/// The stored vpos an item is aimed at: the current paragraph's first vpos
/// when it rewinds behind the previous segment and rewinding is allowed, or
/// when it lies past the previous segment and the paragraph hosts no
/// para-relative table; otherwise the previous paragraph's vpos end.
pub open spec fn spec_vpos_target(curr_first_vpos: Option<i32>, prev_seg_vpos: i32, rewind_allowed: bool, hosts_para_table: bool, prev_vpos_end: i32) -> i32 {
    match curr_first_vpos {
        Some(v) => if rewind_allowed && v < prev_seg_vpos {
            v
        } else if v > prev_seg_vpos && !hosts_para_table {
            v
        } else {
            prev_vpos_end
        },
        None => prev_vpos_end,
    }
}

/// The stored vpos an item is aimed at.
pub fn vpos_target(curr_first_vpos: Option<i32>, prev_seg_vpos: i32, rewind_allowed: bool, hosts_para_table: bool, prev_vpos_end: i32) -> (v: i32)
    ensures
        v == spec_vpos_target(curr_first_vpos, prev_seg_vpos, rewind_allowed, hosts_para_table, prev_vpos_end),
{
    match curr_first_vpos {
        Some(v) if rewind_allowed && v < prev_seg_vpos => v,
        Some(v) if v > prev_seg_vpos && !hosts_para_table => v,
        _ => prev_vpos_end,
    }
}

/// The two vpos bases of a column: the page base, known when the column's
/// first item has a trusted vpos, and the lazy base derived later from the
/// sequential y. The page base, when present, is the active one.
#[derive(Debug, Clone, Copy, PartialEq, Eq, Structural)]
pub struct VposBases {
    pub page: Option<i32>,
    pub lazy: Option<i32>,
}

impl VposBases {
    /// The active base and whether it is the page base.
    pub fn active(&self) -> (r: Option<(i32, bool)>)
        ensures
            r == match self.page {
                Some(b) => Some((b, true)),
                None => match self.lazy {
                    Some(b) => Some((b, false)),
                    None => None,
                },
            },
    {
        match self.page {
            Some(b) => Some((b, true)),
            None => match self.lazy {
                Some(b) => Some((b, false)),
                None => None,
            },
        }
    }

    /// After an item was rendered `delta_hu` below its vpos target, moves
    /// the active base up by that much so that later items keep the same
    /// visual reference. A delta that is not positive changes nothing.
    pub fn shift_for_rendered_delta(&mut self, delta_hu: i32)
        requires
            delta_hu > 0 ==> match old(self).page {
                Some(b) => b - delta_hu >= i32::MIN,
                None => match old(self).lazy {
                    Some(b) => b - delta_hu >= i32::MIN,
                    None => true,
                },
            },
        ensures
            delta_hu <= 0 ==> *final(self) == *old(self),
            delta_hu > 0 ==> *final(self) == match old(self).page {
                Some(b) => (VposBases { page: Some((b - delta_hu) as i32), lazy: old(self).lazy }),
                None => match old(self).lazy {
                    Some(b) => (VposBases { page: None, lazy: Some((b - delta_hu) as i32) }),
                    None => *old(self),
                },
            },
    {
        if delta_hu <= 0 {
            return;
        }
        match self.page {
            Some(b) => {
                self.page = Some(b - delta_hu);
            },
            None => match self.lazy {
                Some(b) => {
                    self.lazy = Some(b - delta_hu);
                },
                None => {},
            },
        }
    }

    /// Sets the base of the given path to `base + delta_hu`, unless the
    /// delta is zero.
    pub fn move_base(&mut self, is_page_path: bool, base: i32, delta_hu: i32)
        requires
            i32::MIN <= base + delta_hu <= i32::MAX,
        ensures
            delta_hu == 0 ==> *final(self) == *old(self),
            delta_hu != 0 && is_page_path ==> *final(self) == (VposBases { page: Some((base + delta_hu) as i32), lazy: old(self).lazy }),
            delta_hu != 0 && !is_page_path ==> *final(self) == (VposBases { page: old(self).page, lazy: Some((base + delta_hu) as i32) }),
    {
        if delta_hu != 0 {
            if is_page_path {
                self.page = Some(base + delta_hu);
            } else {
                self.lazy = Some(base + delta_hu);
            }
        }
    }
}

} // verus!

verus! {

// ---------------------------------------------------------------------------
// Which correction an item gets
// ---------------------------------------------------------------------------

/// The conditions found for an item in a column, each already decided on
/// the pixel geometry.
#[derive(Debug, Clone, Copy)]
pub struct CorrectionFlags {
    /// The clamped vpos correction applies.
    pub applied: bool,
    /// The stored vpos jumps far forward in a compact endnote flow.
    pub stale_forward: bool,
    pub title_bottom_backtrack: bool,
    pub page_tail_backtrack: bool,
    pub text_after_tall_tail_backtrack: bool,
    pub question_title_bottom_fit: bool,
    pub equation_tail_fit: bool,
    pub single_line_tail_backtrack: bool,
    pub title_tail_backtrack: bool,
    pub deep_backtrack: bool,
    pub safe_vpos_backtrack: bool,
    pub new_note_jump: bool,
    pub tac_picture_gap: bool,
    pub stale_note_gap: bool,
}

/// The y an item is placed at.
#[derive(Debug, Clone, Copy, PartialEq, Eq, Structural)]
pub enum Correction {
    /// The corrected end y.
    EndY,
    /// The corrected end y, kept below the previous content's bottom and
    /// not below the sequential y.
    EndYBelowPreviousContent,
    /// A question title fitted into the column bottom.
    QuestionTitleBottomFit,
    /// An equation-only tail fitted into the column bottom.
    EquationTailFit,
    /// The sequential y moved back by at most 16 px towards the end y.
    LimitedBacktrack,
    /// The capped gap before a new note.
    NewNoteGapCap,
    /// The previous line spacing after the sequential y.
    StaleNoteGap,
    /// The sequential y.
    Keep,
}

/// The first condition that holds, in priority order: a title at the column
/// bottom, a page tail, text after a tall line at the tail, a title that
/// must fit, an equation tail that must fit, a single-line tail after a
/// title, a title tail; then the end y when the correction applies (or a
/// deep or safe backtrack) unless the vpos jumps far forward or a new note
/// or inline-picture gap is handled; then the new-note cap, the stale-note
/// gap, and otherwise the sequential y.
pub open spec fn spec_choose_correction(f: CorrectionFlags) -> Correction {
    if f.title_bottom_backtrack {
        Correction::EndY
    } else if f.page_tail_backtrack || f.text_after_tall_tail_backtrack {
        Correction::EndYBelowPreviousContent
    } else if f.question_title_bottom_fit {
        Correction::QuestionTitleBottomFit
    } else if f.equation_tail_fit {
        Correction::EquationTailFit
    } else if f.single_line_tail_backtrack {
        Correction::EndY
    } else if f.title_tail_backtrack {
        Correction::LimitedBacktrack
    } else if (f.applied || f.deep_backtrack || f.safe_vpos_backtrack) && !f.stale_forward
        && !f.new_note_jump && !f.tac_picture_gap {
        Correction::EndY
    } else if f.new_note_jump {
        Correction::NewNoteGapCap
    } else if f.stale_note_gap {
        Correction::StaleNoteGap
    } else {
        Correction::Keep
    }
}

/// Chooses the y an item is placed at.
pub fn choose_correction(f: &CorrectionFlags) -> (c: Correction)
    ensures
        c == spec_choose_correction(*f),
{
    if f.title_bottom_backtrack {
        Correction::EndY
    } else if f.page_tail_backtrack || f.text_after_tall_tail_backtrack {
        Correction::EndYBelowPreviousContent
    } else if f.question_title_bottom_fit {
        Correction::QuestionTitleBottomFit
    } else if f.equation_tail_fit {
        Correction::EquationTailFit
    } else if f.single_line_tail_backtrack {
        Correction::EndY
    } else if f.title_tail_backtrack {
        Correction::LimitedBacktrack
    } else if (f.applied || f.deep_backtrack || f.safe_vpos_backtrack) && !f.stale_forward
        && !f.new_note_jump && !f.tac_picture_gap {
        Correction::EndY
    } else if f.new_note_jump {
        Correction::NewNoteGapCap
    } else if f.stale_note_gap {
        Correction::StaleNoteGap
    } else {
        Correction::Keep
    }
}

/// Whether a suppressed gap moves the vpos base: a stale note gap, or an
/// applied correction that is a new-note jump or an inline-picture gap.
pub fn gap_moves_base(f: &CorrectionFlags) -> (b: bool)
    ensures
        b == (f.stale_note_gap || (f.applied && (f.new_note_jump || f.tac_picture_gap))),
{
    f.stale_note_gap || (f.applied && (f.new_note_jump || f.tac_picture_gap))
}

/// The previous line's spacing holds the injected gap between endnotes:
/// a gap is configured and the spacing is at least that gap.
pub fn injected_between_notes(between_notes_hu: i32, prev_line_spacing: i32) -> (b: bool)
    ensures
        b == (between_notes_hu > 0 && prev_line_spacing >= between_notes_hu),
{
    between_notes_hu > 0 && prev_line_spacing >= between_notes_hu
}

} // verus!

verus! {

/// The trailing line-spacing bridge: a previous paragraph that shows no
/// character (every character a control character or the object
/// replacement character) keeps its last segment's positive spacing as the
/// bridge whatever the current first vpos, also when the vpos flow is
/// continuous; one that shows text drops it when the flow is continuous and
/// keeps it otherwise; without a segment of positive spacing there is no
/// bridge, and the bridge is never negative.
pub proof fn lemma_trailing_spacing_bridge(prev: Paragraph, curr_first_vpos: Option<i32>, prev_vpos_end: i32)
    ensures
        ((forall|i: int| 0 <= i < prev.text@.len() ==>
            (#[trigger] prev.text@[i] as u32) <= 0x1F || (prev.text@[i] as u32) == 0xFFFC)
            && prev.line_segs@.len() > 0 && prev.line_segs@.last().line_spacing > 0)
            ==> spec_trailing_line_spacing(prev, curr_first_vpos, prev_vpos_end)
                == prev.line_segs@.last().line_spacing,
        ((exists|i: int| 0 <= i < prev.text@.len() &&
            (#[trigger] prev.text@[i] as u32) > 0x1F && (prev.text@[i] as u32) != 0xFFFC)
            && (curr_first_vpos matches Some(v) && v <= prev_vpos_end))
            ==> spec_trailing_line_spacing(prev, curr_first_vpos, prev_vpos_end) == 0,
        (prev.line_segs@.len() > 0 && prev.line_segs@.last().line_spacing > 0
            && !(curr_first_vpos matches Some(v) && v <= prev_vpos_end))
            ==> spec_trailing_line_spacing(prev, curr_first_vpos, prev_vpos_end)
                == prev.line_segs@.last().line_spacing,
        (prev.line_segs@.len() == 0 || prev.line_segs@.last().line_spacing <= 0)
            ==> spec_trailing_line_spacing(prev, curr_first_vpos, prev_vpos_end) == 0,
        spec_trailing_line_spacing(prev, curr_first_vpos, prev_vpos_end) >= 0,
{
    if forall|i: int| 0 <= i < prev.text@.len() ==>
        (#[trigger] prev.text@[i] as u32) <= 0x1F || (prev.text@[i] as u32) == 0xFFFC {
        assert(!spec_has_visible_text(prev));
    }
}

} // verus!
