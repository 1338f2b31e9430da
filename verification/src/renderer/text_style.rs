//! Text-body properties resolved along the slide -> layout -> master cascade, and the
//! list styles that paragraph defaults come from.
use vstd::prelude::*;

use crate::model::color::{opt_deref, spec_resolve, ResolvedColor};
use crate::model::hierarchy::{SlideMaster, Theme};
use crate::model::shape::{
    AutoFit, ListStyle, ParagraphDefaults, Shape, TextBody, TextMargins, VerticalAlign,
};
use crate::provenance::ProvenanceSource;
use crate::renderer::context::RenderCtx;
use crate::renderer::fill_css::HtmlRenderer;
use crate::resolver::placeholder::{spec_text_style_source, text_style_source, TextStyleSource};
use crate::resolver::style_ref::{resolve_font_ref, spec_font_ref_name};

verus! {

/// The text body of an optional shape.
pub open spec fn body_of(s: Option<Shape>) -> Option<TextBody> {
    match s {
        Some(x) => x.text_body,
        None => None,
    }
}

/// The value behind an optional reference.
pub open spec fn deref<T>(o: Option<&T>) -> Option<T> {
    match o {
        Some(x) => Some(*x),
        None => None,
    }
}

// ---------------------------------------------------------------------------
// Auto-fit
// ---------------------------------------------------------------------------

/// A child auto-fit takes unset scale values from a parent of the same (`Normal`) mode.
pub open spec fn merge_autofit(child: AutoFit, parent: AutoFit) -> AutoFit {
    match (child, parent) {
        (
            AutoFit::Normal { font_scale: cf, line_spacing_reduction: cl },
            AutoFit::Normal { font_scale: pf, line_spacing_reduction: pl },
        ) => AutoFit::Normal {
            font_scale: if cf is Some {
                cf
            } else {
                pf
            },
            line_spacing_reduction: if cl is Some {
                cl
            } else {
                pl
            },
        },
        _ => child,
    }
}

/// Effective auto-fit: the shape's own (completed from the inherited one), else the
/// layout's (completed from the master's), else the master's.
pub open spec fn spec_text_auto_fit(
    tb: TextBody,
    layout_match: Option<Shape>,
    master_match: Option<Shape>,
) -> AutoFit {
    let master_af = match body_of(master_match) {
        Some(b) => b.auto_fit,
        None => AutoFit::NoAutofit,
    };
    let inherited = match body_of(layout_match) {
        Some(b) => if !(b.auto_fit is NoAutofit) {
            merge_autofit(b.auto_fit, master_af)
        } else {
            master_af
        },
        None => master_af,
    };
    if !(tb.auto_fit is NoAutofit) {
        merge_autofit(tb.auto_fit, inherited)
    } else {
        inherited
    }
}

fn merge_same_mode_norm_autofit(child: &AutoFit, parent: &AutoFit) -> (r: AutoFit)
    ensures
        r == merge_autofit(*child, *parent),
{
    match (child, parent) {
        (
            AutoFit::Normal { font_scale: cf, line_spacing_reduction: cl },
            AutoFit::Normal { font_scale: pf, line_spacing_reduction: pl },
        ) => AutoFit::Normal {
            font_scale: match cf {
                Some(v) => Some(*v),
                None => *pf,
            },
            line_spacing_reduction: match cl {
                Some(v) => Some(*v),
                None => *pl,
            },
        },
        _ => *child,
    }
}

// ---------------------------------------------------------------------------
// Flags with an explicit marker
// ---------------------------------------------------------------------------

/// The vertical alignment: the first level that sets it explicitly, else the shape's
/// default.
pub open spec fn spec_text_vertical_align(
    tb: TextBody,
    layout_match: Option<Shape>,
    master_match: Option<Shape>,
) -> VerticalAlign {
    if tb.vertical_align_explicit {
        tb.vertical_align
    } else if body_of(layout_match) matches Some(b) && b.vertical_align_explicit {
        body_of(layout_match).unwrap().vertical_align
    } else if body_of(master_match) matches Some(b) && b.vertical_align_explicit {
        body_of(master_match).unwrap().vertical_align
    } else {
        tb.vertical_align
    }
}

/// Word wrap: the first level that sets it explicitly, else the shape's default.
pub open spec fn spec_text_word_wrap(
    tb: TextBody,
    layout_match: Option<Shape>,
    master_match: Option<Shape>,
) -> bool {
    if tb.word_wrap_explicit {
        tb.word_wrap
    } else if body_of(layout_match) matches Some(b) && b.word_wrap_explicit {
        body_of(layout_match).unwrap().word_wrap
    } else if body_of(master_match) matches Some(b) && b.word_wrap_explicit {
        body_of(master_match).unwrap().word_wrap
    } else {
        tb.word_wrap
    }
}

/// Horizontal centering of the text block: set at any level.
pub open spec fn spec_text_anchor_center(
    tb: TextBody,
    layout_match: Option<Shape>,
    master_match: Option<Shape>,
) -> bool {
    ||| tb.anchor_center
    ||| body_of(layout_match) matches Some(b) && b.anchor_center
    ||| body_of(master_match) matches Some(b) && b.anchor_center
}

/// Text rotation: the first non-zero rotation along the cascade, else zero.
pub open spec fn spec_text_rotation(
    tb: TextBody,
    layout_match: Option<Shape>,
    master_match: Option<Shape>,
) -> i32 {
    if tb.text_rotation != 0 {
        tb.text_rotation
    } else if body_of(layout_match) matches Some(b) && b.text_rotation != 0 {
        body_of(layout_match).unwrap().text_rotation
    } else if body_of(master_match) matches Some(b) && b.text_rotation != 0 {
        body_of(master_match).unwrap().text_rotation
    } else {
        0
    }
}

/// Vertical text mode: the first level that sets it explicitly; otherwise the first level
/// that has a value at all.
pub open spec fn spec_vertical_text(
    shape: Shape,
    layout_match: Option<Shape>,
    master_match: Option<Shape>,
) -> Option<String> {
    if shape.vertical_text_explicit {
        shape.vertical_text
    } else if layout_match matches Some(l) && l.vertical_text_explicit {
        layout_match.unwrap().vertical_text
    } else if master_match matches Some(m) && m.vertical_text_explicit {
        master_match.unwrap().vertical_text
    } else if shape.vertical_text is Some {
        shape.vertical_text
    } else if layout_match matches Some(l) && l.vertical_text is Some {
        layout_match.unwrap().vertical_text
    } else if master_match matches Some(m) {
        master_match.unwrap().vertical_text
    } else {
        None
    }
}

/// One inset (0 top, 1 bottom, 2 left, 3 right) and whether it was set explicitly.
pub open spec fn margin_of(tb: TextBody, side: int) -> (bool, i64) {
    if side == 0 {
        (tb.margin_top_explicit, tb.margins.top)
    } else if side == 1 {
        (tb.margin_bottom_explicit, tb.margins.bottom)
    } else if side == 2 {
        (tb.margin_left_explicit, tb.margins.left)
    } else {
        (tb.margin_right_explicit, tb.margins.right)
    }
}

/// An inset: the first level that sets it explicitly, else the shape's default.
pub open spec fn spec_margin_side(
    tb: TextBody,
    layout_match: Option<Shape>,
    master_match: Option<Shape>,
    side: int,
) -> i64 {
    if margin_of(tb, side).0 {
        margin_of(tb, side).1
    } else if body_of(layout_match) matches Some(b) && margin_of(b, side).0 {
        margin_of(body_of(layout_match).unwrap(), side).1
    } else if body_of(master_match) matches Some(b) && margin_of(b, side).0 {
        margin_of(body_of(master_match).unwrap(), side).1
    } else {
        margin_of(tb, side).1
    }
}

fn margin_exec(tb: &TextBody, side: u8) -> (r: (bool, i64))
    ensures
        r == margin_of(*tb, side as int),
{
    if side == 0 {
        (tb.margin_top_explicit, tb.margins.top)
    } else if side == 1 {
        (tb.margin_bottom_explicit, tb.margins.bottom)
    } else if side == 2 {
        (tb.margin_left_explicit, tb.margins.left)
    } else {
        (tb.margin_right_explicit, tb.margins.right)
    }
}

fn margin_side(
    tb: &TextBody,
    layout_match: Option<&Shape>,
    master_match: Option<&Shape>,
    side: u8,
) -> (r: i64)
    ensures
        r == spec_margin_side(*tb, deref(layout_match), deref(master_match), side as int),
{
    let (own_explicit, own) = margin_exec(tb, side);
    if own_explicit {
        return own;
    }
    if let Some(lm) = layout_match {
        if let Some(ltb) = &lm.text_body {
            let (e, v) = margin_exec(ltb, side);
            if e {
                return v;
            }
        }
    }
    if let Some(mm) = master_match {
        if let Some(mtb) = &mm.text_body {
            let (e, v) = margin_exec(mtb, side);
            if e {
                return v;
            }
        }
    }
    own
}

impl HtmlRenderer {
    /// Effective auto-fit of a text body along the cascade.
    pub fn resolve_text_auto_fit(
        text_body: &TextBody,
        layout_match: Option<&Shape>,
        master_match: Option<&Shape>,
    ) -> (r: AutoFit)
        ensures
            r == spec_text_auto_fit(*text_body, deref(layout_match), deref(master_match)),
    {
        let master_auto_fit = match master_match {
            Some(mm) => match &mm.text_body {
                Some(tb) => tb.auto_fit,
                None => AutoFit::NoAutofit,
            },
            None => AutoFit::NoAutofit,
        };
        let layout_auto_fit: Option<AutoFit> = match layout_match {
            Some(lm) => match &lm.text_body {
                Some(tb) => Some(tb.auto_fit),
                None => None,
            },
            None => None,
        };
        let inherited_auto_fit = match layout_auto_fit {
            Some(af) => match af {
                AutoFit::NoAutofit => master_auto_fit,
                _ => merge_same_mode_norm_autofit(&af, &master_auto_fit),
            },
            None => master_auto_fit,
        };
        match text_body.auto_fit {
            AutoFit::NoAutofit => inherited_auto_fit,
            _ => merge_same_mode_norm_autofit(&text_body.auto_fit, &inherited_auto_fit),
        }
    }

    /// Effective vertical alignment along the cascade.
    pub fn resolve_text_vertical_align(
        text_body: &TextBody,
        layout_match: Option<&Shape>,
        master_match: Option<&Shape>,
    ) -> (r: VerticalAlign)
        ensures
            r == spec_text_vertical_align(*text_body, deref(layout_match), deref(master_match)),
    {
        if text_body.vertical_align_explicit {
            return text_body.vertical_align;
        }
        if let Some(lm) = layout_match {
            if let Some(tb) = &lm.text_body {
                if tb.vertical_align_explicit {
                    return tb.vertical_align;
                }
            }
        }
        if let Some(mm) = master_match {
            if let Some(tb) = &mm.text_body {
                if tb.vertical_align_explicit {
                    return tb.vertical_align;
                }
            }
        }
        text_body.vertical_align
    }

    /// Effective word wrap along the cascade.
    pub fn resolve_text_word_wrap(
        text_body: &TextBody,
        layout_match: Option<&Shape>,
        master_match: Option<&Shape>,
    ) -> (r: bool)
        ensures
            r == spec_text_word_wrap(*text_body, deref(layout_match), deref(master_match)),
    {
        if text_body.word_wrap_explicit {
            return text_body.word_wrap;
        }
        if let Some(lm) = layout_match {
            if let Some(tb) = &lm.text_body {
                if tb.word_wrap_explicit {
                    return tb.word_wrap;
                }
            }
        }
        if let Some(mm) = master_match {
            if let Some(tb) = &mm.text_body {
                if tb.word_wrap_explicit {
                    return tb.word_wrap;
                }
            }
        }
        text_body.word_wrap
    }

    /// Effective horizontal centering of the text block.
    pub fn resolve_text_anchor_center(
        text_body: &TextBody,
        layout_match: Option<&Shape>,
        master_match: Option<&Shape>,
    ) -> (r: bool)
        ensures
            r == spec_text_anchor_center(*text_body, deref(layout_match), deref(master_match)),
    {
        if text_body.anchor_center {
            return true;
        }
        if let Some(lm) = layout_match {
            if let Some(tb) = &lm.text_body {
                if tb.anchor_center {
                    return true;
                }
            }
        }
        if let Some(mm) = master_match {
            if let Some(tb) = &mm.text_body {
                if tb.anchor_center {
                    return true;
                }
            }
        }
        false
    }

    /// Effective text rotation (60000ths of a degree) along the cascade.
    pub fn resolve_text_rotation(
        text_body: &TextBody,
        layout_match: Option<&Shape>,
        master_match: Option<&Shape>,
    ) -> (r: i32)
        ensures
            r == spec_text_rotation(*text_body, deref(layout_match), deref(master_match)),
    {
        if text_body.text_rotation != 0 {
            return text_body.text_rotation;
        }
        if let Some(lm) = layout_match {
            if let Some(tb) = &lm.text_body {
                if tb.text_rotation != 0 {
                    return tb.text_rotation;
                }
            }
        }
        if let Some(mm) = master_match {
            if let Some(tb) = &mm.text_body {
                if tb.text_rotation != 0 {
                    return tb.text_rotation;
                }
            }
        }
        0
    }

    /// Effective vertical text mode along the cascade.
    pub fn resolve_vertical_text<'a>(
        shape: &'a Shape,
        layout_match: Option<&'a Shape>,
        master_match: Option<&'a Shape>,
    ) -> (r: Option<&'a String>)
        ensures
            deref(r) == spec_vertical_text(*shape, deref(layout_match), deref(master_match)),
    {
        if shape.vertical_text_explicit {
            return shape.vertical_text.as_ref();
        }
        if let Some(lm) = layout_match {
            if lm.vertical_text_explicit {
                return lm.vertical_text.as_ref();
            }
        }
        if let Some(mm) = master_match {
            if mm.vertical_text_explicit {
                return mm.vertical_text.as_ref();
            }
        }
        if shape.vertical_text.is_some() {
            return shape.vertical_text.as_ref();
        }
        if let Some(lm) = layout_match {
            if lm.vertical_text.is_some() {
                return lm.vertical_text.as_ref();
            }
        }
        match master_match {
            Some(mm) => mm.vertical_text.as_ref(),
            None => None,
        }
    }

    /// Effective text insets: each side from the first level that sets it explicitly.
    pub fn resolve_text_margins(
        text_body: &TextBody,
        layout_match: Option<&Shape>,
        master_match: Option<&Shape>,
    ) -> (r: TextMargins)
        ensures
            r.top == spec_margin_side(*text_body, deref(layout_match), deref(master_match), 0),
            r.bottom == spec_margin_side(*text_body, deref(layout_match), deref(master_match), 1),
            r.left == spec_margin_side(*text_body, deref(layout_match), deref(master_match), 2),
            r.right == spec_margin_side(*text_body, deref(layout_match), deref(master_match), 3),
    {
        TextMargins {
            top: margin_side(text_body, layout_match, master_match, 0),
            bottom: margin_side(text_body, layout_match, master_match, 1),
            left: margin_side(text_body, layout_match, master_match, 2),
            right: margin_side(text_body, layout_match, master_match, 3),
        }
    }

    /// The font (and color) that the shape's fontRef selects from the primary theme, when
    /// the shape has one and the context has a color scheme and color map.
    pub fn resolve_font_ref_font(
        shape: &Shape,
        primary_theme: Option<&Theme>,
        ctx: &RenderCtx<'_>,
    ) -> (r: Option<(String, Option<ResolvedColor>)>)
        ensures
            (r is Some) == (shape.style_ref matches Some(sr) && sr.font_ref is Some
                && primary_theme is Some && ctx.scheme is Some && ctx.clr_map is Some
                && spec_font_ref_name(
                sr.font_ref.unwrap(),
                primary_theme.unwrap().font_scheme,
            ) is Some),
            r matches Some(x) ==> (x.0@ == spec_font_ref_name(
                shape.style_ref.unwrap().font_ref.unwrap(),
                primary_theme.unwrap().font_scheme,
            ).unwrap() && (if shape.style_ref.unwrap().font_ref.unwrap().color.kind is Unset {
                x.1 is None
            } else {
                match spec_resolve(
                    shape.style_ref.unwrap().font_ref.unwrap().color,
                    opt_deref(ctx.scheme),
                    opt_deref(ctx.clr_map),
                ) {
                    Some(h) => x.1 matches Some(c) && c.hex@ == h,
                    None => x.1 is None,
                }
            })),
    {
        let sr = match &shape.style_ref {
            Some(sr) => sr,
            None => return None,
        };
        let font_ref = match &sr.font_ref {
            Some(f) => f,
            None => return None,
        };
        let theme = match primary_theme {
            Some(t) => t,
            None => return None,
        };
        let scheme = match ctx.scheme {
            Some(s) => s,
            None => return None,
        };
        let clr_map = match ctx.clr_map {
            Some(c) => c,
            None => return None,
        };
        resolve_font_ref(font_ref, &theme.font_scheme, scheme, clr_map)
    }

    /// The list styles that paragraph defaults of a shape's text come from: its own, its
    /// layout and master placeholders', the first master's text style for its placeholder
    /// type, and the presentation's default text style.
    pub fn build_text_style_ctx<'a>(
        shape: &'a Shape,
        layout_match: Option<&'a Shape>,
        master_match: Option<&'a Shape>,
        first_master: Option<&'a SlideMaster>,
        default_text_style: Option<&'a ListStyle>,
    ) -> (r: TextStyleCtx<'a>)
        ensures
            deref(r.slide_list_style) == list_style_of(Some(*shape)),
            deref(r.layout_list_style) == list_style_of(deref(layout_match)),
            deref(r.master_placeholder_list_style) == list_style_of(deref(master_match)),
            deref(r.master_list_style) == match first_master {
                Some(m) => match spec_text_style_source(
                    match shape.placeholder {
                        Some(ph) => ph.ph_type,
                        None => None,
                    },
                ) {
                    TextStyleSource::TitleStyle => m.tx_styles.title_style,
                    TextStyleSource::BodyStyle => m.tx_styles.body_style,
                    TextStyleSource::OtherStyle => m.tx_styles.other_style,
                },
                None => None,
            },
            deref(r.default_list_style) == deref(default_text_style),
    {
        let ph_type = match &shape.placeholder {
            Some(ph) => ph.ph_type.as_ref(),
            None => None,
        };
        let source = text_style_source(ph_type);
        let slide_list_style = list_style_ref(Some(shape));
        let layout_list_style = list_style_ref(layout_match);
        let master_placeholder_list_style = list_style_ref(master_match);
        let master_list_style = match first_master {
            Some(m) => match source {
                TextStyleSource::TitleStyle => m.tx_styles.title_style.as_ref(),
                TextStyleSource::BodyStyle => m.tx_styles.body_style.as_ref(),
                TextStyleSource::OtherStyle => m.tx_styles.other_style.as_ref(),
            },
            None => None,
        };
        TextStyleCtx {
            slide_list_style,
            layout_list_style,
            master_placeholder_list_style,
            master_list_style,
            default_list_style: default_text_style,
        }
    }
}

/// The list style of a shape's text body.
pub open spec fn list_style_of(s: Option<Shape>) -> Option<ListStyle> {
    match body_of(s) {
        Some(b) => b.list_style,
        None => None,
    }
}

fn list_style_ref<'a>(s: Option<&'a Shape>) -> (r: Option<&'a ListStyle>)
    ensures
        deref(r) == list_style_of(deref(s)),
{
    match s {
        Some(shape) => match &shape.text_body {
            Some(tb) => tb.list_style.as_ref(),
            None => None,
        },
        None => None,
    }
}

// ---------------------------------------------------------------------------
// List styles in effect
// ---------------------------------------------------------------------------

/// The list styles that a text body inherits from, most specific first.
#[derive(Debug, Default, Clone, Copy)]
pub struct TextStyleCtx<'a> {
    pub slide_list_style: Option<&'a ListStyle>,
    pub layout_list_style: Option<&'a ListStyle>,
    pub master_placeholder_list_style: Option<&'a ListStyle>,
    pub master_list_style: Option<&'a ListStyle>,
    pub default_list_style: Option<&'a ListStyle>,
}

/// The defaults a list style holds for a level.
pub open spec fn level_in(ls: Option<&ListStyle>, level: int) -> Option<ParagraphDefaults> {
    match ls {
        Some(l) => if 0 <= level < 9 {
            l.levels@[level]
        } else {
            None
        },
        None => None,
    }
}

/// The paragraph defaults of a level: from the first list style (slide, layout, master
/// placeholder, master text styles, default text style) that defines the level; levels 9
/// and above have none.
pub open spec fn spec_level_defaults(ctx: TextStyleCtx, level: int) -> Option<ParagraphDefaults> {
    if level >= 9 {
        None
    } else if level_in(ctx.slide_list_style, level) is Some {
        level_in(ctx.slide_list_style, level)
    } else if level_in(ctx.layout_list_style, level) is Some {
        level_in(ctx.layout_list_style, level)
    } else if level_in(ctx.master_placeholder_list_style, level) is Some {
        level_in(ctx.master_placeholder_list_style, level)
    } else if level_in(ctx.master_list_style, level) is Some {
        level_in(ctx.master_list_style, level)
    } else {
        level_in(ctx.default_list_style, level)
    }
}

/// The most specific list style present, as a provenance source.
pub open spec fn spec_primary_source(ctx: TextStyleCtx) -> Option<ProvenanceSource> {
    if ctx.slide_list_style is Some {
        Some(ProvenanceSource::SlideListStyle)
    } else if ctx.layout_list_style is Some {
        Some(ProvenanceSource::LayoutListStyle)
    } else if ctx.master_placeholder_list_style is Some {
        Some(ProvenanceSource::MasterListStyle)
    } else if ctx.master_list_style is Some {
        Some(ProvenanceSource::MasterTextStyles)
    } else if ctx.default_list_style is Some {
        Some(ProvenanceSource::DefaultTextStyle)
    } else {
        None
    }
}

fn level_ref<'a>(ls: Option<&'a ListStyle>, level: usize) -> (r: Option<&'a ParagraphDefaults>)
    requires
        level < 9,
    ensures
        deref(r) == level_in(ls, level as int),
{
    match ls {
        Some(l) => match &l.levels[level] {
            Some(pd) => Some(pd),
            None => None,
        },
        None => None,
    }
}

impl<'a> TextStyleCtx<'a> {
    /// The most specific list style present, as a provenance source.
    pub fn primary_source(&self) -> (r: Option<ProvenanceSource>)
        ensures
            r == spec_primary_source(*self),
    {
        if self.slide_list_style.is_some() {
            return Some(ProvenanceSource::SlideListStyle);
        }
        if self.layout_list_style.is_some() {
            return Some(ProvenanceSource::LayoutListStyle);
        }
        if self.master_placeholder_list_style.is_some() {
            return Some(ProvenanceSource::MasterListStyle);
        }
        if self.master_list_style.is_some() {
            return Some(ProvenanceSource::MasterTextStyles);
        }
        if self.default_list_style.is_some() {
            return Some(ProvenanceSource::DefaultTextStyle);
        }
        None
    }

    /// Paragraph defaults for a level (0-based). Priority: slide list style, then layout,
    /// master placeholder and master text styles, then the default text style.
    pub fn get_level_defaults(&self, level: usize) -> (r: Option<&'a ParagraphDefaults>)
        ensures
            deref(r) == spec_level_defaults(*self, level as int),
    {
        if level >= 9 {
            return None;
        }
        if let Some(pd) = level_ref(self.slide_list_style, level) {
            return Some(pd);
        }
        if let Some(pd) = level_ref(self.layout_list_style, level) {
            return Some(pd);
        }
        if let Some(pd) = level_ref(self.master_placeholder_list_style, level) {
            return Some(pd);
        }
        if let Some(pd) = level_ref(self.master_list_style, level) {
            return Some(pd);
        }
        level_ref(self.default_list_style, level)
    }
}

} // verus!
