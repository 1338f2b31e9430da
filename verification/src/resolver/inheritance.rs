//! Property inheritance cascade (slide -> layout -> master).
//!
//! OOXML uses a three-level hierarchy: slide master, slide layout, slide. A property set
//! at a lower level (slide) overrides the same property of a higher level (master).
use vstd::prelude::*;

use crate::model::color::{ClrMap, Color, ColorKind, ColorScheme};
use crate::model::fill::{
    same_fill, spec_empty_border, Border, DashStyle, Fill, LineCap, LineJoin, SolidFill,
};
use crate::model::hierarchy::{ClrMapOverride, FmtScheme, Slide, SlideLayout, SlideMaster};
use crate::model::shape::{Position, Shape, Size};
use crate::provenance::ProvenanceSource;
use crate::resolver::style_ref::{
    resolve_fill_ref, resolve_ln_ref, spec_resolve_fill_ref, spec_resolve_ln_ref,
};

verus! {

// ---------------------------------------------------------------------------
// Background
// ---------------------------------------------------------------------------

/// A background given at some level: present and not `Fill::Unset`.
pub open spec fn bg_is_set(bg: Option<Fill>) -> bool {
    bg matches Some(f) && !(f is Unset)
}

/// The level whose background a slide shows: the slide's own, else the layout's, else
/// the master's, else the built-in white.
pub open spec fn spec_background_source(
    slide: Slide,
    layout: Option<SlideLayout>,
    master: Option<SlideMaster>,
) -> ProvenanceSource {
    if bg_is_set(slide.background) {
        ProvenanceSource::Slide
    } else if layout matches Some(l) && bg_is_set(l.background) {
        ProvenanceSource::LayoutBackground
    } else if master matches Some(m) && bg_is_set(m.background) {
        ProvenanceSource::MasterBackground
    } else {
        ProvenanceSource::HardcodedDefault
    }
}

/// `f` is a solid fill of the sRGB color `hex`.
pub open spec fn is_solid_rgb(f: Fill, hex: Seq<char>) -> bool {
    f matches Fill::Solid(sf) && sf.color.kind matches ColorKind::Rgb(h) && h@ == hex
}

/// The background of the level that `spec_background_source` names.
pub open spec fn background_from(
    r: Fill,
    slide: Slide,
    layout: Option<SlideLayout>,
    master: Option<SlideMaster>,
) -> bool {
    match spec_background_source(slide, layout, master) {
        ProvenanceSource::Slide => same_fill(r, slide.background.unwrap()),
        ProvenanceSource::LayoutBackground => same_fill(r, layout.unwrap().background.unwrap()),
        ProvenanceSource::MasterBackground => same_fill(r, master.unwrap().background.unwrap()),
        _ => is_solid_rgb(r, "FFFFFF"@),
    }
}

/// The value behind an optional reference.
pub open spec fn opt<T>(o: Option<&T>) -> Option<T> {
    match o {
        Some(x) => Some(*x),
        None => None,
    }
}

/// Effective background of a slide (slide -> layout -> master -> white).
pub fn resolve_background(
    slide: &Slide,
    layout: Option<&SlideLayout>,
    master: Option<&SlideMaster>,
) -> (r: Fill)
    ensures
        background_from(r, *slide, opt(layout), opt(master)),
{
    if let Some(bg) = &slide.background {
        if !bg.is_unset() {
            return bg.copied();
        }
    }
    if let Some(l) = layout {
        if let Some(bg) = &l.background {
            if !bg.is_unset() {
                return bg.copied();
            }
        }
    }
    if let Some(m) = master {
        if let Some(bg) = &m.background {
            if !bg.is_unset() {
                return bg.copied();
            }
        }
    }
    Fill::Solid(SolidFill { color: Color::rgb("FFFFFF") })
}

/// Which level supplied the slide's background.
pub fn background_source(
    slide: &Slide,
    layout: Option<&SlideLayout>,
    master: Option<&SlideMaster>,
) -> (r: ProvenanceSource)
    ensures
        r == spec_background_source(*slide, opt(layout), opt(master)),
{
    if let Some(bg) = &slide.background {
        if !bg.is_unset() {
            return ProvenanceSource::Slide;
        }
    }
    if let Some(l) = layout {
        if let Some(bg) = &l.background {
            if !bg.is_unset() {
                return ProvenanceSource::LayoutBackground;
            }
        }
    }
    if let Some(m) = master {
        if let Some(bg) = &m.background {
            if !bg.is_unset() {
                return ProvenanceSource::MasterBackground;
            }
        }
    }
    ProvenanceSource::HardcodedDefault
}

// ---------------------------------------------------------------------------
// Shape fill
// ---------------------------------------------------------------------------

/// A fill decides the shape's fill: anything but `Fill::Unset` (`NoFill` included).
pub open spec fn fill_decides(f: Fill) -> bool {
    !(f is Unset)
}

/// The level that decides a shape's fill without the theme: the shape, else its layout
/// match, else its master match; `None` when no level decides.
pub open spec fn spec_fill_level(
    shape: Shape,
    layout_match: Option<Shape>,
    master_match: Option<Shape>,
) -> Option<ProvenanceSource> {
    if fill_decides(shape.fill) {
        Some(ProvenanceSource::Slide)
    } else if layout_match matches Some(l) && fill_decides(l.fill) {
        Some(ProvenanceSource::LayoutPlaceholder)
    } else if master_match matches Some(m) && fill_decides(m.fill) {
        Some(ProvenanceSource::MasterPlaceholder)
    } else {
        None
    }
}

/// The fill of the level that `spec_fill_level` names, or `Fill::Unset`.
pub open spec fn spec_shape_fill(
    shape: Shape,
    layout_match: Option<Shape>,
    master_match: Option<Shape>,
) -> Fill {
    match spec_fill_level(shape, layout_match, master_match) {
        Some(ProvenanceSource::Slide) => shape.fill,
        Some(ProvenanceSource::LayoutPlaceholder) => layout_match.unwrap().fill,
        Some(ProvenanceSource::MasterPlaceholder) => master_match.unwrap().fill,
        _ => Fill::Unset,
    }
}

/// Effective fill of a shape (shape -> layout match -> master match). An explicit
/// `NoFill` at a level stops the cascade there.
pub fn resolve_shape_fill(
    shape: &Shape,
    layout_match: Option<&Shape>,
    master_match: Option<&Shape>,
) -> (r: Fill)
    ensures
        same_fill(r, spec_shape_fill(*shape, opt(layout_match), opt(master_match))),
{
    if shape.fill.is_no_fill() {
        return Fill::NoFill;
    }
    if !shape.fill.is_unset() {
        return shape.fill.copied();
    }
    if let Some(lm) = layout_match {
        if lm.fill.is_no_fill() {
            return Fill::NoFill;
        }
        if !lm.fill.is_unset() {
            return lm.fill.copied();
        }
    }
    if let Some(mm) = master_match {
        if mm.fill.is_no_fill() {
            return Fill::NoFill;
        }
        if !mm.fill.is_unset() {
            return mm.fill.copied();
        }
    }
    Fill::Unset
}

/// The fill that the shape's style reference supplies, when a fillRef, the format
/// scheme, the color scheme and the color map are all at hand.
pub open spec fn spec_theme_fill(
    shape: Shape,
    fmt_scheme: Option<FmtScheme>,
    scheme: Option<ColorScheme>,
    clr_map: Option<ClrMap>,
) -> Option<Fill> {
    if shape.style_ref matches Some(sr) && sr.fill_ref is Some && fmt_scheme is Some && scheme is Some
        && clr_map is Some {
        spec_resolve_fill_ref(shape.style_ref.unwrap().fill_ref.unwrap(), fmt_scheme.unwrap())
    } else {
        None
    }
}

/// The cascade fill; when no level decides, the style reference's fill, else unset.
pub open spec fn spec_shape_fill_with_theme(
    shape: Shape,
    layout_match: Option<Shape>,
    master_match: Option<Shape>,
    fmt_scheme: Option<FmtScheme>,
    scheme: Option<ColorScheme>,
    clr_map: Option<ClrMap>,
) -> Fill {
    if spec_fill_level(shape, layout_match, master_match) is Some {
        spec_shape_fill(shape, layout_match, master_match)
    } else {
        match spec_theme_fill(shape, fmt_scheme, scheme, clr_map) {
            Some(f) => f,
            None => Fill::Unset,
        }
    }
}

/// Effective fill with the style reference as fallback (theme-aware).
pub fn resolve_shape_fill_with_theme(
    shape: &Shape,
    layout_match: Option<&Shape>,
    master_match: Option<&Shape>,
    fmt_scheme: Option<&FmtScheme>,
    scheme: Option<&ColorScheme>,
    clr_map: Option<&ClrMap>,
) -> (r: Fill)
    ensures
        same_fill(
            r,
            spec_shape_fill_with_theme(
                *shape,
                opt(layout_match),
                opt(master_match),
                opt(fmt_scheme),
                opt(scheme),
                opt(clr_map),
            ),
        ),
{
    let basic = resolve_shape_fill(shape, layout_match, master_match);
    if basic.is_no_fill() {
        return Fill::NoFill;
    }
    if !basic.is_unset() {
        return basic;
    }
    match (&shape.style_ref, fmt_scheme, scheme, clr_map) {
        (Some(style_ref), Some(fmt), Some(cs), Some(cm)) => {
            if let Some(fill_ref) = &style_ref.fill_ref {
                if let Some(resolved) = resolve_fill_ref(fill_ref, fmt, cs, cm) {
                    return resolved;
                }
            }
        },
        _ => {},
    }
    Fill::Unset
}

/// Which level supplied a shape's fill; `has_style_ref_fill` says whether the style
/// reference supplies one.
pub open spec fn spec_shape_fill_source(
    shape: Shape,
    layout_match: Option<Shape>,
    master_match: Option<Shape>,
    has_style_ref_fill: bool,
) -> Option<ProvenanceSource> {
    match spec_fill_level(shape, layout_match, master_match) {
        Some(s) => Some(s),
        None => if has_style_ref_fill {
            Some(ProvenanceSource::StyleRef)
        } else {
            None
        },
    }
}

/// Which level supplied a shape's fill.
pub fn shape_fill_source(
    shape: &Shape,
    layout_match: Option<&Shape>,
    master_match: Option<&Shape>,
    has_style_ref_fill: bool,
) -> (r: Option<ProvenanceSource>)
    ensures
        r == spec_shape_fill_source(
            *shape,
            opt(layout_match),
            opt(master_match),
            has_style_ref_fill,
        ),
{
    if shape.fill.is_no_fill() || !shape.fill.is_unset() {
        return Some(ProvenanceSource::Slide);
    }
    if let Some(lm) = layout_match {
        if lm.fill.is_no_fill() || !lm.fill.is_unset() {
            return Some(ProvenanceSource::LayoutPlaceholder);
        }
    }
    if let Some(mm) = master_match {
        if mm.fill.is_no_fill() || !mm.fill.is_unset() {
            return Some(ProvenanceSource::MasterPlaceholder);
        }
    }
    if has_style_ref_fill {
        return Some(ProvenanceSource::StyleRef);
    }
    None
}

// ---------------------------------------------------------------------------
// Border
// ---------------------------------------------------------------------------

/// A border has meaningful properties beyond its width: a color, an arrowhead, or a
/// non-default dash, cap or join.
pub open spec fn spec_has_border_properties(b: Border) -> bool {
    ||| !(b.color.kind is Unset)
    ||| b.head_end is Some
    ||| b.tail_end is Some
    ||| b.dash_style != DashStyle::Solid
    ||| b.cap != LineCap::Flat
    ||| b.join != LineJoin::Miter
}

/// A border is given at a level: positive width or meaningful properties.
pub open spec fn border_is_set(b: Border) -> bool {
    b.width > 0 || spec_has_border_properties(b)
}

/// A border decides the outline at its level: given, or explicitly without line.
pub open spec fn border_decides(b: Border) -> bool {
    b.no_fill || border_is_set(b)
}

/// The line that the shape's style reference supplies, when an lnRef, the format scheme,
/// the color scheme and the color map are all at hand.
pub open spec fn spec_theme_line(
    shape: Shape,
    fmt_scheme: Option<FmtScheme>,
    scheme: Option<ColorScheme>,
    clr_map: Option<ClrMap>,
) -> Option<Border> {
    if shape.style_ref matches Some(sr) && sr.ln_ref is Some && fmt_scheme is Some && scheme is Some
        && clr_map is Some {
        spec_resolve_ln_ref(shape.style_ref.unwrap().ln_ref.unwrap(), fmt_scheme.unwrap())
    } else {
        None
    }
}

/// The shape's own border, taking color (and, for zero width, width) from the style
/// reference when the border names no color.
pub open spec fn own_border_with_line_color(own: Border, theme: Option<Border>) -> Border {
    if own.color.kind is Unset && theme is Some {
        Border {
            color: theme.unwrap().color,
            width: if own.width == 0 {
                theme.unwrap().width
            } else {
                own.width
            },
            ..own
        }
    } else {
        own
    }
}

/// The style reference's line, keeping the shape's own arrowheads, dash, cap and join
/// where the reference leaves them at their defaults.
pub open spec fn theme_line_with_own_details(res: Border, own: Border) -> Border {
    Border {
        head_end: if res.head_end is None && own.head_end is Some {
            own.head_end
        } else {
            res.head_end
        },
        tail_end: if res.tail_end is None && own.tail_end is Some {
            own.tail_end
        } else {
            res.tail_end
        },
        dash_style: if res.dash_style == DashStyle::Solid && own.dash_style != DashStyle::Solid {
            own.dash_style
        } else {
            res.dash_style
        },
        cap: if res.cap == LineCap::Flat && own.cap != LineCap::Flat {
            own.cap
        } else {
            res.cap
        },
        join: if res.join == LineJoin::Miter && own.join != LineJoin::Miter {
            own.join
        } else {
            res.join
        },
        ..res
    }
}

/// The effective border: the first level that decides (an explicit no-line gives the
/// empty border), else the style reference's line, else the shape's own border.
pub open spec fn spec_border_with_theme(
    shape: Shape,
    layout_match: Option<Shape>,
    master_match: Option<Shape>,
    fmt_scheme: Option<FmtScheme>,
    scheme: Option<ColorScheme>,
    clr_map: Option<ClrMap>,
) -> Border {
    let theme = spec_theme_line(shape, fmt_scheme, scheme, clr_map);
    if shape.border.no_fill {
        spec_empty_border()
    } else if border_is_set(shape.border) {
        own_border_with_line_color(shape.border, theme)
    } else if layout_match matches Some(l) && border_decides(l.border) {
        if layout_match.unwrap().border.no_fill {
            spec_empty_border()
        } else {
            layout_match.unwrap().border
        }
    } else if master_match matches Some(m) && border_decides(m.border) {
        if master_match.unwrap().border.no_fill {
            spec_empty_border()
        } else {
            master_match.unwrap().border
        }
    } else if theme is Some {
        theme_line_with_own_details(theme.unwrap(), shape.border)
    } else {
        shape.border
    }
}

/// Effective border with the style reference as fallback (theme-aware).
pub fn resolve_border_with_theme(
    shape: &Shape,
    layout_match: Option<&Shape>,
    master_match: Option<&Shape>,
    fmt_scheme: Option<&FmtScheme>,
    scheme: Option<&ColorScheme>,
    clr_map: Option<&ClrMap>,
) -> (r: Border)
    ensures
        r == spec_border_with_theme(
            *shape,
            opt(layout_match),
            opt(master_match),
            opt(fmt_scheme),
            opt(scheme),
            opt(clr_map),
        ),
{
    let theme_line: Option<Border> = match (&shape.style_ref, fmt_scheme, scheme, clr_map) {
        (Some(sr), Some(fmt), Some(cs), Some(cm)) => match &sr.ln_ref {
            Some(ln_ref) => resolve_ln_ref(ln_ref, fmt, cs, cm),
            None => None,
        },
        _ => None,
    };
    if shape.border.no_fill {
        return Border::empty();
    }
    if shape.border.width > 0 || has_border_properties(&shape.border) {
        let mut border = shape.border.copied();
        if border.color.is_none() {
            if let Some(resolved) = theme_line {
                border.color = resolved.color;
                if border.width == 0 {
                    border.width = resolved.width;
                }
            }
        }
        return border;
    }
    if let Some(lm) = layout_match {
        if lm.border.no_fill {
            return Border::empty();
        }
        if lm.border.width > 0 || has_border_properties(&lm.border) {
            return lm.border.copied();
        }
    }
    if let Some(mm) = master_match {
        if mm.border.no_fill {
            return Border::empty();
        }
        if mm.border.width > 0 || has_border_properties(&mm.border) {
            return mm.border.copied();
        }
    }
    if let Some(mut resolved) = theme_line {
        if resolved.head_end.is_none() && shape.border.head_end.is_some() {
            resolved.head_end = shape.border.head_end;
        }
        if resolved.tail_end.is_none() && shape.border.tail_end.is_some() {
            resolved.tail_end = shape.border.tail_end;
        }
        if resolved.dash_style == DashStyle::Solid && shape.border.dash_style != DashStyle::Solid {
            resolved.dash_style = shape.border.dash_style;
        }
        if resolved.cap == LineCap::Flat && shape.border.cap != LineCap::Flat {
            resolved.cap = shape.border.cap;
        }
        if resolved.join == LineJoin::Miter && shape.border.join != LineJoin::Miter {
            resolved.join = shape.border.join;
        }
        return resolved;
    }
    shape.border.copied()
}

/// Which level supplied the border; `has_style_ref_line` says whether the style
/// reference supplies a line.
pub open spec fn spec_border_source(
    shape: Shape,
    layout_match: Option<Shape>,
    master_match: Option<Shape>,
    has_style_ref_line: bool,
) -> Option<ProvenanceSource> {
    if border_decides(shape.border) {
        Some(ProvenanceSource::Slide)
    } else if layout_match matches Some(l) && border_decides(l.border) {
        Some(ProvenanceSource::LayoutPlaceholder)
    } else if master_match matches Some(m) && border_decides(m.border) {
        Some(ProvenanceSource::MasterPlaceholder)
    } else if has_style_ref_line {
        Some(ProvenanceSource::StyleRef)
    } else {
        None
    }
}

/// Which level supplied the border.
pub fn border_source(
    shape: &Shape,
    layout_match: Option<&Shape>,
    master_match: Option<&Shape>,
    has_style_ref_line: bool,
) -> (r: Option<ProvenanceSource>)
    ensures
        r == spec_border_source(*shape, opt(layout_match), opt(master_match), has_style_ref_line),
{
    if shape.border.no_fill || shape.border.width > 0 || has_border_properties(&shape.border) {
        return Some(ProvenanceSource::Slide);
    }
    if let Some(lm) = layout_match {
        if lm.border.no_fill || lm.border.width > 0 || has_border_properties(&lm.border) {
            return Some(ProvenanceSource::LayoutPlaceholder);
        }
    }
    if let Some(mm) = master_match {
        if mm.border.no_fill || mm.border.width > 0 || has_border_properties(&mm.border) {
            return Some(ProvenanceSource::MasterPlaceholder);
        }
    }
    if has_style_ref_line {
        return Some(ProvenanceSource::StyleRef);
    }
    None
}

/// Does the border have meaningful properties beyond its width?
fn has_border_properties(border: &Border) -> (r: bool)
    ensures
        r == spec_has_border_properties(*border),
{
    !border.color.is_none() || border.head_end.is_some() || border.tail_end.is_some()
        || border.dash_style != DashStyle::Solid || border.cap != LineCap::Flat || border.join
        != LineJoin::Miter
}

// ---------------------------------------------------------------------------
// Position and color map
// ---------------------------------------------------------------------------

/// A shape has its own geometry (its `xfrm` was present): non-zero size or position.
pub open spec fn spec_has_own_geometry(pos: Position, size: Size) -> bool {
    size.width.0 != 0 || size.height.0 != 0 || pos.x.0 != 0 || pos.y.0 != 0
}

/// Position and size of the first level with own geometry, else the shape's own.
pub open spec fn spec_resolve_position(
    shape: Shape,
    layout_match: Option<Shape>,
    master_match: Option<Shape>,
) -> (Position, Size) {
    if spec_has_own_geometry(shape.position, shape.size) {
        (shape.position, shape.size)
    } else if layout_match matches Some(l) && spec_has_own_geometry(l.position, l.size) {
        (layout_match.unwrap().position, layout_match.unwrap().size)
    } else if master_match matches Some(m) && spec_has_own_geometry(m.position, m.size) {
        (master_match.unwrap().position, master_match.unwrap().size)
    } else {
        (shape.position, shape.size)
    }
}

/// Effective position and size of a placeholder shape: its own geometry if it has any,
/// else the layout's, else the master's.
pub fn resolve_position(
    shape: &Shape,
    layout_match: Option<&Shape>,
    master_match: Option<&Shape>,
) -> (r: (Position, Size))
    ensures
        r == spec_resolve_position(*shape, opt(layout_match), opt(master_match)),
{
    if has_own_geometry(&shape.position, &shape.size) {
        return (shape.position, shape.size);
    }
    if let Some(lm) = layout_match {
        if has_own_geometry(&lm.position, &lm.size) {
            return (lm.position, lm.size);
        }
    }
    if let Some(mm) = master_match {
        if has_own_geometry(&mm.position, &mm.size) {
            return (mm.position, mm.size);
        }
    }
    (shape.position, shape.size)
}

/// A placeholder's frame comes from the nearest level that places it: the shape's own
/// position and size when any of the four is non-zero; otherwise the layout match's when
/// it has one with any non-zero value, whatever the master match holds; otherwise the
/// master match's when it has such a value; otherwise the shape's own (all zero).
pub proof fn position_comes_from_nearest_placing_level(
    shape: Shape,
    layout_match: Option<Shape>,
    master_match: Option<Shape>,
)
    ensures
        ({
            let r = spec_resolve_position(shape, layout_match, master_match);
            let places = |s: Shape|
                s.position.x.0 != 0 || s.position.y.0 != 0 || s.size.width.0 != 0 || s.size.height.0 != 0;
            &&& places(shape) ==> r == (shape.position, shape.size)
            &&& (!places(shape) && (layout_match matches Some(l) && places(l))) ==> r == (
                layout_match.unwrap().position,
                layout_match.unwrap().size,
            )
            &&& (!places(shape) && !(layout_match matches Some(l) && places(l))
                && (master_match matches Some(m) && places(m))) ==> r == (
                master_match.unwrap().position,
                master_match.unwrap().size,
            )
            &&& (!places(shape) && !(layout_match matches Some(l) && places(l)) && !(
            master_match matches Some(m) && places(m))) ==> r == (shape.position, shape.size)
        }),
{
}

/// The color map a slide uses: the slide's override, else the layout's override, else
/// the master's map. A "use master" override defers to the next level.
pub open spec fn spec_resolve_clr_map(
    slide: Slide,
    layout: Option<SlideLayout>,
    master: SlideMaster,
) -> ClrMap {
    match slide.clr_map_ovr {
        Some(ClrMapOverride::Override(cm)) => cm,
        _ => match layout {
            Some(l) => match l.clr_map_ovr {
                Some(ClrMapOverride::Override(cm)) => cm,
                _ => master.clr_map,
            },
            None => master.clr_map,
        },
    }
}

/// Effective color map of a slide considering overrides.
pub fn resolve_clr_map<'a>(
    slide: &'a Slide,
    layout: Option<&'a SlideLayout>,
    master: &'a SlideMaster,
) -> (r: &'a ClrMap)
    ensures
        *r == spec_resolve_clr_map(*slide, opt(layout), *master),
{
    if let Some(ovr) = &slide.clr_map_ovr {
        match ovr {
            ClrMapOverride::Override(cm) => return cm,
            ClrMapOverride::UseMaster => {},
        }
    }
    if let Some(l) = layout {
        if let Some(ovr) = &l.clr_map_ovr {
            match ovr {
                ClrMapOverride::Override(cm) => return cm,
                ClrMapOverride::UseMaster => {},
            }
        }
    }
    &master.clr_map
}

/// Does the shape have its own geometry?
fn has_own_geometry(pos: &Position, size: &Size) -> (r: bool)
    ensures
        r == spec_has_own_geometry(*pos, *size),
{
    size.width.0 != 0 || size.height.0 != 0 || pos.x.0 != 0 || pos.y.0 != 0
}


// ---------------------------------------------------------------------------
// Laws of the cascade
// ---------------------------------------------------------------------------

/// A background set on the slide wins over whatever the layout and master set.
pub proof fn slide_background_overrides(
    slide: Slide,
    layout: Option<SlideLayout>,
    master: Option<SlideMaster>,
    r: Fill,
)
    requires
        bg_is_set(slide.background),
        background_from(r, slide, layout, master),
    ensures
        spec_background_source(slide, layout, master) == ProvenanceSource::Slide,
        same_fill(r, slide.background.unwrap()),
{
}

/// A fill set on the shape (an explicit transparent `NoFill` included) wins over the
/// layout, the master and the theme's style reference.
pub proof fn shape_fill_overrides(
    shape: Shape,
    layout_match: Option<Shape>,
    master_match: Option<Shape>,
    fmt_scheme: Option<FmtScheme>,
    scheme: Option<ColorScheme>,
    clr_map: Option<ClrMap>,
)
    requires
        fill_decides(shape.fill),
    ensures
        spec_shape_fill_with_theme(shape, layout_match, master_match, fmt_scheme, scheme, clr_map)
            == shape.fill,
        spec_shape_fill(shape, layout_match, master_match) == shape.fill,
{
}

/// An explicit transparent fill anywhere along the cascade, before any level that sets a
/// fill, is never replaced by the theme's style reference.
pub proof fn no_fill_is_never_themed(
    shape: Shape,
    layout_match: Option<Shape>,
    master_match: Option<Shape>,
    fmt_scheme: Option<FmtScheme>,
    scheme: Option<ColorScheme>,
    clr_map: Option<ClrMap>,
)
    requires
        spec_shape_fill(shape, layout_match, master_match) is NoFill,
    ensures
        spec_shape_fill_with_theme(shape, layout_match, master_match, fmt_scheme, scheme, clr_map)
            is NoFill,
{
}

/// The fill source that `shape_fill_source` reports is where the theme-aware fill came
/// from: the shape, its layout match, its master match, the style reference, or nowhere
/// (unset), when the flag passed says whether the style reference supplies a fill.
pub proof fn fill_source_names_resolved_fill(
    shape: Shape,
    layout_match: Option<Shape>,
    master_match: Option<Shape>,
    fmt_scheme: Option<FmtScheme>,
    scheme: Option<ColorScheme>,
    clr_map: Option<ClrMap>,
)
    ensures
        ({
            let r = spec_shape_fill_with_theme(
                shape,
                layout_match,
                master_match,
                fmt_scheme,
                scheme,
                clr_map,
            );
            let theme = spec_theme_fill(shape, fmt_scheme, scheme, clr_map);
            match spec_shape_fill_source(shape, layout_match, master_match, theme is Some) {
                Some(ProvenanceSource::Slide) => r == shape.fill,
                Some(ProvenanceSource::LayoutPlaceholder) => r == layout_match.unwrap().fill,
                Some(ProvenanceSource::MasterPlaceholder) => r == master_match.unwrap().fill,
                Some(ProvenanceSource::StyleRef) => r == theme.unwrap(),
                _ => r is Unset,
            }
        }),
{
}

/// The border source that `border_source` reports is where the theme-aware border came
/// from: a level that decides gives its own border (the empty border for an explicit
/// no-line; the shape's own border may take its color from the style reference), else
/// the style reference's line, else the shape's own border.
pub proof fn border_source_names_resolved_border(
    shape: Shape,
    layout_match: Option<Shape>,
    master_match: Option<Shape>,
    fmt_scheme: Option<FmtScheme>,
    scheme: Option<ColorScheme>,
    clr_map: Option<ClrMap>,
)
    ensures
        ({
            let r = spec_border_with_theme(
                shape,
                layout_match,
                master_match,
                fmt_scheme,
                scheme,
                clr_map,
            );
            let theme = spec_theme_line(shape, fmt_scheme, scheme, clr_map);
            match spec_border_source(shape, layout_match, master_match, theme is Some) {
                Some(ProvenanceSource::Slide) => if shape.border.no_fill {
                    r == spec_empty_border()
                } else {
                    r == own_border_with_line_color(shape.border, theme)
                },
                Some(ProvenanceSource::LayoutPlaceholder) => if layout_match.unwrap().border.no_fill {
                    r == spec_empty_border()
                } else {
                    r == layout_match.unwrap().border
                },
                Some(ProvenanceSource::MasterPlaceholder) => if master_match.unwrap().border.no_fill {
                    r == spec_empty_border()
                } else {
                    r == master_match.unwrap().border
                },
                Some(ProvenanceSource::StyleRef) => r == theme_line_with_own_details(
                    theme.unwrap(),
                    shape.border,
                ),
                _ => r == shape.border,
            }
        }),
{
}

/// An explicit no-line on the shape gives no border, whatever the layout, master and
/// theme say.
pub proof fn explicit_no_line_stops_border(
    shape: Shape,
    layout_match: Option<Shape>,
    master_match: Option<Shape>,
    fmt_scheme: Option<FmtScheme>,
    scheme: Option<ColorScheme>,
    clr_map: Option<ClrMap>,
)
    requires
        shape.border.no_fill,
    ensures
        spec_border_with_theme(shape, layout_match, master_match, fmt_scheme, scheme, clr_map)
            == spec_empty_border(),
{
}

/// A shape with its own geometry keeps it; one without takes the first geometry found
/// along layout and master, or keeps its own zero geometry.
pub proof fn own_geometry_wins(
    shape: Shape,
    layout_match: Option<Shape>,
    master_match: Option<Shape>,
)
    ensures
        spec_has_own_geometry(shape.position, shape.size) ==> spec_resolve_position(
            shape,
            layout_match,
            master_match,
        ) == (shape.position, shape.size),
        ({
            let (p, z) = spec_resolve_position(shape, layout_match, master_match);
            spec_has_own_geometry(p, z) || (p, z) == (shape.position, shape.size)
        }),
{
}

/// A slide's color map override wins over the layout's and the master's map.
pub proof fn slide_clr_map_override_wins(
    slide: Slide,
    layout: Option<SlideLayout>,
    master: SlideMaster,
    cm: ClrMap,
)
    requires
        slide.clr_map_ovr == Some(ClrMapOverride::Override(cm)),
    ensures
        spec_resolve_clr_map(slide, layout, master) == cm,
{
}

} // verus!
