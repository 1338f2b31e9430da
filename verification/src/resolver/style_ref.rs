//! Shape style references (`<p:style>`): fillRef, lnRef and fontRef resolved against the
//! theme's format and font schemes.
use vstd::prelude::*;

use crate::model::color::{spec_resolve, ClrMap, ColorKind, ColorScheme, ResolvedColor};
use crate::model::fill::{same_fill, Border, BorderStyle, DashStyle, Fill, LineCap, LineJoin, SolidFill};
use crate::model::hierarchy::{FmtScheme, FontRef, FontScheme, StyleRef};
use crate::strings::str_equal;

verus! {

/// The OOXML placeholder color `phClr`, which a style list uses to mean "the color of
/// the style reference".
pub open spec fn spec_is_placeholder_color(kind: ColorKind) -> bool {
    kind matches ColorKind::Theme(name) && name@ == "phClr"@
}

/// The fill that a fillRef index selects: 1..=N from the fill style list, 1001.. from the
/// background fill style list; index 0 and indices past the end select nothing.
pub open spec fn fill_ref_base(fill_ref: StyleRef, fmt: FmtScheme) -> Option<Fill> {
    if fill_ref.idx == 0 {
        None
    } else if fill_ref.idx >= 1001 {
        let k = fill_ref.idx - 1001;
        if k < fmt.bg_fill_style_lst@.len() {
            Some(fmt.bg_fill_style_lst@[k])
        } else {
            None
        }
    } else {
        let k = fill_ref.idx - 1;
        if k < fmt.fill_style_lst@.len() {
            Some(fmt.fill_style_lst@[k])
        } else {
            None
        }
    }
}

/// The resolved fillRef: the selected fill, with an unset or placeholder color replaced
/// by the reference's color. An unset fill becomes a solid fill of the reference's color
/// when it has one.
pub open spec fn spec_resolve_fill_ref(fill_ref: StyleRef, fmt: FmtScheme) -> Option<Fill> {
    match fill_ref_base(fill_ref, fmt) {
        None => None,
        Some(Fill::Unset) => if fill_ref.color.kind is Unset {
            None
        } else {
            Some(Fill::Solid(SolidFill { color: fill_ref.color }))
        },
        Some(Fill::Solid(sf)) => Some(
            Fill::Solid(
                SolidFill {
                    color: if sf.color.kind is Unset || spec_is_placeholder_color(sf.color.kind) {
                        fill_ref.color
                    } else {
                        sf.color
                    },
                },
            ),
        ),
        Some(other) => Some(other),
    }
}

/// Resolve fillRef: look up the fill style list by index and apply the reference color.
pub fn resolve_fill_ref(
    fill_ref: &StyleRef,
    fmt_scheme: &FmtScheme,
    _scheme: &ColorScheme,
    _clr_map: &ClrMap,
) -> (r: Option<Fill>)
    ensures
        match spec_resolve_fill_ref(*fill_ref, *fmt_scheme) {
            Some(f) => r matches Some(x) && same_fill(x, f),
            None => r is None,
        },
{
    if fill_ref.idx == 0 {
        return None;
    }
    let base_fill: Option<&Fill> = if fill_ref.idx >= 1001 {
        let list_idx = (fill_ref.idx - 1001) as usize;
        if list_idx < fmt_scheme.bg_fill_style_lst.len() {
            Some(&fmt_scheme.bg_fill_style_lst[list_idx])
        } else {
            None
        }
    } else {
        let list_idx = (fill_ref.idx - 1) as usize;
        if list_idx < fmt_scheme.fill_style_lst.len() {
            Some(&fmt_scheme.fill_style_lst[list_idx])
        } else {
            None
        }
    };
    let base_fill = match base_fill {
        Some(f) => f,
        None => return None,
    };
    match base_fill {
        Fill::Unset => {
            if fill_ref.color.is_none() {
                return None;
            }
            Some(Fill::Solid(SolidFill { color: fill_ref.color.copied() }))
        },
        Fill::Solid(sf) => {
            let color = if sf.color.is_none() || is_placeholder_color(&sf.color.kind) {
                fill_ref.color.copied()
            } else {
                sf.color.copied()
            };
            Some(Fill::Solid(SolidFill { color }))
        },
        other => Some(other.copied()),
    }
}

/// The resolved lnRef: width and style of the selected line, with the reference's color
/// when it has one or when the line uses the placeholder color. A line of positive width
/// without a style is solid; a line of no width has no style. The other attributes are
/// unset.
pub open spec fn spec_resolve_ln_ref(ln_ref: StyleRef, fmt: FmtScheme) -> Option<Border> {
    if ln_ref.idx == 0 || ln_ref.idx - 1 >= fmt.ln_style_lst@.len() {
        None
    } else {
        let base = fmt.ln_style_lst@[ln_ref.idx - 1];
        Some(
            Border {
                width: base.width,
                color: if !(ln_ref.color.kind is Unset) || spec_is_placeholder_color(
                    base.color.kind,
                ) {
                    ln_ref.color
                } else {
                    base.color
                },
                style: if base.width > 0 {
                    if base.style == BorderStyle::NoLine {
                        BorderStyle::Solid
                    } else {
                        base.style
                    }
                } else {
                    BorderStyle::NoLine
                },
                dash_style: DashStyle::Solid,
                cap: LineCap::Flat,
                join: LineJoin::Miter,
                head_end: None,
                tail_end: None,
                no_fill: false,
                miter_limit: None,
            },
        )
    }
}

/// An lnRef selects line `idx` (1-based) of the theme's line style list, and nothing for
/// index 0 or past the end. The selected line keeps its width; its color is the
/// reference's whenever the reference carries one (or the line uses the placeholder color
/// `phClr`), else the line's own; a line of positive width is drawn (solid when it had no
/// style), and a line of no width is not drawn.
pub proof fn line_ref_selects_line_and_applies_its_color(ln_ref: StyleRef, fmt: FmtScheme)
    ensures
        (ln_ref.idx == 0 || ln_ref.idx > fmt.ln_style_lst@.len()) ==> spec_resolve_ln_ref(ln_ref, fmt)
            is None,
        (1 <= ln_ref.idx <= fmt.ln_style_lst@.len()) ==> {
            let base = fmt.ln_style_lst@[ln_ref.idx - 1];
            &&& spec_resolve_ln_ref(ln_ref, fmt) matches Some(b)
            &&& spec_resolve_ln_ref(ln_ref, fmt).unwrap().width == base.width
            &&& !(ln_ref.color.kind is Unset) ==> spec_resolve_ln_ref(ln_ref, fmt).unwrap().color
                == ln_ref.color
            &&& (base.color.kind matches ColorKind::Theme(n) && n@ == "phClr"@)
                ==> spec_resolve_ln_ref(ln_ref, fmt).unwrap().color == ln_ref.color
            &&& (ln_ref.color.kind is Unset && !(base.color.kind matches ColorKind::Theme(n) && n@
                == "phClr"@)) ==> spec_resolve_ln_ref(ln_ref, fmt).unwrap().color == base.color
            &&& base.width <= 0 ==> spec_resolve_ln_ref(ln_ref, fmt).unwrap().style == BorderStyle::NoLine
            &&& (base.width > 0 && base.style == BorderStyle::NoLine) ==> spec_resolve_ln_ref(
                ln_ref,
                fmt,
            ).unwrap().style == BorderStyle::Solid
            &&& (base.width > 0 && base.style != BorderStyle::NoLine) ==> spec_resolve_ln_ref(
                ln_ref,
                fmt,
            ).unwrap().style == base.style
            &&& spec_resolve_ln_ref(ln_ref, fmt).unwrap().dash_style == DashStyle::Solid
            &&& spec_resolve_ln_ref(ln_ref, fmt).unwrap().cap == LineCap::Flat
            &&& spec_resolve_ln_ref(ln_ref, fmt).unwrap().join == LineJoin::Miter
            &&& spec_resolve_ln_ref(ln_ref, fmt).unwrap().head_end is None
            &&& spec_resolve_ln_ref(ln_ref, fmt).unwrap().tail_end is None
        },
{
}

/// A fillRef selects fill `idx` (1-based) of the theme's fill style list for indices
/// below 1001, and background fill `idx - 1001` of the background fill style list from
/// 1001 on; index 0 and indices past either list select nothing. A selected solid fill
/// takes the reference's color when its own is unset or the placeholder color `phClr`,
/// and keeps its own otherwise; a selected unset fill becomes a solid fill of the
/// reference's color when the reference has one, else nothing; any other fill is kept.
pub proof fn fill_ref_selects_fill_and_applies_its_color(fill_ref: StyleRef, fmt: FmtScheme)
    ensures
        ({
            let i = fill_ref.idx as int;
            let base: Option<Fill> = if 1 <= i < 1001 && i <= fmt.fill_style_lst@.len() {
                Some(fmt.fill_style_lst@[i - 1])
            } else if 1001 <= i < 1001 + fmt.bg_fill_style_lst@.len() {
                Some(fmt.bg_fill_style_lst@[i - 1001])
            } else {
                None
            };
            let r = spec_resolve_fill_ref(fill_ref, fmt);
            &&& base is None ==> r is None
            &&& (base matches Some(Fill::Unset) && fill_ref.color.kind is Unset) ==> r is None
            &&& (base matches Some(Fill::Unset) && !(fill_ref.color.kind is Unset)) ==> r == Some(
                Fill::Solid(SolidFill { color: fill_ref.color }),
            )
            &&& (base matches Some(Fill::Solid(sf)) && (sf.color.kind is Unset || (
            sf.color.kind matches ColorKind::Theme(n) && n@ == "phClr"@))) ==> r == Some(
                Fill::Solid(SolidFill { color: fill_ref.color }),
            )
            &&& (base matches Some(Fill::Solid(sf)) && !(sf.color.kind is Unset) && !(
            sf.color.kind matches ColorKind::Theme(n) && n@ == "phClr"@)) ==> r == base
            &&& (base matches Some(f) && !(f is Unset) && !(f is Solid)) ==> r == base
        }),
{
}

/// A fontRef names the scheme's major Latin font for index `major` and its minor Latin
/// font for `minor`, when that font is not empty; any other index, or an empty font, names
/// nothing.
pub proof fn font_ref_names_major_or_minor_font(font_ref: FontRef, fs: FontScheme)
    ensures
        (font_ref.idx@ == "major"@ && fs.major_latin@.len() > 0) ==> spec_font_ref_name(font_ref, fs)
            == Some(fs.major_latin@),
        (font_ref.idx@ == "minor"@ && fs.minor_latin@.len() > 0) ==> spec_font_ref_name(font_ref, fs)
            == Some(fs.minor_latin@),
        (font_ref.idx@ != "major"@ && font_ref.idx@ != "minor"@) ==> spec_font_ref_name(font_ref, fs)
            is None,
        (font_ref.idx@ == "major"@ && fs.major_latin@.len() == 0) ==> spec_font_ref_name(font_ref, fs)
            is None,
        (font_ref.idx@ == "minor"@ && fs.minor_latin@.len() == 0) ==> spec_font_ref_name(font_ref, fs)
            is None,
{
    reveal_strlit("major");
    reveal_strlit("minor");
    assert("major"@ != "minor"@) by {
        assert("major"@[1] != "minor"@[1]);
    }
}

/// Resolve lnRef: look up the line style list by index and apply the reference color.
pub fn resolve_ln_ref(
    ln_ref: &StyleRef,
    fmt_scheme: &FmtScheme,
    _scheme: &ColorScheme,
    _clr_map: &ClrMap,
) -> (r: Option<Border>)
    ensures
        r == spec_resolve_ln_ref(*ln_ref, *fmt_scheme),
{
    if ln_ref.idx == 0 {
        return None;
    }
    let list_idx = (ln_ref.idx - 1) as usize;
    if list_idx >= fmt_scheme.ln_style_lst.len() {
        return None;
    }
    let base_border = &fmt_scheme.ln_style_lst[list_idx];
    let color = if !ln_ref.color.is_none() || is_placeholder_color(&base_border.color.kind) {
        ln_ref.color.copied()
    } else {
        base_border.color.copied()
    };
    let style = if base_border.width > 0 {
        match base_border.style {
            BorderStyle::NoLine => BorderStyle::Solid,
            s => s,
        }
    } else {
        BorderStyle::NoLine
    };
    Some(
        Border {
            width: base_border.width,
            color,
            style,
            dash_style: DashStyle::Solid,
            cap: LineCap::Flat,
            join: LineJoin::Miter,
            head_end: None,
            tail_end: None,
            no_fill: false,
            miter_limit: None,
        },
    )
}

/// The font a fontRef names (`major` or `minor` Latin font, when not empty) and the
/// resolved color of the reference, if it has a color.
pub open spec fn spec_font_ref_name(font_ref: FontRef, fs: FontScheme) -> Option<Seq<char>> {
    if font_ref.idx@ == "major"@ {
        if fs.major_latin@.len() > 0 {
            Some(fs.major_latin@)
        } else {
            None
        }
    } else if font_ref.idx@ == "minor"@ {
        if fs.minor_latin@.len() > 0 {
            Some(fs.minor_latin@)
        } else {
            None
        }
    } else {
        None
    }
}

/// Resolve fontRef: the major or minor Latin font of the scheme, and the reference's
/// color resolved against the color scheme and map.
pub fn resolve_font_ref(
    font_ref: &FontRef,
    font_scheme: &FontScheme,
    scheme: &ColorScheme,
    clr_map: &ClrMap,
) -> (r: Option<(String, Option<ResolvedColor>)>)
    ensures
        match spec_font_ref_name(*font_ref, *font_scheme) {
            None => r is None,
            Some(name) => r matches Some(x) && x.0@ == name && (if font_ref.color.kind is Unset {
                x.1 is None
            } else {
                match spec_resolve(font_ref.color, Some(*scheme), Some(*clr_map)) {
                    Some(h) => x.1 matches Some(c) && c.hex@ == h,
                    None => x.1 is None,
                }
            }),
        },
{
    let font_name: &String = if str_equal(font_ref.idx.as_str(), "major") {
        &font_scheme.major_latin
    } else if str_equal(font_ref.idx.as_str(), "minor") {
        &font_scheme.minor_latin
    } else {
        return None;
    };
    if font_name.as_str().is_empty() {
        return None;
    }
    let resolved_color = if !font_ref.color.is_none() {
        font_ref.color.resolve(Some(scheme), Some(clr_map))
    } else {
        None
    };
    Some((font_name.clone(), resolved_color))
}

/// Is the color the OOXML placeholder color `phClr`?
fn is_placeholder_color(kind: &ColorKind) -> (r: bool)
    ensures
        r == spec_is_placeholder_color(*kind),
{
    match kind {
        ColorKind::Theme(name) => str_equal(name.as_str(), "phClr"),
        _ => false,
    }
}


/// The placeholder color never survives resolution: a resolved solid fill or line either
/// has the style reference's color or a color of its own that is set and is not `phClr`.
pub proof fn placeholder_color_is_replaced(style_ref: StyleRef, fmt: FmtScheme)
    ensures
        spec_resolve_fill_ref(style_ref, fmt) matches Some(Fill::Solid(sf)) ==> (sf.color
            == style_ref.color || (!(sf.color.kind is Unset) && !spec_is_placeholder_color(
            sf.color.kind,
        ))),
        spec_resolve_ln_ref(style_ref, fmt) matches Some(b) ==> (b.color == style_ref.color
            || (b.color.kind is Unset && style_ref.color.kind is Unset) || !spec_is_placeholder_color(
            b.color.kind,
        )),
{
}

} // verus!
