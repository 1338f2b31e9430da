//! The SVG of a preset shape: its view box, gradient and arrowhead definitions with fresh
//! ids, and its path with fill, stroke, dash, caps, joins, markers and effects. The path
//! data, a linear gradient's vector and the arrowhead geometry are drawn in floating
//! point outside the library and reach it as text.
use vstd::prelude::*;
use vstd::seq_lib::lemma_concat_associative;

use crate::geometry::CustomGeomPathSvg;
use crate::model::fill::{same_fill, Border, Fill, GradientStop, GradientType, LineEnd, LineEndType};
use crate::model::shape::PathFill;
use crate::model::hierarchy::FmtScheme;
use crate::model::shape::{Position, Shape, Size};
use crate::renderer::context::{spec_color_to_css, RenderCollector, RenderCtx};
use crate::renderer::effects::{css_or, push_color_or, spec_svg_filter_attr};
use crate::renderer::fill_css::HtmlRenderer;
use crate::renderer::html::{
    dash_array_svg, line_cap_to_svg, line_join_to_svg, line_miter_limit_to_svg,
    spec_dash_array_svg, spec_line_cap_to_svg, spec_line_join_to_svg,
    spec_line_miter_limit_to_svg,
};
use crate::geometry::{needs_evenodd_fill, spec_needs_evenodd_fill};
use crate::renderer::shape::{
    px, shape_border, shape_fill, spec_connector_needs_swap, spec_effective_flip,
    spec_effective_rotation, spec_effective_shape_type, spec_inherited_geometry_source,
    spec_is_line_preset, spec_svg_preset_name, inherits_geometry,
};
use crate::renderer::shape_html::shape_box_dims;
use crate::renderer::text_style::deref;
use crate::resolver::inheritance::{
    resolve_border_with_theme, resolve_position, resolve_shape_fill_with_theme,
};
use crate::strings::{decimal_digits, fmt_fixed, push_fixed, push_str, str_equal};

verus! {


/// What is drawn outside the library for a preset shape: the path data (for its box, or
/// for a connector turned or attached to other shapes when `generated`), the vector
/// attributes of a linear gradient (` x1=".." y1=".." x2=".." y2=".."`), and what follows
/// `<marker id=".."` in the definition of each arrowhead that draws something.
pub struct SvgGeometry<'a> {
    pub d: &'a str,
    pub generated: bool,
    pub gradient_vector: &'a str,
    pub tail_marker: &'a str,
    pub head_marker: &'a str,
}

/// Units of stroke width (tenths of an EMU) to the pixel.
pub open spec fn tenths_per_px() -> nat {
    95250
}

/// The `<stop>` elements of the gradient stops whose color resolves, in order: offset in
/// percent without decimals and color.
pub open spec fn svg_stops(ctx: RenderCtx, stops: Seq<GradientStop>) -> Seq<char>
    decreases stops.len(),
{
    if stops.len() == 0 {
        Seq::empty()
    } else {
        let s = stops.last();
        svg_stops(ctx, stops.drop_last()) + match spec_color_to_css(ctx, s.color) {
            Some(c) => "<stop offset=\""@ + fmt_fixed(s.position as int, 1000, 0) + "%\" stop-color=\""@
                + c + "\"/>"@,
            None => Seq::empty(),
        }
    }
}

/// The gradient definition of a fill with id `gid`: a linear gradient along `vector`, or
/// a radial one centred in the box, holding the stops whose color resolves; none for
/// another fill or when no stop resolves.
pub open spec fn gradient_def(fill: Fill, gid: Seq<char>, vector: Seq<char>, ctx: RenderCtx) -> Option<
    Seq<char>,
> {
    match fill {
        Fill::Gradient(gf) => {
            let stops = svg_stops(ctx, gf.stops@);
            if stops.len() == 0 {
                None
            } else if gf.gradient_type is Linear {
                Some(
                    "<linearGradient id=\""@ + gid + "\""@ + vector + ">"@ + stops
                        + "</linearGradient>"@,
                )
            } else {
                Some(
                    "<radialGradient id=\""@ + gid + "\" cx=\"50%\" cy=\"50%\" r=\"50%\">"@ + stops
                        + "</radialGradient>"@,
                )
            }
        },
        _ => None,
    }
}

/// The stroke color of a preset shape: its border's color (black when it does not
/// resolve) when the border has a width or the shape is a line, else none.
pub open spec fn svg_stroke_color(border: Border, is_line: bool, ctx: RenderCtx) -> Seq<char> {
    if border.width > 0 || is_line {
        css_or(ctx, border.color, "#000"@)
    } else {
        "none"@
    }
}

/// The stroke width of a preset shape in tenths of an EMU: its border's width, else one
/// pixel for a line, else nothing; widened by 1.6 for `lineInv`.
pub open spec fn svg_stroke_width(border: Border, is_line: bool, name: Seq<char>) -> int {
    let w = if border.width > 0 {
        border.width * 10
    } else if is_line {
        95250
    } else {
        0
    };
    if is_line && name == "lineInv"@ {
        w * 8 / 5
    } else {
        w
    }
}

/// The definition of an arrowhead with id `id`, when it draws something.
pub open spec fn marker_def(end: LineEnd, id: Seq<char>, rest: Seq<char>) -> Seq<char> {
    if end.end_type is NoEnd {
        Seq::empty()
    } else {
        "<marker id=\""@ + id + "\""@ + rest
    }
}

/// The id of the tail arrowhead, numbered `m`.
pub open spec fn tail_id(m: nat) -> Seq<char> {
    "marker-"@ + "tail"@ + seq!['-'] + decimal_digits(m)
}

/// The id of the head arrowhead: numbered after the tail's when the border has one.
pub open spec fn head_id(border: Border, m: nat) -> Seq<char> {
    "marker-"@ + "head"@ + seq!['-'] + decimal_digits(
        if border.tail_end is Some {
            m + 1
        } else {
            m
        },
    )
}

/// The number of arrowhead ids a border takes: one per line end it has.
pub open spec fn spec_marker_count(border: Border) -> nat {
    (if border.tail_end is Some {
        1nat
    } else {
        0nat
    }) + (if border.head_end is Some {
        1nat
    } else {
        0nat
    })
}

/// The definitions of a preset shape's SVG: its gradient, then its tail and head
/// arrowheads.
pub open spec fn svg_defs(fill: Fill, border: Border, geom: SvgGeometry, ctx: RenderCtx, g: nat, m: nat) -> Seq<
    char,
> {
    (match gradient_def(fill, "grad"@ + decimal_digits(g), geom.gradient_vector@, ctx) {
        Some(d) => d,
        None => Seq::empty(),
    }) + (match border.tail_end {
        Some(te) => marker_def(te, tail_id(m), geom.tail_marker@),
        None => Seq::empty(),
    }) + (match border.head_end {
        Some(he) => marker_def(he, head_id(border, m), geom.head_marker@),
        None => Seq::empty(),
    })
}

/// The fill of a preset shape's path: none for a line, the gradient when it has one, the
/// solid color when it resolves, else none.
pub open spec fn svg_fill_attr(fill: Fill, is_line: bool, has_gradient: bool, g: nat, ctx: RenderCtx) -> Seq<char> {
    if is_line {
        "none"@
    } else if has_gradient {
        "url(#"@ + "grad"@ + decimal_digits(g) + ")"@
    } else {
        match fill {
            Fill::Solid(sf) => css_or(ctx, sf.color, "none"@),
            _ => "none"@,
        }
    }
}

/// The flip of a turned connector whose path was not drawn for its position, as an SVG
/// transform of its view box (`w` by `h` EMU).
pub open spec fn svg_flip_transform(flip_h: bool, flip_v: bool, w: int, h: int) -> Seq<char> {
    if flip_h || flip_v {
        " transform=\"translate("@ + (if flip_h {
            px(w)
        } else {
            "0.0"@
        }) + ","@ + (if flip_v {
            px(h)
        } else {
            "0.0"@
        }) + ") scale("@ + (if flip_h {
            "-1"@
        } else {
            "1"@
        }) + ","@ + (if flip_v {
            "-1"@
        } else {
            "1"@
        }) + ")\""@
    } else {
        Seq::empty()
    }
}

/// The view box side of a preset shape: two pixels for a line thinner than half a pixel.
pub open spec fn view_side(is_line: bool, side: int) -> int {
    if is_line && 2 * side < 9525 {
        19050
    } else {
        side
    }
}

/// The start of a preset shape's `<path>`: its data, fill and fill rule.
#[verifier::opaque]
pub open spec fn path_head(geom: SvgGeometry, fill_attr: Seq<char>, evenodd: bool) -> Seq<char> {
    "<path d=\""@ + geom.d@ + "\" fill=\""@ + fill_attr + "\""@ + (if evenodd {
        " fill-rule=\"evenodd\""@
    } else {
        Seq::empty()
    })
}

/// The stroke attributes of a preset shape's path: color, width in pixels (at least 1.5
/// and not scaled for a line), dash, cap, join and miter limit.
pub open spec fn stroke_part(border: Border, is_line: bool, width: int, ctx: RenderCtx) -> Seq<char> {
    stroke_head(border, is_line, width, ctx) + stroke_tail(border, width)
}

/// Stroke color and width.
#[verifier::opaque]
pub open spec fn stroke_head(border: Border, is_line: bool, width: int, ctx: RenderCtx) -> Seq<char> {
    " stroke=\""@ + svg_stroke_color(border, is_line, ctx) + "\" stroke-width=\""@ + fmt_fixed(
        if is_line && width < 142875 {
            142875
        } else {
            width
        },
        tenths_per_px(),
        1,
    ) + "\""@ + (if is_line {
        " vector-effect=\"non-scaling-stroke\""@
    } else {
        Seq::empty()
    })
}

/// Stroke dash, cap, join and miter limit.
#[verifier::opaque]
pub open spec fn stroke_tail(border: Border, width: int) -> Seq<char> {
    spec_dash_array_svg(border.dash_style, width, tenths_per_px()) + spec_line_cap_to_svg(border.cap)
        + spec_line_join_to_svg(border.join) + spec_line_miter_limit_to_svg(border)
}

/// The arrowheads of a preset shape's path: the tail's at its start, the head's at its end.
#[verifier::opaque]
pub open spec fn markers_part(border: Border, m: nat) -> Seq<char> {
    (if border.tail_end is Some {
        " marker-start=\"url(#"@ + tail_id(m) + ")\""@
    } else {
        Seq::empty()
    }) + (if border.head_end is Some {
        " marker-end=\"url(#"@ + head_id(border, m) + ")\""@
    } else {
        Seq::empty()
    })
}

/// The `<path>` element of a preset shape and the closing tags of its SVG.
#[verifier::opaque]
pub open spec fn svg_path_element(
    geom: SvgGeometry,
    fill_attr: Seq<char>,
    evenodd: bool,
    width: int,
    is_line: bool,
    border: Border,
    ctx: RenderCtx,
    m: nat,
    transform: Seq<char>,
) -> Seq<char> {
    path_head(geom, fill_attr, evenodd) + stroke_part(border, is_line, width, ctx) + markers_part(
        border,
        m,
    ) + transform + "/></g></svg>\n"@
}

/// The opening of a preset shape's SVG with its view box (EMU, as pixels).
#[verifier::opaque]
pub open spec fn svg_open(vw: int, vh: int) -> Seq<char> {
    "<svg viewBox=\"0 0 "@ + px(vw) + " "@ + px(vh) + "\" class=\"shape-svg\" preserveAspectRatio=\"none\">"@
}

/// The definitions block, when there are definitions.
#[verifier::opaque]
pub open spec fn defs_block(defs: Seq<char>) -> Seq<char> {
    if defs.len() > 0 {
        "<defs>"@ + defs + "</defs>"@
    } else {
        Seq::empty()
    }
}

/// The opening of the group that carries a shape's effects.
#[verifier::opaque]
pub open spec fn group_open(shape: Shape, ctx: RenderCtx) -> Seq<char> {
    "<g"@ + svg_effect_attr(shape, ctx) + ">"@
}

/// The SVG of a preset shape, with gradient id number `g` and arrowhead ids from `m`: its
/// view box (its box, two pixels across for a line thinner than half a pixel), its
/// definitions when it has any, a group carrying the filter of its own effects, and its
/// path: filled by its gradient or solid color (even-odd for shapes with holes), stroked
/// in its border's color and width (in pixels, at least 1.5 and not scaled for lines),
/// dashed, capped and joined as its border says, with arrowheads at its tail (start) and
/// head (end), and for a turned connector whose path was not drawn for its position, the
/// flip of its box.
#[verifier::opaque]
pub open spec fn spec_shape_svg(
    shape: &Shape,
    layout_match: Option<&Shape>,
    master_match: Option<&Shape>,
    frame: Option<(Position, Size)>,
    ctx: RenderCtx,
    fmt_scheme: Option<&FmtScheme>,
    anchor: Option<(i64, i64, i64, i64)>,
    geom: SvgGeometry,
    g: nat,
    m: nat,
) -> Seq<char> {
    let src = spec_inherited_geometry_source(*shape, deref(layout_match), deref(master_match));
    let name = spec_svg_preset_name(spec_effective_shape_type(*shape, src)).unwrap();
    let is_line = spec_is_line_preset(name);
    let (w, h) = shape_box_dims(shape, layout_match, master_match, frame, anchor);
    let vw = view_side(is_line, w);
    let vh = view_side(is_line, h);
    let border = shape_border(*shape, deref(layout_match), deref(master_match), ctx, deref(fmt_scheme));
    let fill = shape_fill(*shape, deref(layout_match), deref(master_match), ctx, deref(fmt_scheme));
    let inh = inherits_geometry(*shape, src);
    let swap = spec_connector_needs_swap(Some(name), spec_effective_rotation(*shape, src) as int);
    svg_markup(
        *shape,
        ctx,
        geom,
        name,
        fill,
        border,
        vw,
        vh,
        swap && !geom.generated,
        spec_effective_flip(shape.flip_h, src.unwrap().flip_h, inh, src is Some),
        spec_effective_flip(shape.flip_v, src.unwrap().flip_v, inh, src is Some),
        g,
        m,
    )
}

/// The SVG of a preset shape named `name` from its resolved fill and border, view box
/// `vw` by `vh` (EMU), whether its box flip is drawn, and its flips.
pub open spec fn svg_markup(
    shape: Shape,
    ctx: RenderCtx,
    geom: SvgGeometry,
    name: Seq<char>,
    fill: Fill,
    border: Border,
    vw: int,
    vh: int,
    flip_drawn: bool,
    flip_h: bool,
    flip_v: bool,
    g: nat,
    m: nat,
) -> Seq<char> {
    let is_line = spec_is_line_preset(name);
    svg_open(vw, vh) + defs_block(svg_defs(fill, border, geom, ctx, g, m)) + group_open(shape, ctx)
        + svg_path_element(
        geom,
        svg_fill_attr(
            fill,
            is_line,
            gradient_def(fill, "grad"@ + decimal_digits(g), geom.gradient_vector@, ctx) is Some,
            g,
            ctx,
        ),
        spec_needs_evenodd_fill(name),
        svg_stroke_width(border, is_line, name),
        is_line,
        border,
        ctx,
        m,
        if flip_drawn {
            svg_flip_transform(flip_h, flip_v, vw, vh)
        } else {
            Seq::empty()
        },
    )
}


impl HtmlRenderer {
    /// The `<stop>` elements of the gradient stops whose color resolves (see `svg_stops`).
    pub fn svg_stops_markup(ctx: &RenderCtx<'_>, stops: &Vec<GradientStop>) -> (r: String)
        ensures
            r@ == svg_stops(*ctx, stops@),
    {
        let mut out = String::new();
        let mut i: usize = 0;
        while i < stops.len()
            invariant
                i <= stops@.len(),
                out@ == svg_stops(*ctx, stops@.take(i as int)),
            decreases stops@.len() - i,
        {
            let st = &stops[i];
            let ghost before = out@;
            match ctx.color_to_css(&st.color) {
                Some(c) => {
                    push_str(&mut out, "<stop offset=\"");
                    push_fixed(&mut out, st.position as i128, 1000, 0);
                    push_str(&mut out, "%\" stop-color=\"");
                    push_str(&mut out, c.as_str());
                    push_str(&mut out, "\"/>");
                },
                None => {},
            }
            proof {
                let t1 = stops@.take(i as int + 1);
                assert(t1.drop_last() =~= stops@.take(i as int));
                assert(t1.last() == stops@[i as int]);
                assert(out@ =~= svg_stops(*ctx, t1));
            }
            i = i + 1;
        }
        proof {
            assert(stops@.take(stops@.len() as int) =~= stops@);
        }
        out
    }

    /// Appends the gradient definition of a fill (see `gradient_def`); true when there is
    /// one.
    fn push_gradient_def(out: &mut String, fill: &Fill, gid: &str, vector: &str, ctx: &RenderCtx<'_>) -> (has: bool)
        ensures
            has == gradient_def(*fill, gid@, vector@, *ctx) is Some,
            final(out)@ == old(out)@ + match gradient_def(*fill, gid@, vector@, *ctx) {
                Some(d) => d,
                None => Seq::empty(),
            },
    {
        match fill {
            Fill::Gradient(gf) => {
                let stops = Self::svg_stops_markup(ctx, &gf.stops);
                if stops.as_str().is_empty() {
                    return false;
                }
                match gf.gradient_type {
                    GradientType::Linear => {
                        push_str(out, "<linearGradient id=\"");
                        push_str(out, gid);
                        push_str(out, "\"");
                        push_str(out, vector);
                        push_str(out, ">");
                        push_str(out, stops.as_str());
                        push_str(out, "</linearGradient>");
                    },
                    _ => {
                        push_str(out, "<radialGradient id=\"");
                        push_str(out, gid);
                        push_str(out, "\" cx=\"50%\" cy=\"50%\" r=\"50%\">");
                        push_str(out, stops.as_str());
                        push_str(out, "</radialGradient>");
                    },
                }
                proof {
                    let d = gradient_def(*fill, gid@, vector@, *ctx).unwrap();
                    assert(out@ =~= old(out)@ + d);
                }
                true
            },
            _ => false,
        }
    }

    /// Appends the definition of an arrowhead (see `marker_def`).
    fn push_marker_def(out: &mut String, end: &LineEnd, id: &str, rest: &str)
        ensures
            final(out)@ == old(out)@ + marker_def(*end, id@, rest@),
    {
        if !matches!(end.end_type, LineEndType::NoEnd) {
            push_str(out, "<marker id=\"");
            push_str(out, id);
            push_str(out, "\"");
            push_str(out, rest);
            proof {
                assert(out@ =~= old(out)@ + marker_def(*end, id@, rest@));
            }
        }
    }

    /// Appends the stroke of a preset shape: color, width and their attributes up to the
    /// arrowheads (see `svg_path_element`).
    fn push_svg_stroke(
        out: &mut String,
        border: &Border,
        is_line: bool,
        width: i128,
        ctx: &RenderCtx<'_>,
    )
        requires
            0 <= width <= 16 * 0x8000_0000_0000_0000,
        ensures
            final(out)@ == old(out)@ + stroke_part(*border, is_line, width as int, *ctx),
    {
        let ghost o = out@;
        Self::push_stroke_head(out, border, is_line, width, ctx);
        let ghost mid = out@;
        Self::push_stroke_tail(out, border, width);
        proof {
            lemma_concat_associative(
                o,
                stroke_head(*border, is_line, width as int, *ctx),
                stroke_tail(*border, width as int),
            );
        }
    }

    fn push_stroke_head(out: &mut String, border: &Border, is_line: bool, width: i128, ctx: &RenderCtx<'_>)
        requires
            0 <= width <= 16 * 0x8000_0000_0000_0000,
        ensures
            final(out)@ == old(out)@ + stroke_head(*border, is_line, width as int, *ctx),
    {
        reveal(stroke_head);
        let ghost o = out@;
        push_str(out, " stroke=\"");
        if border.width > 0 || is_line {
            push_color_or(out, ctx, &border.color, "#000");
        } else {
            push_str(out, "none");
        }
        push_str(out, "\" stroke-width=\"");
        let shown: i128 = if is_line && width < 142875 {
            142875
        } else {
            width
        };
        push_fixed(out, shown, 95250, 1);
        push_str(out, "\"");
        if is_line {
            push_str(out, " vector-effect=\"non-scaling-stroke\"");
        }
        proof {
            assert(out@ =~= o + stroke_head(*border, is_line, width as int, *ctx));
        }
    }

    fn push_stroke_tail(out: &mut String, border: &Border, width: i128)
        requires
            0 <= width <= 16 * 0x8000_0000_0000_0000,
        ensures
            final(out)@ == old(out)@ + stroke_tail(*border, width as int),
    {
        reveal(stroke_tail);
        let ghost o = out@;
        let dash = dash_array_svg(&border.dash_style, width, 95250);
        push_str(out, dash.as_str());
        push_str(out, line_cap_to_svg(&border.cap));
        push_str(out, line_join_to_svg(&border.join));
        push_str(out, line_miter_limit_to_svg(border).as_str());
        proof {
            assert(out@ =~= o + stroke_tail(*border, width as int));
        }
    }
}

impl HtmlRenderer {
    /// Appends the `<path>` element of a preset shape and the closing tags of its SVG (see
    /// `svg_path_element`); `tail` and `head` are its arrowhead ids.
    fn push_svg_path(
        html: &mut String,
        geom: &SvgGeometry<'_>,
        fill_attr: &str,
        evenodd: bool,
        border: &Border,
        is_line: bool,
        width: i128,
        ctx: &RenderCtx<'_>,
        tail: &str,
        head: &str,
        transform: &str,
        m: Ghost<nat>,
    )
        requires
            0 <= width <= 16 * 0x8000_0000_0000_0000,
            border.tail_end is Some ==> tail@ == tail_id(m@),
            border.head_end is Some ==> head@ == head_id(*border, m@),
        ensures
            final(html)@ == old(html)@ + svg_path_element(
                *geom,
                fill_attr@,
                evenodd,
                width as int,
                is_line,
                *border,
                *ctx,
                m@,
                transform@,
            ),
    {
        reveal(svg_path_element);
        let ghost o = html@;
        Self::push_path_head(html, geom, fill_attr, evenodd);
        Self::push_svg_stroke(html, border, is_line, width, ctx);
        Self::push_markers(html, border, tail, head, m);
        let ghost c = html@;
        push_str(html, transform);
        push_str(html, "/></g></svg>\n");
        proof {
            let ph = path_head(*geom, fill_attr@, evenodd);
            let sp = stroke_part(*border, is_line, width as int, *ctx);
            let mp = markers_part(*border, m@);
            lemma_concat_associative(o, ph, sp);
            lemma_concat_associative(o, ph + sp, mp);
            lemma_concat_associative(o, ph + sp + mp, transform@);
            lemma_concat_associative(o, ph + sp + mp + transform@, "/></g></svg>\n"@);
            assert(html@ =~= c + transform@ + "/></g></svg>\n"@);
        }
    }

    fn push_path_head(html: &mut String, geom: &SvgGeometry<'_>, fill_attr: &str, evenodd: bool)
        ensures
            final(html)@ == old(html)@ + path_head(*geom, fill_attr@, evenodd),
    {
        reveal(path_head);
        let ghost o = html@;
        push_str(html, "<path d=\"");
        push_str(html, geom.d);
        push_str(html, "\" fill=\"");
        push_str(html, fill_attr);
        push_str(html, "\"");
        if evenodd {
            push_str(html, " fill-rule=\"evenodd\"");
        }
        proof {
            assert(html@ =~= o + path_head(*geom, fill_attr@, evenodd));
        }
    }

    fn push_markers(html: &mut String, border: &Border, tail: &str, head: &str, m: Ghost<nat>)
        requires
            border.tail_end is Some ==> tail@ == tail_id(m@),
            border.head_end is Some ==> head@ == head_id(*border, m@),
        ensures
            final(html)@ == old(html)@ + markers_part(*border, m@),
    {
        reveal(markers_part);
        let ghost o = html@;
        if border.tail_end.is_some() {
            push_str(html, " marker-start=\"url(#");
            push_str(html, tail);
            push_str(html, ")\"");
        }
        if border.head_end.is_some() {
            push_str(html, " marker-end=\"url(#");
            push_str(html, head);
            push_str(html, ")\"");
        }
        proof {
            assert(html@ =~= o + markers_part(*border, m@));
        }
    }

    /// The flip transform of a turned connector (see `svg_flip_transform`).
    fn svg_flip_transform_text(flip_h: bool, flip_v: bool, w: i128, h: i128) -> (r: String)
        requires
            -0x1_0000_0000_0000_0000 <= w <= 0x1_0000_0000_0000_0000,
            -0x1_0000_0000_0000_0000 <= h <= 0x1_0000_0000_0000_0000,
        ensures
            r@ == svg_flip_transform(flip_h, flip_v, w as int, h as int),
    {
        let mut s = String::new();
        if flip_h || flip_v {
            push_str(&mut s, " transform=\"translate(");
            if flip_h {
                push_fixed(&mut s, w, 9525, 1);
            } else {
                push_str(&mut s, "0.0");
            }
            push_str(&mut s, ",");
            if flip_v {
                push_fixed(&mut s, h, 9525, 1);
            } else {
                push_str(&mut s, "0.0");
            }
            push_str(&mut s, ") scale(");
            push_str(&mut s, if flip_h { "-1" } else { "1" });
            push_str(&mut s, ",");
            push_str(&mut s, if flip_v { "-1" } else { "1" });
            push_str(&mut s, ")\"");
            proof {
                assert(s@ =~= svg_flip_transform(flip_h, flip_v, w as int, h as int));
            }
        }
        s
    }
}


/// The effects attribute of a preset shape's group: the filter of its own effects.
pub open spec fn svg_effect_attr(shape: Shape, ctx: RenderCtx) -> Seq<char> {
    if shape.effects.outer_shadow is Some || shape.effects.glow is Some {
        spec_svg_filter_attr(shape.effects, ctx)
    } else {
        Seq::empty()
    }
}

impl HtmlRenderer {
    /// Renders the SVG of a preset shape (see `spec_shape_svg`): gradient id `grad{n}`
    /// and arrowhead ids `marker-tail-{n}` then `marker-head-{n}` taken from the
    /// collector in that order; `frame` replaces a group child's position and size,
    /// `anchor` gives the end points of an attached connector, and `geom` what is drawn
    /// in floating point.
    #[verifier::rlimit(50)]
    pub fn render_shape_svg(
        shape: &Shape,
        layout_match: Option<&Shape>,
        master_match: Option<&Shape>,
        frame: Option<(Position, Size)>,
        ctx: &RenderCtx<'_>,
        fmt_scheme: Option<&FmtScheme>,
        anchor: Option<(i64, i64, i64, i64)>,
        geom: &SvgGeometry<'_>,
        coll: &mut RenderCollector,
        html: &mut String,
    )
        requires
            spec_svg_preset_name(
                spec_effective_shape_type(
                    *shape,
                    spec_inherited_geometry_source(*shape, deref(layout_match), deref(master_match)),
                ),
            ) is Some,
            old(coll).gradient_counter < usize::MAX,
            old(coll).marker_counter + 2 <= usize::MAX,
        ensures
            final(html)@ == old(html)@ + spec_shape_svg(
                shape,
                layout_match,
                master_match,
                frame,
                *ctx,
                fmt_scheme,
                anchor,
                *geom,
                old(coll).gradient_counter as nat,
                old(coll).marker_counter as nat,
            ),
            final(coll).gradient_counter == old(coll).gradient_counter + 1,
            final(coll).marker_counter == old(coll).marker_counter + spec_marker_count(
                shape_border(*shape, deref(layout_match), deref(master_match), *ctx, deref(fmt_scheme)),
            ),
            final(coll).asset_counter == old(coll).asset_counter,
            final(coll).current_slide_index == old(coll).current_slide_index,
            final(coll).counter == old(coll).counter,
            final(coll).elements@ == old(coll).elements@,
            final(coll).external_assets@ == old(coll).external_assets@,
            final(coll).font_resolution_entries@ == old(coll).font_resolution_entries@,
            final(coll).provenance_entries@ == old(coll).provenance_entries@,
    {
        reveal(spec_shape_svg);
        let ghost g0 = coll.gradient_counter as nat;
        let ghost m0 = coll.marker_counter as nat;
        let ghost o = html@;
        let geometry = Self::effective_geometry(shape, layout_match, master_match);
        let name: &str = match Self::svg_preset_name(geometry.shape_type) {
            Some(n) => n,
            None => "",
        };
        let is_line = Self::is_line_preset(name);
        let (pos, size) = match frame {
            Some(f) => f,
            None => resolve_position(shape, layout_match, master_match),
        };
        let (w, h) = Self::box_dims(&pos, &size, anchor, &geometry, Some(name));
        let vw: i128 = if is_line && 2 * w < 9525 {
            19050
        } else {
            w
        };
        let vh: i128 = if is_line && 2 * h < 9525 {
            19050
        } else {
            h
        };
        let border = resolve_border_with_theme(
            shape,
            layout_match,
            master_match,
            fmt_scheme,
            ctx.scheme,
            ctx.clr_map,
        );
        let fill = resolve_shape_fill_with_theme(
            shape,
            layout_match,
            master_match,
            fmt_scheme,
            ctx.scheme,
            ctx.clr_map,
        );
        let swap = Self::connector_needs_swap(Some(name), geometry.rotation);
        let ghost spec_fill = shape_fill(*shape, deref(layout_match), deref(master_match), *ctx, deref(fmt_scheme));
        proof {
            assert(svg_defs(fill, border, *geom, *ctx, g0, m0) == svg_defs(spec_fill, border, *geom, *ctx, g0, m0));
            assert(gradient_def(fill, "grad"@ + decimal_digits(g0), geom.gradient_vector@, *ctx) == gradient_def(
                spec_fill,
                "grad"@ + decimal_digits(g0),
                geom.gradient_vector@,
                *ctx,
            ));
            assert(svg_fill_attr(fill, is_line, true, g0, *ctx) == svg_fill_attr(spec_fill, is_line, true, g0, *ctx));
            assert(svg_fill_attr(fill, is_line, false, g0, *ctx) == svg_fill_attr(spec_fill, is_line, false, g0, *ctx));
        }
        Self::emit_shape_svg(
            html,
            shape,
            ctx,
            geom,
            name,
            &fill,
            &border,
            vw,
            vh,
            swap && !geom.generated,
            geometry.flip_h,
            geometry.flip_v,
            coll,
        );
    }
}


impl HtmlRenderer {
    fn push_svg_open(html: &mut String, vw: i128, vh: i128)
        requires
            -0x1_0000_0000_0000_0000 <= vw <= 0x1_0000_0000_0000_0000,
            -0x1_0000_0000_0000_0000 <= vh <= 0x1_0000_0000_0000_0000,
        ensures
            final(html)@ == old(html)@ + svg_open(vw as int, vh as int),
    {
        reveal(svg_open);
        let ghost o = html@;
        push_str(html, "<svg viewBox=\"0 0 ");
        push_fixed(html, vw, 9525, 1);
        push_str(html, " ");
        push_fixed(html, vh, 9525, 1);
        push_str(html, "\" class=\"shape-svg\" preserveAspectRatio=\"none\">");
        proof {
            assert(html@ =~= o + svg_open(vw as int, vh as int));
        }
    }

    fn push_defs_block(html: &mut String, defs: &str)
        ensures
            final(html)@ == old(html)@ + defs_block(defs@),
    {
        reveal(defs_block);
        let ghost o = html@;
        if !defs.is_empty() {
            push_str(html, "<defs>");
            push_str(html, defs);
            push_str(html, "</defs>");
            proof {
                assert(html@ =~= o + defs_block(defs@));
            }
        } else {
            proof {
                assert(html@ =~= o + defs_block(defs@));
            }
        }
    }

    fn push_group_open(html: &mut String, shape: &Shape, ctx: &RenderCtx<'_>)
        ensures
            final(html)@ == old(html)@ + group_open(*shape, *ctx),
    {
        reveal(group_open);
        let ghost o = html@;
        push_str(html, "<g");
        match Self::explicit_shape_effects(shape) {
            Some(e) => {
                let attr = Self::effects_to_svg_filter_attr(&e, ctx);
                push_str(html, attr.as_str());
            },
            None => {},
        }
        push_str(html, ">");
        proof {
            assert(html@ =~= o + group_open(*shape, *ctx));
        }
    }
}


impl HtmlRenderer {
    /// Takes a gradient id and the arrowhead ids (tail then head) from the collector and
    /// builds the definitions of a preset shape (see `svg_defs`).
    fn take_svg_defs(
        fill: &Fill,
        border: &Border,
        geom: &SvgGeometry<'_>,
        ctx: &RenderCtx<'_>,
        coll: &mut RenderCollector,
    ) -> (r: (bool, String, String, String, String))
        requires
            old(coll).gradient_counter < usize::MAX,
            old(coll).marker_counter + 2 <= usize::MAX,
        ensures
            r.0 == gradient_def(
                *fill,
                "grad"@ + decimal_digits(old(coll).gradient_counter as nat),
                geom.gradient_vector@,
                *ctx,
            ) is Some,
            r.1@ == "grad"@ + decimal_digits(old(coll).gradient_counter as nat),
            border.tail_end is Some ==> r.2@ == tail_id(old(coll).marker_counter as nat),
            border.head_end is Some ==> r.3@ == head_id(*border, old(coll).marker_counter as nat),
            r.4@ == svg_defs(
                *fill,
                *border,
                *geom,
                *ctx,
                old(coll).gradient_counter as nat,
                old(coll).marker_counter as nat,
            ),
            final(coll).gradient_counter == old(coll).gradient_counter + 1,
            final(coll).marker_counter == old(coll).marker_counter + spec_marker_count(*border),
            final(coll).asset_counter == old(coll).asset_counter,
            final(coll).current_slide_index == old(coll).current_slide_index,
            final(coll).counter == old(coll).counter,
            final(coll).elements@ == old(coll).elements@,
            final(coll).external_assets@ == old(coll).external_assets@,
            final(coll).font_resolution_entries@ == old(coll).font_resolution_entries@,
            final(coll).provenance_entries@ == old(coll).provenance_entries@,
    {
        let ghost g0 = coll.gradient_counter as nat;
        let ghost m0 = coll.marker_counter as nat;
        let gid = coll.next_gradient_id();
        let mut defs = String::new();
        let has_grad = Self::push_gradient_def(&mut defs, fill, gid.as_str(), geom.gradient_vector, ctx);
        let ghost d1 = defs@;
        let tail = match &border.tail_end {
            Some(te) => {
                let id = coll.next_marker_id("tail");
                Self::push_marker_def(&mut defs, te, id.as_str(), geom.tail_marker);
                id
            },
            None => String::new(),
        };
        let ghost d2 = defs@;
        let head = match &border.head_end {
            Some(he) => {
                let id = coll.next_marker_id("head");
                Self::push_marker_def(&mut defs, he, id.as_str(), geom.head_marker);
                id
            },
            None => String::new(),
        };
        proof {
            assert(defs@ =~= svg_defs(*fill, *border, *geom, *ctx, g0, m0));
        }
        (has_grad, gid, tail, head, defs)
    }

    /// The fill attribute of a preset shape's path (see `svg_fill_attr`).
    fn svg_fill_attr_text(
        fill: &Fill,
        is_line: bool,
        has_grad: bool,
        gid: &str,
        ctx: &RenderCtx<'_>,
        g: Ghost<nat>,
    ) -> (r: String)
        requires
            gid@ == "grad"@ + decimal_digits(g@),
        ensures
            r@ == svg_fill_attr(*fill, is_line, has_grad, g@, *ctx),
    {
        let mut fill_attr = String::new();
        if is_line {
            push_str(&mut fill_attr, "none");
        } else if has_grad {
            push_str(&mut fill_attr, "url(#");
            push_str(&mut fill_attr, gid);
            push_str(&mut fill_attr, ")");
        } else {
            match fill {
                Fill::Solid(sf) => push_color_or(&mut fill_attr, ctx, &sf.color, "none"),
                _ => push_str(&mut fill_attr, "none"),
            }
        }
        proof {
            assert(fill_attr@ =~= svg_fill_attr(*fill, is_line, has_grad, g@, *ctx));
        }
        fill_attr
    }
}


impl HtmlRenderer {
    /// Writes the SVG of a preset shape from its resolved parts (see `svg_markup`).
    #[verifier::rlimit(50)]
    fn emit_shape_svg(
        html: &mut String,
        shape: &Shape,
        ctx: &RenderCtx<'_>,
        geom: &SvgGeometry<'_>,
        name: &str,
        fill: &Fill,
        border: &Border,
        vw: i128,
        vh: i128,
        flip_drawn: bool,
        flip_h: bool,
        flip_v: bool,
        coll: &mut RenderCollector,
    )
        requires
            -0x1_0000_0000_0000_0000 <= vw <= 0x1_0000_0000_0000_0000,
            -0x1_0000_0000_0000_0000 <= vh <= 0x1_0000_0000_0000_0000,
            old(coll).gradient_counter < usize::MAX,
            old(coll).marker_counter + 2 <= usize::MAX,
        ensures
            final(html)@ == old(html)@ + svg_markup(
                *shape,
                *ctx,
                *geom,
                name@,
                *fill,
                *border,
                vw as int,
                vh as int,
                flip_drawn,
                flip_h,
                flip_v,
                old(coll).gradient_counter as nat,
                old(coll).marker_counter as nat,
            ),
            final(coll).gradient_counter == old(coll).gradient_counter + 1,
            final(coll).marker_counter == old(coll).marker_counter + spec_marker_count(*border),
            final(coll).asset_counter == old(coll).asset_counter,
            final(coll).current_slide_index == old(coll).current_slide_index,
            final(coll).counter == old(coll).counter,
            final(coll).elements@ == old(coll).elements@,
            final(coll).external_assets@ == old(coll).external_assets@,
            final(coll).font_resolution_entries@ == old(coll).font_resolution_entries@,
            final(coll).provenance_entries@ == old(coll).provenance_entries@,
    {
        let ghost g0 = coll.gradient_counter as nat;
        let ghost m0 = coll.marker_counter as nat;
        let ghost o = html@;
        let is_line = Self::is_line_preset(name);
        Self::push_svg_open(html, vw, vh);
        let (has_grad, gid, tail, head, defs) = Self::take_svg_defs(fill, border, geom, ctx, coll);
        Self::push_defs_block(html, defs.as_str());
        Self::push_group_open(html, shape, ctx);
        let ghost p3 = html@;
        let fill_attr = Self::svg_fill_attr_text(fill, is_line, has_grad, gid.as_str(), ctx, Ghost(g0));
        let base: i128 = if border.width > 0 {
            border.width as i128 * 10
        } else if is_line {
            95250
        } else {
            0
        };
        let width: i128 = if is_line && str_equal(name, "lineInv") {
            base * 8 / 5
        } else {
            base
        };
        let evenodd = needs_evenodd_fill(name);
        let transform = if flip_drawn {
            Self::svg_flip_transform_text(flip_h, flip_v, vw, vh)
        } else {
            String::new()
        };
        Self::push_svg_path(
            html,
            geom,
            fill_attr.as_str(),
            evenodd,
            border,
            is_line,
            width,
            ctx,
            tail.as_str(),
            head.as_str(),
            transform.as_str(),
            Ghost(m0),
        );
        proof {
            let a = svg_open(vw as int, vh as int);
            let b = defs_block(svg_defs(*fill, *border, *geom, *ctx, g0, m0));
            let c = group_open(*shape, *ctx);
            lemma_concat_associative(o, a, b);
            lemma_concat_associative(o, a + b, c);
            let d = html@.subrange(p3.len() as int, html@.len() as int);
            assert(html@ =~= p3 + d);
            lemma_concat_associative(o, a + b + c, d);
            assert(html@ =~= o + svg_markup(
                *shape,
                *ctx,
                *geom,
                name@,
                *fill,
                *border,
                vw as int,
                vh as int,
                flip_drawn,
                flip_h,
                flip_v,
                g0,
                m0,
            ));
        }
    }
}


impl HtmlRenderer {
    /// The stroke color and width (tenths of an EMU) of a preset shape named `name` (see
    /// `svg_stroke_color` and `svg_stroke_width`), which its arrowheads are drawn with.
    pub fn svg_stroke(border: &Border, is_line: bool, name: &str, ctx: &RenderCtx<'_>) -> (r: (String, i128))
        ensures
            r.0@ == svg_stroke_color(*border, is_line, *ctx),
            r.1 == svg_stroke_width(*border, is_line, name@),
    {
        let mut color = String::new();
        if border.width > 0 || is_line {
            push_color_or(&mut color, ctx, &border.color, "#000");
        } else {
            push_str(&mut color, "none");
        }
        let base: i128 = if border.width > 0 {
            border.width as i128 * 10
        } else if is_line {
            95250
        } else {
            0
        };
        let width: i128 = if is_line && str_equal(name, "lineInv") {
            base * 8 / 5
        } else {
            base
        };
        (color, width)
    }
}


// ---------------------------------------------------------------------------
// Custom geometries
// ---------------------------------------------------------------------------

/// One path of a custom geometry: its data, filled with the shape's fill unless the path
/// is unfilled, stroked as the shape's border says, with its arrowheads.
pub open spec fn custom_path_html(p: CustomGeomPathSvg, default_fill: Seq<char>, border: Border, width: int, ctx: RenderCtx, m: nat) -> Seq<char> {
    "<path d=\""@ + p.d@ + "\" fill=\""@ + (if p.fill is NoFill {
        "none"@
    } else {
        default_fill
    }) + "\""@ + stroke_part(border, false, width, ctx) + markers_part(border, m) + "/>"@
}

/// The paths of a custom geometry in order.
pub open spec fn custom_paths_html(
    paths: Seq<CustomGeomPathSvg>,
    default_fill: Seq<char>,
    border: Border,
    width: int,
    ctx: RenderCtx,
    m: nat,
) -> Seq<char>
    decreases paths.len(),
{
    if paths.len() == 0 {
        Seq::empty()
    } else {
        custom_paths_html(paths.drop_last(), default_fill, border, width, ctx, m) + custom_path_html(
            paths.last(),
            default_fill,
            border,
            width,
            ctx,
            m,
        )
    }
}

/// The SVG of a custom geometry with paths `paths` in a box `w` by `h` (EMU), gradient id
/// number `g` and arrowhead ids from `m`: its view box, its definitions, a group carrying
/// the filter of its own effects, and each path; nothing without paths.
#[verifier::opaque]
pub open spec fn spec_custom_svg(
    shape: Shape,
    fill: Fill,
    border: Border,
    ctx: RenderCtx,
    geom: SvgGeometry,
    paths: Seq<CustomGeomPathSvg>,
    w: int,
    h: int,
    g: nat,
    m: nat,
) -> Seq<char> {
    if paths.len() == 0 {
        Seq::empty()
    } else {
        svg_open(w, h) + defs_block(svg_defs(fill, border, geom, ctx, g, m)) + group_open(shape, ctx)
            + custom_paths_html(
            paths,
            svg_fill_attr(
                fill,
                false,
                gradient_def(fill, "grad"@ + decimal_digits(g), geom.gradient_vector@, ctx) is Some,
                g,
                ctx,
            ),
            border,
            svg_stroke_width(border, false, Seq::empty()),
            ctx,
            m,
        ) + "</g>\n</svg>\n"@
    }
}

/// Fills that are the same value draw the same custom geometry.
pub(crate) proof fn lemma_custom_svg_same_fill(
    shape: Shape,
    a: Fill,
    b: Fill,
    border: Border,
    ctx: RenderCtx,
    geom: SvgGeometry,
    paths: Seq<CustomGeomPathSvg>,
    w: int,
    h: int,
    g: nat,
    m: nat,
)
    requires
        same_fill(a, b),
    ensures
        spec_custom_svg(shape, a, border, ctx, geom, paths, w, h, g, m) == spec_custom_svg(
            shape,
            b,
            border,
            ctx,
            geom,
            paths,
            w,
            h,
            g,
            m,
        ),
{
    reveal(spec_custom_svg);
    let gid = "grad"@ + decimal_digits(g);
    assert(gradient_def(a, gid, geom.gradient_vector@, ctx) == gradient_def(b, gid, geom.gradient_vector@, ctx));
    assert(svg_defs(a, border, geom, ctx, g, m) == svg_defs(b, border, geom, ctx, g, m));
    assert(svg_fill_attr(a, false, true, g, ctx) == svg_fill_attr(b, false, true, g, ctx));
    assert(svg_fill_attr(a, false, false, g, ctx) == svg_fill_attr(b, false, false, g, ctx));
}

impl HtmlRenderer {
    fn push_custom_path(
        html: &mut String,
        p: &CustomGeomPathSvg,
        default_fill: &str,
        border: &Border,
        width: i128,
        ctx: &RenderCtx<'_>,
        tail: &str,
        head: &str,
        m: Ghost<nat>,
    )
        requires
            0 <= width <= 16 * 0x8000_0000_0000_0000,
            border.tail_end is Some ==> tail@ == tail_id(m@),
            border.head_end is Some ==> head@ == head_id(*border, m@),
        ensures
            final(html)@ == old(html)@ + custom_path_html(*p, default_fill@, *border, width as int, *ctx, m@),
    {
        let ghost o = html@;
        push_str(html, "<path d=\"");
        push_str(html, p.d.as_str());
        push_str(html, "\" fill=\"");
        if matches!(p.fill, PathFill::NoFill) {
            push_str(html, "none");
        } else {
            push_str(html, default_fill);
        }
        push_str(html, "\"");
        let ghost a = html@;
        Self::push_svg_stroke(html, border, false, width, ctx);
        Self::push_markers(html, border, tail, head, m);
        let ghost c = html@;
        push_str(html, "/>");
        proof {
            let head_part = a.subrange(o.len() as int, a.len() as int);
            assert(a =~= o + head_part);
            let sp = stroke_part(*border, false, width as int, *ctx);
            let mp = markers_part(*border, m@);
            lemma_concat_associative(o, head_part, sp);
            lemma_concat_associative(o, head_part + sp, mp);
            lemma_concat_associative(o, head_part + sp + mp, "/>"@);
            assert(html@ =~= o + custom_path_html(*p, default_fill@, *border, width as int, *ctx, m@));
        }
    }

    /// Renders the SVG of a custom geometry whose paths were drawn outside the library
    /// (see `spec_custom_svg`), with the shape's resolved fill and border and `geom`'s
    /// gradient vector and arrowheads; gradient and arrowhead ids come from the collector
    /// as for preset shapes. Nothing is written, and no id taken, without paths.
    #[verifier::rlimit(50)]
    pub fn render_custom_geom_svg(
        shape: &Shape,
        fill: &Fill,
        border: &Border,
        ctx: &RenderCtx<'_>,
        geom: &SvgGeometry<'_>,
        paths: &Vec<CustomGeomPathSvg>,
        w: i128,
        h: i128,
        coll: &mut RenderCollector,
        html: &mut String,
    )
        requires
            -0x1_0000_0000_0000_0000 <= w <= 0x1_0000_0000_0000_0000,
            -0x1_0000_0000_0000_0000 <= h <= 0x1_0000_0000_0000_0000,
            paths@.len() > 0 ==> {
                &&& old(coll).gradient_counter < usize::MAX
                &&& old(coll).marker_counter + 2 <= usize::MAX
            },
        ensures
            final(html)@ == old(html)@ + spec_custom_svg(
                *shape,
                *fill,
                *border,
                *ctx,
                *geom,
                paths@,
                w as int,
                h as int,
                old(coll).gradient_counter as nat,
                old(coll).marker_counter as nat,
            ),
            final(coll).gradient_counter == old(coll).gradient_counter + if paths@.len() > 0 {
                1int
            } else {
                0int
            },
            final(coll).marker_counter == old(coll).marker_counter + if paths@.len() > 0 {
                spec_marker_count(*border) as int
            } else {
                0int
            },
            final(coll).asset_counter == old(coll).asset_counter,
            final(coll).current_slide_index == old(coll).current_slide_index,
            final(coll).counter == old(coll).counter,
            final(coll).elements@ == old(coll).elements@,
            final(coll).external_assets@ == old(coll).external_assets@,
            final(coll).font_resolution_entries@ == old(coll).font_resolution_entries@,
            final(coll).provenance_entries@ == old(coll).provenance_entries@,
    {
        reveal(spec_custom_svg);
        if paths.len() == 0 {
            return;
        }
        let ghost g0 = coll.gradient_counter as nat;
        let ghost m0 = coll.marker_counter as nat;
        let ghost o = html@;
        Self::push_svg_open(html, w, h);
        let (has_grad, gid, tail, head, defs) = Self::take_svg_defs(fill, border, geom, ctx, coll);
        Self::push_defs_block(html, defs.as_str());
        Self::push_group_open(html, shape, ctx);
        let ghost p3 = html@;
        let default_fill = Self::svg_fill_attr_text(fill, false, has_grad, gid.as_str(), ctx, Ghost(g0));
        let width: i128 = if border.width > 0 {
            border.width as i128 * 10
        } else {
            0
        };
        let mut i: usize = 0;
        while i < paths.len()
            invariant
                i <= paths@.len(),
                0 <= width <= 16 * 0x8000_0000_0000_0000,
                width == svg_stroke_width(*border, false, Seq::empty()),
                border.tail_end is Some ==> tail@ == tail_id(m0),
                border.head_end is Some ==> head@ == head_id(*border, m0),
                html@ == p3 + custom_paths_html(paths@.take(i as int), default_fill@, *border, width as int, *ctx, m0),
            decreases paths@.len() - i,
        {
            let ghost before = html@;
            Self::push_custom_path(
                html,
                &paths[i],
                default_fill.as_str(),
                border,
                width,
                ctx,
                tail.as_str(),
                head.as_str(),
                Ghost(m0),
            );
            proof {
                let t1 = paths@.take(i as int + 1);
                assert(t1.drop_last() =~= paths@.take(i as int));
                assert(t1.last() == paths@[i as int]);
                lemma_concat_associative(
                    p3,
                    custom_paths_html(paths@.take(i as int), default_fill@, *border, width as int, *ctx, m0),
                    custom_path_html(paths@[i as int], default_fill@, *border, width as int, *ctx, m0),
                );
            }
            i = i + 1;
        }
        let ghost p4 = html@;
        push_str(html, "</g>\n</svg>\n");
        proof {
            assert(paths@.take(paths@.len() as int) =~= paths@);
            let a = svg_open(w as int, h as int);
            let b = defs_block(svg_defs(*fill, *border, *geom, *ctx, g0, m0));
            let c = group_open(*shape, *ctx);
            let d = custom_paths_html(paths@, default_fill@, *border, width as int, *ctx, m0);
            lemma_concat_associative(o, a, b);
            lemma_concat_associative(o, a + b, c);
            lemma_concat_associative(o, a + b + c, d);
            lemma_concat_associative(o, a + b + c + d, "</g>\n</svg>\n"@);
        }
    }
}

} // verus!
