//! Visual effects set on a shape.
use vstd::prelude::*;

use crate::model::shape::{Glow, OuterShadow, Shape, ShapeEffects};
use crate::model::color::Color;
use crate::renderer::context::{spec_color_to_css, RenderCtx};
use crate::renderer::fill_css::HtmlRenderer;
use crate::strings::{fmt_fixed, push_fixed, push_str};

verus! {

impl ShapeEffects {
    /// An identical copy.
    pub fn copied(&self) -> (r: ShapeEffects)
        ensures
            r == *self,
    {
        let outer_shadow = match &self.outer_shadow {
            Some(s) => Some(
                OuterShadow {
                    blur_radius: s.blur_radius,
                    offset_x: s.offset_x,
                    offset_y: s.offset_y,
                    color: s.color.copied(),
                },
            ),
            None => None,
        };
        let glow = match &self.glow {
            Some(g) => Some(Glow { radius: g.radius, color: g.color.copied() }),
            None => None,
        };
        ShapeEffects { outer_shadow, glow }
    }
}

impl HtmlRenderer {
    /// The effects the shape sets itself: present when it has an outer shadow or a glow.
    pub fn explicit_shape_effects(shape: &Shape) -> (r: Option<ShapeEffects>)
        ensures
            r == if shape.effects.outer_shadow is Some || shape.effects.glow is Some {
                Some(shape.effects)
            } else {
                None
            },
    {
        if shape.effects.outer_shadow.is_some() || shape.effects.glow.is_some() {
            Some(shape.effects.copied())
        } else {
            None
        }
    }
}

/// CSS of a color in a context, or a fallback.
pub open spec fn css_or(ctx: RenderCtx, c: Color, fallback: Seq<char>) -> Seq<char> {
    match spec_color_to_css(ctx, c) {
        Some(x) => x,
        None => fallback,
    }
}

/// Offset and blur of an outer shadow in points, with its color (translucent black when
/// it does not resolve): `x y blur color`.
pub open spec fn shadow_values(ctx: RenderCtx, s: OuterShadow) -> Seq<char> {
    fmt_fixed(s.offset_x as int, 12700, 1) + "pt "@ + fmt_fixed(s.offset_y as int, 12700, 1)
        + "pt "@ + fmt_fixed(s.blur_radius as int, 12700, 1) + "pt "@ + css_or(
        ctx,
        s.color,
        "rgba(0,0,0,0.4)"@,
    )
}

/// The CSS `box-shadow` values of the effects: the outer shadow, then the glow as a
/// spread shadow (gold when its color does not resolve).
pub open spec fn spec_box_shadows(effects: ShapeEffects, ctx: RenderCtx) -> Seq<Seq<char>> {
    (match effects.outer_shadow {
        Some(s) => seq![shadow_values(ctx, s)],
        None => Seq::empty(),
    }) + match effects.glow {
        Some(g) => seq![
            "0 0 "@ + fmt_fixed(g.radius as int, 12700, 1) + "pt "@ + fmt_fixed(
                g.radius as int,
                12700,
                1,
            ) + "pt "@ + css_or(ctx, g.color, "rgba(255,215,0,0.5)"@),
        ],
        None => Seq::empty(),
    }
}

/// The SVG `drop-shadow` filters of the effects: the outer shadow, then the glow.
pub open spec fn spec_drop_shadows(effects: ShapeEffects, ctx: RenderCtx) -> Seq<Seq<char>> {
    (match effects.outer_shadow {
        Some(s) => seq!["drop-shadow("@ + shadow_values(ctx, s) + ")"@],
        None => Seq::empty(),
    }) + match effects.glow {
        Some(g) => seq![
            "drop-shadow(0 0 "@ + fmt_fixed(g.radius as int, 12700, 1) + "pt "@ + css_or(
                ctx,
                g.color,
                "rgba(255,215,0,0.5)"@,
            ) + ")"@,
        ],
        None => Seq::empty(),
    }
}

/// The filter attribute (with a leading space) of the effects' drop shadows joined with
/// spaces; empty without effects.
pub open spec fn spec_svg_filter_attr(effects: ShapeEffects, ctx: RenderCtx) -> Seq<char> {
    let f = spec_drop_shadows(effects, ctx);
    if f.len() == 0 {
        Seq::empty()
    } else if f.len() == 1 {
        " style=\"filter: "@ + f[0] + "\""@
    } else {
        " style=\"filter: "@ + f[0] + " "@ + f[1] + "\""@
    }
}

/// The characters of each string.
pub open spec fn strings_view(v: Seq<String>) -> Seq<Seq<char>> {
    v.map_values(|s: String| s@)
}

fn push_shadow_values(out: &mut String, ctx: &RenderCtx, s: &OuterShadow)
    ensures
        final(out)@ == old(out)@ + shadow_values(*ctx, *s),
{
    push_fixed(out, s.offset_x as i128, 12700, 1);
    push_str(out, "pt ");
    push_fixed(out, s.offset_y as i128, 12700, 1);
    push_str(out, "pt ");
    push_fixed(out, s.blur_radius as i128, 12700, 1);
    push_str(out, "pt ");
    match ctx.color_to_css(&s.color) {
        Some(c) => push_str(out, c.as_str()),
        None => push_str(out, "rgba(0,0,0,0.4)"),
    }
    proof {
        assert(out@ =~= old(out)@ + shadow_values(*ctx, *s));
    }
}

pub(crate) fn push_color_or(out: &mut String, ctx: &RenderCtx, c: &Color, fallback: &str)
    ensures
        final(out)@ == old(out)@ + css_or(*ctx, *c, fallback@),
{
    match ctx.color_to_css(c) {
        Some(x) => push_str(out, x.as_str()),
        None => push_str(out, fallback),
    }
}

impl HtmlRenderer {
    /// CSS `box-shadow` values for a shape's effects: the outer shadow (offset and blur
    /// in points, translucent black by default) and the glow as a spread shadow (gold by
    /// default).
    pub fn effects_to_box_shadows(effects: &ShapeEffects, ctx: &RenderCtx<'_>) -> (r: Vec<String>)
        ensures
            strings_view(r@) == spec_box_shadows(*effects, *ctx),
    {
        let mut shadows: Vec<String> = Vec::new();
        if let Some(shadow) = &effects.outer_shadow {
            let mut s = String::new();
            push_shadow_values(&mut s, ctx, shadow);
            shadows.push(s);
        }
        let ghost first = strings_view(shadows@);
        if let Some(glow) = &effects.glow {
            let mut s = String::new();
            push_str(&mut s, "0 0 ");
            push_fixed(&mut s, glow.radius as i128, 12700, 1);
            push_str(&mut s, "pt ");
            push_fixed(&mut s, glow.radius as i128, 12700, 1);
            push_str(&mut s, "pt ");
            push_color_or(&mut s, ctx, &glow.color, "rgba(255,215,0,0.5)");
            shadows.push(s);
        }
        proof {
            assert(strings_view(shadows@) =~= spec_box_shadows(*effects, *ctx));
        }
        shadows
    }

    /// An SVG filter attribute (with a leading space) applying the effects as drop
    /// shadows; empty when there are none.
    pub fn effects_to_svg_filter_attr(effects: &ShapeEffects, ctx: &RenderCtx<'_>) -> (r: String)
        ensures
            r@ == spec_svg_filter_attr(*effects, *ctx),
    {
        let mut filters: Vec<String> = Vec::new();
        if let Some(shadow) = &effects.outer_shadow {
            let mut s = String::new();
            push_str(&mut s, "drop-shadow(");
            push_shadow_values(&mut s, ctx, shadow);
            push_str(&mut s, ")");
            filters.push(s);
        }
        if let Some(glow) = &effects.glow {
            let mut s = String::new();
            push_str(&mut s, "drop-shadow(0 0 ");
            push_fixed(&mut s, glow.radius as i128, 12700, 1);
            push_str(&mut s, "pt ");
            push_color_or(&mut s, ctx, &glow.color, "rgba(255,215,0,0.5)");
            push_str(&mut s, ")");
            filters.push(s);
        }
        let ghost fv = strings_view(filters@);
        proof {
            assert(fv =~= spec_drop_shadows(*effects, *ctx));
        }
        if filters.len() == 0 {
            return String::new();
        }
        let mut attr = String::new();
        push_str(&mut attr, " style=\"filter: ");
        push_str(&mut attr, filters[0].as_str());
        if filters.len() > 1 {
            push_str(&mut attr, " ");
            push_str(&mut attr, filters[1].as_str());
        }
        push_str(&mut attr, "\"");
        proof {
            assert(filters@[0]@ == fv[0]);
            if filters@.len() > 1 {
                assert(filters@[1]@ == fv[1]);
            }
            assert(attr@ =~= spec_svg_filter_attr(*effects, *ctx));
        }
        attr
    }
}

} // verus!
