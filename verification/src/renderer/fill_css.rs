//! CSS `background` declarations for fills.
use vstd::prelude::*;

use crate::model::fill::{Fill, GradientStop, GradientType};
use crate::renderer::context::{
    base64_encodable, data_url, spec_asset_path, spec_color_to_css, spec_data_url, RenderCollector,
    RenderCtx,
};
use crate::renderer::html::push_sep;
use crate::strings::{
    decimal_digits, push_char, push_decimal_u64, push_str, round_half_even, round_half_even_exec,
};

verus! {

/// The HTML renderer; its associated functions turn model values into HTML and CSS.
pub struct HtmlRenderer;

/// `num / den` written with no decimals, as `{:.0}` writes the quotient: a `-` for a
/// negative quotient, then the rounded magnitude.
pub open spec fn fmt_rounded(num: int, den: nat) -> Seq<char> {
    if num < 0 {
        seq!['-'] + decimal_digits(round_half_even((-num) as nat, den))
    } else {
        decimal_digits(round_half_even(num as nat, den))
    }
}

pub(crate) fn push_rounded(out: &mut String, num: i32, den: u64)
    requires
        den > 0,
    ensures
        final(out)@ == old(out)@ + fmt_rounded(num as int, den as nat),
{
    if num < 0 {
        push_char(out, '-');
        let mag: u64 = if num == i32::MIN {
            2147483648u64
        } else {
            (-num) as u64
        };
        push_decimal_u64(out, round_half_even_exec(mag, den));
        assert(out@ =~= old(out)@ + fmt_rounded(num as int, den as nat));
    } else {
        push_decimal_u64(out, round_half_even_exec(num as u64, den));
    }
}

/// `parts` joined with `, `.
pub open spec fn join_comma(parts: Seq<Seq<char>>) -> Seq<char>
    decreases parts.len(),
{
    if parts.len() == 0 {
        Seq::empty()
    } else if parts.len() == 1 {
        parts[0]
    } else {
        join_comma(parts.drop_last()) + seq![',', ' '] + parts.last()
    }
}

/// The CSS text of each stop whose color resolves: `{color} {position in %}%`.
pub open spec fn stop_texts(ctx: RenderCtx, stops: Seq<GradientStop>) -> Seq<Seq<char>>
    decreases stops.len(),
{
    if stops.len() == 0 {
        Seq::empty()
    } else {
        let rest = stop_texts(ctx, stops.drop_last());
        let s = stops.last();
        match spec_color_to_css(ctx, s.color) {
            Some(c) => rest.push(c + seq![' '] + fmt_rounded(s.position as int, 1000) + seq!['%']),
            None => rest,
        }
    }
}

/// CSS for a gradient with the given joined stops.
pub open spec fn gradient_css(t: GradientType, angle: int, stops: Seq<char>) -> Seq<char> {
    match t {
        GradientType::Linear => "background: linear-gradient("@ + fmt_rounded(angle, 60000)
            + "deg, "@ + stops + seq![')'],
        GradientType::Radial => "background: radial-gradient(circle, "@ + stops + seq![')'],
        GradientType::Rectangular => "background: radial-gradient(ellipse, "@ + stops + seq![')'],
        GradientType::Shape => "background: radial-gradient(closest-side, "@ + stops + seq![')'],
    }
}

/// CSS for an image background with the given URL.
pub open spec fn image_css(url: Seq<char>) -> Seq<char> {
    "background-image: url("@ + url
        + "); background-size: cover; background-position: center; background-repeat: no-repeat"@
}

/// The media type of an image: its content type, or PNG when none is recorded.
pub open spec fn image_mime(content_type: Seq<char>) -> Seq<char> {
    if content_type.len() == 0 {
        "image/png"@
    } else {
        content_type
    }
}

/// The media type of an image fill.
pub open spec fn fill_mime(fill: Fill) -> Seq<char> {
    match fill {
        Fill::Image(img) => image_mime(img.content_type@),
        _ => Seq::empty(),
    }
}

/// The fill registers an exported image when rendered in `ctx`.
pub open spec fn exports_image(fill: Fill, ctx: RenderCtx) -> bool {
    fill matches Fill::Image(img) && img.data@.len() > 0 && !ctx.embed_images
}

/// The CSS declaration of a fill; `asset_path` is the path an exported image receives.
pub open spec fn spec_fill_to_css(fill: Fill, ctx: RenderCtx, asset_path: Seq<char>) -> Seq<char> {
    match fill {
        Fill::Solid(sf) => match spec_color_to_css(ctx, sf.color) {
            Some(c) => "background-color: "@ + c,
            None => Seq::empty(),
        },
        Fill::Gradient(gf) => {
            let parts = stop_texts(ctx, gf.stops@);
            if parts.len() == 0 {
                Seq::empty()
            } else {
                gradient_css(gf.gradient_type, gf.angle as int, join_comma(parts))
            }
        },
        Fill::Image(img) => if img.data@.len() > 0 {
            if ctx.embed_images {
                image_css(spec_data_url(image_mime(img.content_type@), img.data@))
            } else {
                image_css(asset_path)
            }
        } else {
            Seq::empty()
        },
        _ => Seq::empty(),
    }
}

/// What rendering a fill may need of the collector and the image data.
pub open spec fn fill_css_ready(fill: Fill, coll: RenderCollector) -> bool {
    fill matches Fill::Image(img) ==> base64_encodable(img.data@.len())
        && coll.current_slide_index < usize::MAX && coll.asset_counter < usize::MAX
}

/// The path that an exported image of the fill receives from `coll`.
pub open spec fn next_asset_path(fill: Fill, coll: RenderCollector) -> Seq<char> {
    match fill {
        Fill::Image(img) => spec_asset_path(
            (coll.current_slide_index + 1) as nat,
            "background"@,
            coll.asset_counter as nat,
            image_mime(img.content_type@),
        ),
        _ => Seq::empty(),
    }
}

/// The collector after rendering the fill: an exported image is registered, nothing else
/// changes.
pub open spec fn fill_css_collector(
    fill: Fill,
    ctx: RenderCtx,
    old_coll: RenderCollector,
    new_coll: RenderCollector,
) -> bool {
    &&& new_coll.gradient_counter == old_coll.gradient_counter
    &&& new_coll.marker_counter == old_coll.marker_counter
    &&& new_coll.current_slide_index == old_coll.current_slide_index
    &&& new_coll.font_resolution_entries@ == old_coll.font_resolution_entries@
    &&& new_coll.provenance_entries@ == old_coll.provenance_entries@
    &&& new_coll.counter == old_coll.counter
    &&& new_coll.elements@ == old_coll.elements@
    &&& if exports_image(fill, ctx) {
        &&& new_coll.asset_counter == old_coll.asset_counter + 1
        &&& new_coll.external_assets@.drop_last() == old_coll.external_assets@
        &&& new_coll.external_assets@.len() == old_coll.external_assets@.len() + 1
        &&& new_coll.external_assets@.last().relative_path@ == next_asset_path(fill, old_coll)
        &&& new_coll.external_assets@.last().data@ == (match fill {
            Fill::Image(img) => img.data@,
            _ => Seq::empty(),
        })
        &&& new_coll.external_assets@.last().content_type@ == fill_mime(fill)
    } else {
        &&& new_coll.asset_counter == old_coll.asset_counter
        &&& new_coll.external_assets@ == old_coll.external_assets@
    }
}

impl HtmlRenderer {
    /// Convert a fill to a CSS declaration (theme-aware): a background color, a linear or
    /// radial gradient of the stops whose colors resolve, or a background image (embedded
    /// as a `data:` URL or exported next to the HTML). Unset and transparent fills give
    /// no CSS.
    pub fn fill_to_css(fill: &Fill, ctx: &RenderCtx<'_>, coll: &mut RenderCollector) -> (r: String)
        requires
            fill_css_ready(*fill, *old(coll)),
        ensures
            r@ == spec_fill_to_css(*fill, *ctx, next_asset_path(*fill, *old(coll))),
            fill_css_collector(*fill, *ctx, *old(coll), *final(coll)),
    {
        match fill {
            Fill::Solid(sf) => {
                match ctx.color_to_css(&sf.color) {
                    Some(color_css) => {
                        let mut s = String::new();
                        push_str(&mut s, "background-color: ");
                        push_str(&mut s, color_css.as_str());
                        s
                    },
                    None => String::new(),
                }
            },
            Fill::Gradient(gf) => {
                let mut stops_buf = String::new();
                let mut has_stops = false;
                let n = gf.stops.len();
                for i in 0..n
                    invariant
                        n == gf.stops@.len(),
                        has_stops == (stop_texts(*ctx, gf.stops@.take(i as int)).len() > 0),
                        stops_buf@ == join_comma(stop_texts(*ctx, gf.stops@.take(i as int))),
                {
                    let s = &gf.stops[i];
                    proof {
                        assert(gf.stops@.take(i + 1).drop_last() == gf.stops@.take(i as int));
                        assert(gf.stops@.take(i + 1).last() == gf.stops@[i as int]);
                    }
                    match ctx.color_to_css(&s.color) {
                        Some(c) => {
                            let ghost prev = stops_buf@;
                            if has_stops {
                                push_char(&mut stops_buf, ',');
                                push_char(&mut stops_buf, ' ');
                            }
                            push_str(&mut stops_buf, c.as_str());
                            push_char(&mut stops_buf, ' ');
                            push_rounded(&mut stops_buf, s.position, 1000);
                            push_char(&mut stops_buf, '%');
                            proof {
                                let parts = stop_texts(*ctx, gf.stops@.take(i + 1));
                                let item = c@ + seq![' '] + fmt_rounded(s.position as int, 1000)
                                    + seq!['%'];
                                if has_stops {
                                    assert(parts.drop_last() == stop_texts(
                                        *ctx,
                                        gf.stops@.take(i as int),
                                    ));
                                    assert(stops_buf@ =~= prev + seq![',', ' '] + item);
                                } else {
                                    assert(parts =~= seq![item]);
                                    assert(stops_buf@ =~= item);
                                }
                            }
                            has_stops = true;
                        },
                        None => {},
                    }
                }
                proof {
                    assert(gf.stops@.take(n as int) == gf.stops@);
                }
                if !has_stops {
                    return String::new();
                }
                let mut out = String::new();
                match gf.gradient_type {
                    GradientType::Linear => {
                        push_str(&mut out, "background: linear-gradient(");
                        push_rounded(&mut out, gf.angle, 60000);
                        push_str(&mut out, "deg, ");
                    },
                    GradientType::Radial => {
                        push_str(&mut out, "background: radial-gradient(circle, ");
                    },
                    GradientType::Rectangular => {
                        push_str(&mut out, "background: radial-gradient(ellipse, ");
                    },
                    GradientType::Shape => {
                        push_str(&mut out, "background: radial-gradient(closest-side, ");
                    },
                }
                push_str(&mut out, stops_buf.as_str());
                push_char(&mut out, ')');
                proof {
                    assert(out@ =~= gradient_css(gf.gradient_type, gf.angle as int, stops_buf@));
                }
                out
            },
            Fill::Image(img_fill) => {
                if img_fill.data.len() == 0 {
                    return String::new();
                }
                let mime: &str = if img_fill.content_type.as_str().is_empty() {
                    "image/png"
                } else {
                    img_fill.content_type.as_str()
                };
                let url = if ctx.embed_images {
                    data_url(mime, img_fill.data.as_slice())
                } else {
                    coll.register_external_asset("background", mime, img_fill.data.as_slice())
                };
                let mut s = String::new();
                push_str(&mut s, "background-image: url(");
                push_str(&mut s, url.as_str());
                push_str(
                    &mut s,
                    "); background-size: cover; background-position: center; background-repeat: no-repeat",
                );
                proof {
                    assert(s@ =~= image_css(url@));
                }
                s
            },
            _ => String::new(),
        }
    }

    /// Append the CSS declaration of a fill to a style buffer, after a `"; "` separator
    /// when the buffer already holds declarations; nothing is appended for a fill without
    /// CSS.
    pub fn fill_to_css_buf(
        fill: &Fill,
        ctx: &RenderCtx<'_>,
        coll: &mut RenderCollector,
        buf: &mut String,
    )
        requires
            fill_css_ready(*fill, *old(coll)),
        ensures
            ({
                let css = spec_fill_to_css(*fill, *ctx, next_asset_path(*fill, *old(coll)));
                final(buf)@ == if css.len() == 0 {
                    old(buf)@
                } else if old(buf)@.len() == 0 {
                    css
                } else {
                    old(buf)@ + seq![';', ' '] + css
                }
            }),
            fill_css_collector(*fill, *ctx, *old(coll), *final(coll)),
    {
        let css = Self::fill_to_css(fill, ctx, coll);
        if !css.as_str().is_empty() {
            push_sep(buf);
            push_str(buf, css.as_str());
        }
    }
}

} // verus!
