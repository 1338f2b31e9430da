//! A whole shape: its positioned `<div>`, then by kind a table, the visible children of
//! a group, the markup drawn for a chart, an unresolved-element placeholder, or its
//! geometry, picture and text body; and the children of a group in turn.
use vstd::prelude::*;
use vstd::seq_lib::lemma_concat_associative;

use crate::model::color::{spec_resolve, ResolvedColor};
use crate::model::hierarchy::{FmtScheme, FontScheme, SlideMaster, Theme};
use crate::model::shape::{
    GroupData, ListStyle, Position, Shape, ShapeEffects, ShapeType, Size, TextMargins,
};
use crate::renderer::group::spec_child_frame_at;
use crate::renderer::context::{
    base64_encodable, elements_view, spec_asset_path, RenderCollector, RenderCtx, UnresolvedRecord,
};
use crate::renderer::fill_css::{exports_image, fill_css_ready, fill_mime, image_mime, HtmlRenderer};
use crate::renderer::paragraph::hex_of;
use crate::geometry::CustomGeomPathSvg;
use crate::renderer::shape_svg::{
    lemma_custom_svg_same_fill, spec_custom_svg, spec_marker_count, spec_shape_svg, SvgGeometry,
};
use crate::renderer::shape::{
    chart_mime, chart_ready, exports_preview, spec_chart_fallback_html, elements_numbered, picture_ready, picture_src_at, shape_border, shape_fill, shape_frame, spec_box,
    spec_connector_needs_swap, spec_effective_rotation, spec_effective_shape_type,
    spec_inherited_geometry_source, spec_picture_img, spec_record, spec_shape_style, spec_svg_preset_name,
    spec_unsupported_html, spec_uses_svg, EffectiveGeometry,
};
use crate::renderer::table::{
    added_entries, asset_path_at, asset_views, fill_data, lemma_rows_entries_unique, rows_entries_ok, lemma_rows_assets_len, rows_assets, rows_exported, rows_ready,
    spec_table_html,
};
use crate::provenance::{provenance_view, ProvenanceRecord};
use crate::renderer::text_body::{
    autofit_font_scale, lemma_styled_entries_unique, styled_paragraphs_entries_ok, lemma_shape_entry_view, shape_entry, shape_entry_ok, spec_text_body_html, styled_bullets_fit, text_fits_estimate,
};
use crate::renderer::text_style::{deref, spec_text_auto_fit, TextStyleCtx};
use crate::text_metrics::{fonts_view, lemma_fonts_view_joined, FontResolutionEntry};
use crate::resolver::inheritance::{
    opt, resolve_border_with_theme, resolve_position, resolve_shape_fill_with_theme,
    spec_resolve_position,
};
use crate::resolver::placeholder::{spec_text_style_source, TextStyleSource};
use crate::resolver::style_ref::spec_font_ref_name;
use crate::strings::push_str;

verus! {

/// What the library takes as given when it renders a shape: the end points (EMU) of a
/// connector attached to other shapes, the effects the shape's effect reference selects
/// from the theme, the markup of a chart drawn directly from its series (empty when it
/// is not, and the chart's preview or placeholder is rendered), the insets (EMU) of a custom geometry's
/// text rectangle, for a group the drawings of its children, what is drawn in floating
/// point of a preset or custom geometry's SVG (its path data for a preset, none when the
/// preset has no path; its gradient vector and arrowheads for both), and the paths drawn
/// for a custom geometry.
pub struct ShapeDrawing<'a> {
    pub anchor: Option<(i64, i64, i64, i64)>,
    pub theme_effects: Option<&'a ShapeEffects>,
    pub markup: &'a str,
    pub text_insets: TextMargins,
    pub children: Vec<ShapeDrawing<'a>>,
    pub svg: Option<SvgGeometry<'a>>,
    pub custom_paths: Vec<CustomGeomPathSvg>,
}

/// The width and height (EMU) of a shape's box: between the end points of an attached
/// connector, else its frame; exchanged for a turned connector.
pub open spec fn spec_box_dims(
    pos: Position,
    size: Size,
    anchor: Option<(i64, i64, i64, i64)>,
    rotation: int,
    preset: Option<Seq<char>>,
) -> (int, int) {
    let (x, y, w0, h0) = spec_box(pos, size, anchor);
    if spec_connector_needs_swap(preset, rotation) {
        (h0, w0)
    } else {
        (w0, h0)
    }
}

/// The list styles a shape's text inherits from: its own, its layout and master
/// placeholders', the first master's text style for its placeholder type, and the
/// presentation's default text style.
pub open spec fn spec_text_ctx<'a>(
    shape: &'a Shape,
    layout_match: Option<&'a Shape>,
    master_match: Option<&'a Shape>,
    first_master: Option<&'a SlideMaster>,
    default_text_style: Option<&'a ListStyle>,
) -> TextStyleCtx<'a> {
    TextStyleCtx {
        slide_list_style: own_list_style(Some(shape)),
        layout_list_style: own_list_style(layout_match),
        master_placeholder_list_style: own_list_style(master_match),
        master_list_style: match first_master {
            Some(m) => match spec_text_style_source(
                match shape.placeholder {
                    Some(ph) => ph.ph_type,
                    None => None,
                },
            ) {
                TextStyleSource::TitleStyle => opt_ref(&m.tx_styles.title_style),
                TextStyleSource::BodyStyle => opt_ref(&m.tx_styles.body_style),
                TextStyleSource::OtherStyle => opt_ref(&m.tx_styles.other_style),
            },
            None => None,
        },
        default_list_style: default_text_style,
    }
}

/// The list style of a shape's text body.
pub open spec fn own_list_style<'a>(s: Option<&'a Shape>) -> Option<&'a ListStyle> {
    match s {
        Some(shape) => match &shape.text_body {
            Some(tb) => opt_ref(&tb.list_style),
            None => None,
        },
        None => None,
    }
}

/// A reference to the value in an option.
pub open spec fn opt_ref<'a, T>(o: &'a Option<T>) -> Option<&'a T> {
    match o {
        Some(x) => Some(x),
        None => None,
    }
}

/// The shape's font reference applies: it has one, and the theme, color scheme and
/// color map are there and name the font.
pub open spec fn font_ref_applies(shape: Shape, theme: Option<Theme>, ctx: RenderCtx) -> bool {
    &&& shape.style_ref matches Some(sr) && sr.font_ref is Some
    &&& theme is Some
    &&& ctx.scheme is Some
    &&& ctx.clr_map is Some
    &&& spec_font_ref_name(shape.style_ref.unwrap().font_ref.unwrap(), theme.unwrap().font_scheme) is Some
}

/// The typeface a shape's font reference selects.
pub open spec fn font_ref_font_of(shape: Shape, theme: Option<Theme>, ctx: RenderCtx) -> Option<Seq<char>> {
    if font_ref_applies(shape, theme, ctx) {
        spec_font_ref_name(shape.style_ref.unwrap().font_ref.unwrap(), theme.unwrap().font_scheme)
    } else {
        None
    }
}

/// The color (hex digits) a shape's font reference gives, when it sets one that resolves.
pub open spec fn font_ref_color_of(shape: Shape, theme: Option<Theme>, ctx: RenderCtx) -> Option<
    Seq<char>,
> {
    if font_ref_applies(shape, theme, ctx) {
        let c = shape.style_ref.unwrap().font_ref.unwrap().color;
        if c.kind is Unset {
            None
        } else {
            spec_resolve(c, opt(ctx.scheme), opt(ctx.clr_map))
        }
    } else {
        None
    }
}

/// The font scheme of the primary theme.
pub open spec fn font_scheme_of<'a>(theme: Option<&'a Theme>) -> Option<&'a FontScheme> {
    match theme {
        Some(t) => Some(&t.font_scheme),
        None => None,
    }
}

/// The format scheme of the primary theme.
pub open spec fn fmt_scheme_of(theme: Option<Theme>) -> Option<FmtScheme> {
    match theme {
        Some(t) => Some(t.fmt_scheme),
        None => None,
    }
}

impl HtmlRenderer {
    /// The width and height of a shape's box (see `spec_box_dims`).
    pub fn box_dims(
        pos: &Position,
        size: &Size,
        anchor: Option<(i64, i64, i64, i64)>,
        geometry: &EffectiveGeometry<'_>,
        preset: Option<&str>,
    ) -> (r: (i128, i128))
        ensures
            (r.0 as int, r.1 as int) == spec_box_dims(
                *pos,
                *size,
                anchor,
                geometry.rotation as int,
                crate::renderer::run::opt_str_view(preset),
            ),
            -0x1_0000_0000_0000_0000 <= r.0 <= 0x1_0000_0000_0000_0000,
            -0x1_0000_0000_0000_0000 <= r.1 <= 0x1_0000_0000_0000_0000,
    {
        let (w0, h0): (i128, i128) = match anchor {
            Some((x1, y1, x2, y2)) => (
                if x1 <= x2 {
                    x2 as i128 - x1 as i128
                } else {
                    x1 as i128 - x2 as i128
                },
                if y1 <= y2 {
                    y2 as i128 - y1 as i128
                } else {
                    y1 as i128 - y2 as i128
                },
            ),
            None => (size.width.0 as i128, size.height.0 as i128),
        };
        if Self::connector_needs_swap(preset, geometry.rotation) {
            (h0, w0)
        } else {
            (w0, h0)
        }
    }
}


// ---------------------------------------------------------------------------
// Geometry, picture and text of a shape
// ---------------------------------------------------------------------------

/// The content of a shape that is not a table, group, chart or unresolved element, after
/// its geometry: its picture and its text body, then the closing tag of its `<div>`. `w` and `h` are its box (EMU); `slide` the slide
/// index and `assets` the number of images exported before it.
pub open spec fn spec_shape_content(
    shape: &Shape,
    layout_match: Option<&Shape>,
    master_match: Option<&Shape>,
    ctx: RenderCtx,
    theme: Option<&Theme>,
    first_master: Option<&SlideMaster>,
    default_text_style: Option<&ListStyle>,
    insets: TextMargins,
    w: int,
    h: int,
    slide: int,
    assets: int,
) -> Seq<char> {
    shape_picture_html(*shape, ctx, w, h, slide, assets) + shape_text_html(
        shape,
        layout_match,
        master_match,
        ctx,
        theme,
        first_master,
        default_text_style,
        insets,
        w,
    ) + "</div>\n"@
}

/// The typeface records of a shape's text: one per run that is not a break, in order (see
/// `styled_paragraphs_entries_ok`), with the text's inherited styles, font reference and
/// autofit scale; none without text.
pub open spec fn text_fonts_ok(
    entries: Seq<FontResolutionEntry>,
    shape: &Shape,
    layout_match: Option<&Shape>,
    master_match: Option<&Shape>,
    ctx: RenderCtx,
    theme: Option<&Theme>,
    first_master: Option<&SlideMaster>,
    default_text_style: Option<&ListStyle>,
    slide: int,
) -> bool {
    match shape.text_body {
        Some(tb) => styled_paragraphs_entries_ok(
            entries,
            tb.paragraphs@,
            slide + 1,
            font_scheme_of(theme),
            spec_text_ctx(shape, layout_match, master_match, first_master, default_text_style),
            font_ref_font_of(*shape, deref(theme), ctx),
            font_ref_color_of(*shape, deref(theme), ctx),
            autofit_font_scale(spec_text_auto_fit(tb, deref(layout_match), deref(master_match))),
        ),
        None => entries.len() == 0,
    }
}

/// The `<img>` of a picture shape that has bytes.
pub open spec fn shape_picture_html(shape: Shape, ctx: RenderCtx, w: int, h: int, slide: int, assets: int) -> Seq<char> {
    match shape.shape_type {
        ShapeType::Picture(pic) => if pic.data@.len() > 0 {
            spec_picture_img(pic, picture_src_at(pic, ctx, slide, assets), w, h)
        } else {
            Seq::empty()
        },
        _ => Seq::empty(),
    }
}

/// The text body of a shape, with its inherited list styles and font reference.
pub open spec fn shape_text_html(
    shape: &Shape,
    layout_match: Option<&Shape>,
    master_match: Option<&Shape>,
    ctx: RenderCtx,
    theme: Option<&Theme>,
    first_master: Option<&SlideMaster>,
    default_text_style: Option<&ListStyle>,
    insets: TextMargins,
    w: int,
) -> Seq<char> {
    match shape.text_body {
        Some(tb) => spec_text_body_html(
            *shape,
            tb,
            deref(layout_match),
            deref(master_match),
            ctx,
            font_scheme_of(theme),
            spec_text_ctx(shape, layout_match, master_match, first_master, default_text_style),
            font_ref_font_of(*shape, deref(theme), ctx),
            font_ref_color_of(*shape, deref(theme), ctx),
            w,
            insets,
        ),
        None => Seq::empty(),
    }
}

/// The shape exports its picture: it has bytes and images are not embedded.
pub open spec fn exports_picture(shape: Shape, ctx: RenderCtx) -> bool {
    shape.shape_type matches ShapeType::Picture(pic) && pic.data@.len() > 0 && !ctx.embed_images
}

/// The image a picture shape exports when rendered on slide index `slide` after `n`
/// others: its path, media type and bytes.
pub open spec fn picture_assets(shape: Shape, ctx: RenderCtx, slide: int, n: int) -> Seq<
    (Seq<char>, Seq<char>, Seq<u8>),
> {
    match shape.shape_type {
        ShapeType::Picture(pic) => if exports_picture(shape, ctx) {
            seq![(picture_src_at(pic, ctx, slide, n), image_mime(pic.content_type@), pic.data@)]
        } else {
            Seq::empty()
        },
        _ => Seq::empty(),
    }
}

/// The content of a shape can be rendered from a collector at slide index `slide` with
/// `assets` images exported: the counters have room, a picture can be encoded, and the
/// text's numbering and wrapping estimate fit their integers.
pub open spec fn content_ready(
    shape: &Shape,
    layout_match: Option<&Shape>,
    master_match: Option<&Shape>,
    first_master: Option<&SlideMaster>,
    default_text_style: Option<&ListStyle>,
    slide: int,
    assets: int,
) -> bool {
    &&& slide < usize::MAX
    &&& assets < usize::MAX
    &&& (shape.shape_type matches ShapeType::Picture(pic) ==> base64_encodable(pic.data@.len()))
    &&& (shape.text_body matches Some(tb) ==> {
        &&& styled_bullets_fit(
            tb.paragraphs@,
            spec_text_ctx(shape, layout_match, master_match, first_master, default_text_style),
        )
        &&& text_fits_estimate(tb.paragraphs@)
    })
}

impl HtmlRenderer {
    /// Renders the picture of a picture shape (see `shape_picture_html`).
    #[verifier::rlimit(50)]
    fn render_shape_picture(
        shape: &Shape,
        ctx: &RenderCtx<'_>,
        width: i128,
        height: i128,
        coll: &mut RenderCollector,
        html: &mut String,
    )
        requires
            shape.shape_type matches ShapeType::Picture(pic) ==> picture_ready(pic, *old(coll)),
            -0x1_0000_0000_0000_0000 <= width <= 0x1_0000_0000_0000_0000,
            -0x1_0000_0000_0000_0000 <= height <= 0x1_0000_0000_0000_0000,
        ensures
            final(html)@ == old(html)@ + shape_picture_html(
                *shape,
                *ctx,
                width as int,
                height as int,
                old(coll).current_slide_index as int,
                old(coll).asset_counter as int,
            ),
            final(coll).asset_counter == old(coll).asset_counter + if exports_picture(*shape, *ctx) {
                1int
            } else {
                0int
            },
            final(coll).external_assets@.len() == old(coll).external_assets@.len() + if exports_picture(
                *shape,
                *ctx,
            ) {
                1int
            } else {
                0int
            },
            final(coll).external_assets@.subrange(0, old(coll).external_assets@.len() as int)
                == old(coll).external_assets@,
            asset_views(final(coll).external_assets@) == asset_views(old(coll).external_assets@)
                + picture_assets(*shape, *ctx, old(coll).current_slide_index as int, old(coll).asset_counter as int),
            final(coll).font_resolution_entries@ == old(coll).font_resolution_entries@,
            final(coll).provenance_entries@ == old(coll).provenance_entries@,
            final(coll).current_slide_index == old(coll).current_slide_index,
            final(coll).gradient_counter == old(coll).gradient_counter,
            final(coll).marker_counter == old(coll).marker_counter,
            final(coll).counter == old(coll).counter,
            final(coll).elements@ == old(coll).elements@,
    {
        let ghost assets_before = coll.external_assets@;
        if let ShapeType::Picture(pic) = &shape.shape_type {
            Self::render_picture(pic, width, height, ctx, coll, html);
            proof {
                if pic.data@.len() > 0 && !ctx.embed_images {
                    assert(coll.external_assets@.subrange(0, assets_before.len() as int)
                        =~= coll.external_assets@.drop_last());
                    assert(coll.external_assets@ =~= assets_before.push(coll.external_assets@.last()));
                    assert(asset_views(coll.external_assets@) =~= asset_views(assets_before) + picture_assets(
                        *shape,
                        *ctx,
                        old(coll).current_slide_index as int,
                        old(coll).asset_counter as int,
                    ));
                } else {
                    assert(coll.external_assets@.subrange(0, assets_before.len() as int)
                        =~= assets_before);
                    assert(asset_views(coll.external_assets@) =~= asset_views(assets_before) + picture_assets(
                        *shape,
                        *ctx,
                        old(coll).current_slide_index as int,
                        old(coll).asset_counter as int,
                    ));
                }
            }
        } else {
            proof {
                assert(coll.external_assets@.subrange(0, assets_before.len() as int) =~= assets_before);
                assert(asset_views(coll.external_assets@) =~= asset_views(assets_before) + picture_assets(
                    *shape,
                    *ctx,
                    old(coll).current_slide_index as int,
                    old(coll).asset_counter as int,
                ));
                assert(html@ =~= old(html)@ + shape_picture_html(
                    *shape,
                    *ctx,
                    width as int,
                    height as int,
                    old(coll).current_slide_index as int,
                    old(coll).asset_counter as int,
                ));
            }
        }
    }

    /// Records the provenance of a shape and renders its text body (see
    /// `shape_text_html`).
    #[verifier::rlimit(50)]
    fn render_shape_text(
        shape: &Shape,
        layout_match: Option<&Shape>,
        master_match: Option<&Shape>,
        ctx: &RenderCtx<'_>,
        theme: Option<&Theme>,
        first_master: Option<&SlideMaster>,
        default_text_style: Option<&ListStyle>,
        insets: &TextMargins,
        width: i128,
        coll: &mut RenderCollector,
        html: &mut String,
    )
        requires
            old(coll).current_slide_index < usize::MAX,
            shape.text_body matches Some(tb) ==> {
                &&& styled_bullets_fit(
                    tb.paragraphs@,
                    spec_text_ctx(shape, layout_match, master_match, first_master, default_text_style),
                )
                &&& text_fits_estimate(tb.paragraphs@)
            },
            -0x1_0000_0000_0000_0000 <= width <= 0x1_0000_0000_0000_0000,
        ensures
            final(html)@ == old(html)@ + shape_text_html(
                shape,
                layout_match,
                master_match,
                *ctx,
                theme,
                first_master,
                default_text_style,
                *insets,
                width as int,
            ),
            final(coll).provenance_entries@.len() == old(coll).provenance_entries@.len() + 1,
            final(coll).provenance_entries@.drop_last() == old(coll).provenance_entries@,
            shape_entry_ok(
                final(coll).provenance_entries@.last(),
                *shape,
                deref(layout_match),
                deref(master_match),
                spec_text_ctx(shape, layout_match, master_match, first_master, default_text_style),
                old(coll).current_slide_index + 1,
            ),
            final(coll).asset_counter == old(coll).asset_counter,
            final(coll).external_assets@ == old(coll).external_assets@,
            old(coll).font_resolution_entries@.len() <= final(coll).font_resolution_entries@.len(),
            final(coll).font_resolution_entries@.subrange(
                0,
                old(coll).font_resolution_entries@.len() as int,
            ) == old(coll).font_resolution_entries@,
            final(coll).current_slide_index == old(coll).current_slide_index,
            final(coll).gradient_counter == old(coll).gradient_counter,
            final(coll).marker_counter == old(coll).marker_counter,
            final(coll).counter == old(coll).counter,
            final(coll).elements@ == old(coll).elements@,
            text_fonts_ok(
                added_entries(*old(coll), *final(coll)),
                shape,
                layout_match,
                master_match,
                *ctx,
                theme,
                first_master,
                default_text_style,
                old(coll).current_slide_index as int,
            ),
    {
        let text_ctx = Self::build_text_style_ctx(
            shape,
            layout_match,
            master_match,
            first_master,
            default_text_style,
        );
        proof {
            assert(text_ctx == spec_text_ctx(
                shape,
                layout_match,
                master_match,
                first_master,
                default_text_style,
            ));
        }
        Self::push_shape_provenance(shape, layout_match, master_match, &text_ctx, coll);
        let ghost c1 = *coll;
        let font_ref = Self::resolve_font_ref_font(shape, theme, ctx);
        let (font_ref_font, font_ref_color): (Option<&str>, Option<&ResolvedColor>) = match &font_ref {
            Some(fr) => (Some(fr.0.as_str()), fr.1.as_ref()),
            None => (None, None),
        };
        proof {
            assert(crate::renderer::run::opt_str_view(font_ref_font) == font_ref_font_of(
                *shape,
                deref(theme),
                *ctx,
            ));
            assert(hex_of(font_ref_color) == font_ref_color_of(*shape, deref(theme), *ctx));
        }
        let font_scheme: Option<&FontScheme> = match theme {
            Some(t) => Some(&t.font_scheme),
            None => None,
        };
        if let Some(tb) = &shape.text_body {
            Self::render_text_body(
                shape,
                tb,
                layout_match,
                master_match,
                ctx,
                font_scheme,
                coll,
                &text_ctx,
                font_ref_font,
                font_ref_color,
                width,
                insets,
                html,
            );
        } else {
            proof {
                assert(coll.font_resolution_entries@.subrange(
                    0,
                    old(coll).font_resolution_entries@.len() as int,
                ) =~= old(coll).font_resolution_entries@);
            }
        }
    }

    /// Renders the content of a shape that is not a table, group, chart or unresolved
    /// element (see `spec_shape_content`), and records the shape's provenance.
    #[verifier::rlimit(50)]
    pub fn render_shape_content(
        shape: &Shape,
        layout_match: Option<&Shape>,
        master_match: Option<&Shape>,
        ctx: &RenderCtx<'_>,
        theme: Option<&Theme>,
        first_master: Option<&SlideMaster>,
        default_text_style: Option<&ListStyle>,
        drawing: &ShapeDrawing<'_>,
        width: i128,
        height: i128,
        coll: &mut RenderCollector,
        html: &mut String,
    )
        requires
            content_ready(
                shape,
                layout_match,
                master_match,
                first_master,
                default_text_style,
                old(coll).current_slide_index as int,
                old(coll).asset_counter as int,
            ),
            -0x1_0000_0000_0000_0000 <= width <= 0x1_0000_0000_0000_0000,
            -0x1_0000_0000_0000_0000 <= height <= 0x1_0000_0000_0000_0000,
        ensures
            final(html)@ == old(html)@ + spec_shape_content(
                shape,
                layout_match,
                master_match,
                *ctx,
                theme,
                first_master,
                default_text_style,
                drawing.text_insets,
                width as int,
                height as int,
                old(coll).current_slide_index as int,
                old(coll).asset_counter as int,
            ),
            final(coll).provenance_entries@.len() == old(coll).provenance_entries@.len() + 1,
            final(coll).provenance_entries@.drop_last() == old(coll).provenance_entries@,
            shape_entry_ok(
                final(coll).provenance_entries@.last(),
                *shape,
                deref(layout_match),
                deref(master_match),
                spec_text_ctx(shape, layout_match, master_match, first_master, default_text_style),
                old(coll).current_slide_index + 1,
            ),
            final(coll).asset_counter == old(coll).asset_counter + if exports_picture(*shape, *ctx) {
                1int
            } else {
                0int
            },
            final(coll).external_assets@.len() == old(coll).external_assets@.len() + if exports_picture(
                *shape,
                *ctx,
            ) {
                1int
            } else {
                0int
            },
            final(coll).external_assets@.subrange(0, old(coll).external_assets@.len() as int)
                == old(coll).external_assets@,
            asset_views(final(coll).external_assets@) == asset_views(old(coll).external_assets@)
                + picture_assets(*shape, *ctx, old(coll).current_slide_index as int, old(coll).asset_counter as int),
            old(coll).font_resolution_entries@.len() <= final(coll).font_resolution_entries@.len(),
            final(coll).font_resolution_entries@.subrange(
                0,
                old(coll).font_resolution_entries@.len() as int,
            ) == old(coll).font_resolution_entries@,
            final(coll).current_slide_index == old(coll).current_slide_index,
            final(coll).gradient_counter == old(coll).gradient_counter,
            final(coll).marker_counter == old(coll).marker_counter,
            final(coll).counter == old(coll).counter,
            final(coll).elements@ == old(coll).elements@,
            text_fonts_ok(
                added_entries(*old(coll), *final(coll)),
                shape,
                layout_match,
                master_match,
                *ctx,
                theme,
                first_master,
                default_text_style,
                old(coll).current_slide_index as int,
            ),
    {
        let ghost o = html@;
        Self::render_shape_picture(shape, ctx, width, height, coll, html);
        let ghost after_pic = html@;
        Self::render_shape_text(
            shape,
            layout_match,
            master_match,
            ctx,
            theme,
            first_master,
            default_text_style,
            &drawing.text_insets,
            width,
            coll,
            html,
        );
        let ghost after_text = html@;
        push_str(html, "</div>\n");
        proof {
            let pic_part = shape_picture_html(
                *shape,
                *ctx,
                width as int,
                height as int,
                old(coll).current_slide_index as int,
                old(coll).asset_counter as int,
            );
            let text_part = shape_text_html(
                shape,
                layout_match,
                master_match,
                *ctx,
                theme,
                first_master,
                default_text_style,
                drawing.text_insets,
                width as int,
            );
            lemma_concat_associative(o, pic_part, text_part);
            lemma_concat_associative(o, pic_part + text_part, "</div>\n"@);
        }
    }
}


// ---------------------------------------------------------------------------
// A whole shape
// ---------------------------------------------------------------------------

/// The number of images exported once a shape's style is rendered: one more when a shape
/// not drawn as SVG exports its image fill.
pub open spec fn assets_after_style(
    shape: &Shape,
    layout_match: Option<&Shape>,
    master_match: Option<&Shape>,
    ctx: RenderCtx,
    theme: Option<&Theme>,
    coll: RenderCollector,
) -> int {
    let src = spec_inherited_geometry_source(*shape, deref(layout_match), deref(master_match));
    let fill = shape_fill(*shape, deref(layout_match), deref(master_match), ctx, fmt_scheme_of(deref(theme)));
    coll.asset_counter + if !spec_uses_svg(spec_effective_shape_type(*shape, src)) && exports_image(
        fill,
        ctx,
    ) {
        1int
    } else {
        0int
    }
}

/// The box (EMU) a shape is drawn in.
pub open spec fn shape_box_dims(
    shape: &Shape,
    layout_match: Option<&Shape>,
    master_match: Option<&Shape>,
    frame: Option<(Position, Size)>,
    anchor: Option<(i64, i64, i64, i64)>,
) -> (int, int) {
    let (pos, size) = shape_frame(*shape, deref(layout_match), deref(master_match), frame);
    let src = spec_inherited_geometry_source(*shape, deref(layout_match), deref(master_match));
    spec_box_dims(
        pos,
        size,
        anchor,
        spec_effective_rotation(*shape, src) as int,
        spec_svg_preset_name(spec_effective_shape_type(*shape, src)),
    )
}

/// The collector once a shape's style is rendered: its image fill exported when it is on
/// the shape's box.
pub open spec fn style_counters(
    shape: &Shape,
    layout_match: Option<&Shape>,
    master_match: Option<&Shape>,
    ctx: RenderCtx,
    theme: Option<&Theme>,
    c: RenderCollector,
) -> RenderCollector {
    RenderCollector {
        asset_counter: assets_after_style(shape, layout_match, master_match, ctx, theme, c) as usize,
        ..c
    }
}

/// The frame a group lays its children out in: the frame it is drawn in as a group
/// child, else its own position and size.
pub open spec fn group_frame(shape: Shape, frame: Option<(Position, Size)>) -> (Position, Size) {
    match frame {
        Some(f) => f,
        None => spec_resolve_position(shape, None, None),
    }
}

/// What a shape's `<div>` holds, then its closing tag, rendered from collector `c`: its
/// table, its group's visible children, the markup drawn for a chart, the placeholder of
/// an unresolved element, or its content.
pub open spec fn spec_shape_body(
    shape: &Shape,
    layout_match: Option<&Shape>,
    master_match: Option<&Shape>,
    frame: Option<(Position, Size)>,
    ctx: RenderCtx,
    theme: Option<&Theme>,
    first_master: Option<&SlideMaster>,
    default_text_style: Option<&ListStyle>,
    drawing: ShapeDrawing,
    c: RenderCollector,
) -> Seq<char>
    decreases *shape, 1int,
{
    let src = spec_inherited_geometry_source(*shape, deref(layout_match), deref(master_match));
    let (w, h) = shape_box_dims(shape, layout_match, master_match, frame, drawing.anchor);
    let slide = c.current_slide_index as int;
    match shape.shape_type {
        ShapeType::Table(t) => spec_table_html(t, ctx, font_scheme_of(theme), slide, c.asset_counter as int)
            + "</div>\n"@,
        ShapeType::Group(children, g) => spec_group_from(
            children@,
            group_frame(*shape, frame),
            g,
            ctx,
            theme,
            first_master,
            default_text_style,
            drawing.children@,
            0,
            c,
        ) + "</div>\n"@,
        ShapeType::Chart(ch) => if drawing.markup@.len() > 0 {
            drawing.markup@
        } else {
            spec_chart_fallback_html(ch, ctx, slide, c.asset_counter as int) + "</div>\n"@
        },
        ShapeType::Unsupported(d) => spec_unsupported_html(d, slide as nat, c.counter as nat)
            + "</div>\n"@,
        _ => spec_geometry_part(shape, layout_match, master_match, frame, ctx, theme, drawing, c)
            + spec_shape_content(
            shape,
            layout_match,
            master_match,
            ctx,
            theme,
            first_master,
            default_text_style,
            drawing.text_insets,
            w,
            h,
            slide,
            c.asset_counter as int,
        ),
    }
}

/// HTML of a shape: a `<div class="shape">` with its style, holding what its body holds.
pub open spec fn spec_shape_html(
    shape: &Shape,
    layout_match: Option<&Shape>,
    master_match: Option<&Shape>,
    frame: Option<(Position, Size)>,
    ctx: RenderCtx,
    theme: Option<&Theme>,
    first_master: Option<&SlideMaster>,
    default_text_style: Option<&ListStyle>,
    drawing: ShapeDrawing,
    coll: RenderCollector,
) -> Seq<char>
    decreases *shape, 2int,
{
    "<div class=\"shape\" style=\""@ + spec_shape_style(
        *shape,
        deref(layout_match),
        deref(master_match),
        frame,
        ctx,
        fmt_scheme_of(deref(theme)),
        drawing.anchor,
        deref(drawing.theme_effects),
        coll,
    ) + "\">\n"@ + spec_shape_body(
        shape,
        layout_match,
        master_match,
        frame,
        ctx,
        theme,
        first_master,
        default_text_style,
        drawing,
        style_counters(shape, layout_match, master_match, ctx, theme, coll),
    )
}

/// HTML of the children of a group laid out in `pframe`, from child `i` on, rendered from
/// collector `c`: each visible child in its frame within the group, without
/// placeholders, with the drawing at its index.
pub open spec fn spec_group_from(
    children: Seq<Shape>,
    pframe: (Position, Size),
    g: GroupData,
    ctx: RenderCtx,
    theme: Option<&Theme>,
    first_master: Option<&SlideMaster>,
    default_text_style: Option<&ListStyle>,
    drawings: Seq<ShapeDrawing>,
    i: int,
    c: RenderCollector,
) -> Seq<char>
    decreases children, children.len() - i,
{
    if i < 0 || i >= children.len() {
        Seq::empty()
    } else if children[i].hidden {
        spec_group_from(children, pframe, g, ctx, theme, first_master, default_text_style, drawings, i + 1, c)
    } else {
        spec_shape_html(
            &children[i],
            None,
            None,
            Some(spec_child_frame_at(children[i], pframe.0, pframe.1, g)),
            ctx,
            theme,
            first_master,
            default_text_style,
            drawings[i],
            c,
        ) + spec_group_from(
            children,
            pframe,
            g,
            ctx,
            theme,
            first_master,
            default_text_style,
            drawings,
            i + 1,
            after_shape(&children[i], None, None, ctx, theme, drawings[i], c),
        )
    }
}

/// The collector counters after a shape's body is rendered from `c`.
pub open spec fn after_body(
    shape: &Shape,
    layout_match: Option<&Shape>,
    master_match: Option<&Shape>,
    ctx: RenderCtx,
    theme: Option<&Theme>,
    drawing: ShapeDrawing,
    c: RenderCollector,
) -> RenderCollector
    decreases *shape, 1int,
{
    match shape.shape_type {
        ShapeType::Table(t) => RenderCollector {
            asset_counter: (c.asset_counter + rows_exported(t.rows@, ctx)) as usize,
            ..c
        },
        ShapeType::Group(children, _) => group_counters_from(children@, ctx, theme, drawing.children@, 0, c),
        ShapeType::Chart(ch) => RenderCollector {
            asset_counter: (c.asset_counter + if drawing.markup@.len() == 0 && exports_preview(ch, ctx) {
                1int
            } else {
                0int
            }) as usize,
            ..c
        },
        ShapeType::Unsupported(_) => RenderCollector { counter: (c.counter + 1) as usize, ..c },
        _ => RenderCollector {
            asset_counter: (c.asset_counter + if exports_picture(*shape, ctx) {
                1int
            } else {
                0int
            }) as usize,
            gradient_counter: (c.gradient_counter + if draws_svg(shape, layout_match, master_match, drawing) {
                1int
            } else {
                0int
            }) as usize,
            marker_counter: (c.marker_counter + if draws_svg(shape, layout_match, master_match, drawing) {
                spec_marker_count(
                    shape_border(*shape, deref(layout_match), deref(master_match), ctx, fmt_scheme_of(deref(theme))),
                ) as int
            } else {
                0int
            }) as usize,
            ..c
        },
    }
}

/// The shape is drawn as SVG: it has a preset geometry whose path was drawn, or a custom
/// geometry with drawn paths.
pub open spec fn draws_svg(
    shape: &Shape,
    layout_match: Option<&Shape>,
    master_match: Option<&Shape>,
    drawing: ShapeDrawing,
) -> bool {
    let t = spec_effective_shape_type(
        *shape,
        spec_inherited_geometry_source(*shape, deref(layout_match), deref(master_match)),
    );
    &&& drawing.svg is Some
    &&& (spec_svg_preset_name(t) is Some || (t is CustomGeom && drawing.custom_paths@.len() > 0))
}

/// The format scheme of the primary theme, by reference.
pub open spec fn fmt_ref_of<'a>(theme: Option<&'a Theme>) -> Option<&'a FmtScheme> {
    match theme {
        Some(t) => Some(&t.fmt_scheme),
        None => None,
    }
}

/// The geometry of a shape's content: the SVG of its preset geometry when its path was
/// drawn, the SVG of its custom geometry's drawn paths, else nothing.
#[verifier::opaque]
pub open spec fn spec_geometry_part(
    shape: &Shape,
    layout_match: Option<&Shape>,
    master_match: Option<&Shape>,
    frame: Option<(Position, Size)>,
    ctx: RenderCtx,
    theme: Option<&Theme>,
    drawing: ShapeDrawing,
    c: RenderCollector,
) -> Seq<char> {
    let t = spec_effective_shape_type(
        *shape,
        spec_inherited_geometry_source(*shape, deref(layout_match), deref(master_match)),
    );
    if spec_svg_preset_name(t) is Some {
        match drawing.svg {
            Some(g) => spec_shape_svg(
                shape,
                layout_match,
                master_match,
                frame,
                ctx,
                fmt_ref_of(theme),
                drawing.anchor,
                g,
                c.gradient_counter as nat,
                c.marker_counter as nat,
            ),
            None => Seq::empty(),
        }
    } else if t is CustomGeom {
        match drawing.svg {
            Some(g) => {
                let (w, h) = shape_box_dims(shape, layout_match, master_match, frame, drawing.anchor);
                spec_custom_svg(
                    *shape,
                    shape_fill(*shape, deref(layout_match), deref(master_match), ctx, fmt_scheme_of(deref(theme))),
                    shape_border(*shape, deref(layout_match), deref(master_match), ctx, fmt_scheme_of(deref(theme))),
                    ctx,
                    g,
                    drawing.custom_paths@,
                    w,
                    h,
                    c.gradient_counter as nat,
                    c.marker_counter as nat,
                )
            },
            None => Seq::empty(),
        }
    } else {
        Seq::empty()
    }
}

/// The collector counters after a shape is rendered from `c`: the images it exported and
/// the unresolved elements it met, its group's children's included.
pub open spec fn after_shape(
    shape: &Shape,
    layout_match: Option<&Shape>,
    master_match: Option<&Shape>,
    ctx: RenderCtx,
    theme: Option<&Theme>,
    drawing: ShapeDrawing,
    c: RenderCollector,
) -> RenderCollector
    decreases *shape, 2int,
{
    after_body(
        shape,
        layout_match,
        master_match,
        ctx,
        theme,
        drawing,
        style_counters(shape, layout_match, master_match, ctx, theme, c),
    )
}

/// The collector counters after the visible children of a group from child `i` on.
pub open spec fn group_counters_from(
    children: Seq<Shape>,
    ctx: RenderCtx,
    theme: Option<&Theme>,
    drawings: Seq<ShapeDrawing>,
    i: int,
    c: RenderCollector,
) -> RenderCollector
    decreases children, children.len() - i,
{
    if i < 0 || i >= children.len() {
        c
    } else if children[i].hidden {
        group_counters_from(children, ctx, theme, drawings, i + 1, c)
    } else {
        group_counters_from(
            children,
            ctx,
            theme,
            drawings,
            i + 1,
            after_shape(&children[i], None, None, ctx, theme, drawings[i], c),
        )
    }
}

/// The unresolved elements a shape records when it is rendered on slide index `slide`
/// after `n` others: its own record when it is one (in its resolved frame), else those of
/// its group's visible children in order, else none.
pub open spec fn shape_records(
    shape: &Shape,
    layout_match: Option<&Shape>,
    master_match: Option<&Shape>,
    frame: Option<(Position, Size)>,
    drawing: ShapeDrawing,
    slide: nat,
    n: nat,
) -> Seq<UnresolvedRecord>
    decreases *shape, 1int,
{
    match shape.shape_type {
        ShapeType::Group(children, g) => group_records_from(
            children@,
            group_frame(*shape, frame),
            g,
            drawing.children@,
            0,
            slide,
            n,
        ),
        ShapeType::Unsupported(d) => {
            let (pos, size) = shape_frame(*shape, deref(layout_match), deref(master_match), frame);
            seq![spec_record(d, pos, size, slide, n)]
        },
        _ => Seq::empty(),
    }
}

/// The unresolved elements the visible children of a group laid out in `pframe` record,
/// from child `i` on, after `n` others.
pub open spec fn group_records_from(
    children: Seq<Shape>,
    pframe: (Position, Size),
    g: GroupData,
    drawings: Seq<ShapeDrawing>,
    i: int,
    slide: nat,
    n: nat,
) -> Seq<UnresolvedRecord>
    decreases children, children.len() - i,
{
    if i < 0 || i >= children.len() {
        Seq::empty()
    } else if children[i].hidden {
        group_records_from(children, pframe, g, drawings, i + 1, slide, n)
    } else {
        let r = shape_records(
            &children[i],
            None,
            None,
            Some(spec_child_frame_at(children[i], pframe.0, pframe.1, g)),
            drawings[i],
            slide,
            n,
        );
        r + group_records_from(children, pframe, g, drawings, i + 1, slide, n + r.len())
    }
}

/// The image a shape's style exports when rendered on slide index `slide` after `n`
/// others: its image fill, when the shape is not drawn as SVG and the image is exported.
pub open spec fn style_assets(
    shape: &Shape,
    layout_match: Option<&Shape>,
    master_match: Option<&Shape>,
    ctx: RenderCtx,
    theme: Option<&Theme>,
    slide: int,
    n: int,
) -> Seq<(Seq<char>, Seq<char>, Seq<u8>)> {
    let src = spec_inherited_geometry_source(*shape, deref(layout_match), deref(master_match));
    let fill = shape_fill(*shape, deref(layout_match), deref(master_match), ctx, fmt_scheme_of(deref(theme)));
    if !spec_uses_svg(spec_effective_shape_type(*shape, src)) && exports_image(fill, ctx) {
        seq![(asset_path_at(fill, slide, n), fill_mime(fill), fill_data(fill))]
    } else {
        Seq::empty()
    }
}

/// The images a shape's body exports when rendered on slide index `slide` after `n`
/// others: its table's cell images, its group's children's images, its chart's preview,
/// or its picture.
pub open spec fn body_assets(
    shape: &Shape,
    ctx: RenderCtx,
    theme: Option<&Theme>,
    drawing: ShapeDrawing,
    slide: int,
    n: int,
) -> Seq<(Seq<char>, Seq<char>, Seq<u8>)>
    decreases *shape, 1int,
{
    match shape.shape_type {
        ShapeType::Table(t) => rows_assets(t.rows@, ctx, slide, n),
        ShapeType::Group(children, _) => group_assets_from(children@, ctx, theme, drawing.children@, 0, slide, n),
        ShapeType::Chart(ch) => if drawing.markup@.len() == 0 && exports_preview(ch, ctx) {
            seq![
                (
                    spec_asset_path((slide + 1) as nat, "chart"@, n as nat, chart_mime(ch)),
                    chart_mime(ch),
                    ch.preview_image.unwrap()@,
                ),
            ]
        } else {
            Seq::empty()
        },
        ShapeType::Unsupported(_) => Seq::empty(),
        _ => picture_assets(*shape, ctx, slide, n),
    }
}

/// The images a shape exports when rendered on slide index `slide` after `n` others: its
/// style's, then its body's.
pub open spec fn shape_assets(
    shape: &Shape,
    layout_match: Option<&Shape>,
    master_match: Option<&Shape>,
    ctx: RenderCtx,
    theme: Option<&Theme>,
    drawing: ShapeDrawing,
    slide: int,
    n: int,
) -> Seq<(Seq<char>, Seq<char>, Seq<u8>)>
    decreases *shape, 2int,
{
    let st = style_assets(shape, layout_match, master_match, ctx, theme, slide, n);
    st + body_assets(shape, ctx, theme, drawing, slide, n + st.len())
}

/// The images the visible children of a group export, from child `i` on, after `n`
/// others.
pub open spec fn group_assets_from(
    children: Seq<Shape>,
    ctx: RenderCtx,
    theme: Option<&Theme>,
    drawings: Seq<ShapeDrawing>,
    i: int,
    slide: int,
    n: int,
) -> Seq<(Seq<char>, Seq<char>, Seq<u8>)>
    decreases children, children.len() - i,
{
    if i < 0 || i >= children.len() {
        Seq::empty()
    } else if children[i].hidden {
        group_assets_from(children, ctx, theme, drawings, i + 1, slide, n)
    } else {
        let a = shape_assets(&children[i], None, None, ctx, theme, drawings[i], slide, n);
        a + group_assets_from(children, ctx, theme, drawings, i + 1, slide, n + a.len())
    }
}

/// The typeface records a shape adds when rendered on slide index `slide`: its table's
/// (see `rows_entries_ok`), its group's visible children's in order, none for a chart or
/// an unresolved element, else its text's.
pub open spec fn shape_fonts_ok(
    entries: Seq<FontResolutionEntry>,
    shape: &Shape,
    layout_match: Option<&Shape>,
    master_match: Option<&Shape>,
    ctx: RenderCtx,
    theme: Option<&Theme>,
    first_master: Option<&SlideMaster>,
    default_text_style: Option<&ListStyle>,
    slide: int,
) -> bool
    decreases *shape, 1int,
{
    match shape.shape_type {
        ShapeType::Table(t) => rows_entries_ok(entries, t.rows@, slide + 1, font_scheme_of(theme)),
        ShapeType::Group(children, _) => group_fonts_upto(
            entries,
            children@,
            ctx,
            theme,
            first_master,
            default_text_style,
            children@.len() as int,
            slide,
        ),
        ShapeType::Chart(_) => entries.len() == 0,
        ShapeType::Unsupported(_) => entries.len() == 0,
        _ => text_fonts_ok(
            entries,
            shape,
            layout_match,
            master_match,
            ctx,
            theme,
            first_master,
            default_text_style,
            slide,
        ),
    }
}

/// The typeface records the visible children of a group before child `i` add, in order:
/// the records split into those of the children before the last of them and those of
/// that child.
pub open spec fn group_fonts_upto(
    entries: Seq<FontResolutionEntry>,
    children: Seq<Shape>,
    ctx: RenderCtx,
    theme: Option<&Theme>,
    first_master: Option<&SlideMaster>,
    default_text_style: Option<&ListStyle>,
    i: int,
    slide: int,
) -> bool
    decreases children, i,
{
    if i <= 0 || i > children.len() {
        entries.len() == 0
    } else if children[i - 1].hidden {
        group_fonts_upto(entries, children, ctx, theme, first_master, default_text_style, i - 1, slide)
    } else {
        exists|k: int|
            0 <= k <= entries.len() && group_fonts_upto(
                #[trigger] entries.subrange(0, k),
                children,
                ctx,
                theme,
                first_master,
                default_text_style,
                i - 1,
                slide,
            ) && shape_fonts_ok(
                entries.subrange(k, entries.len() as int),
                &children[i - 1],
                None,
                None,
                ctx,
                theme,
                first_master,
                default_text_style,
                slide,
            )
    }
}

/// The typeface records a shape adds are determined by the shape.
pub(crate) proof fn lemma_shape_fonts_unique(
    a: Seq<FontResolutionEntry>,
    b: Seq<FontResolutionEntry>,
    shape: &Shape,
    layout_match: Option<&Shape>,
    master_match: Option<&Shape>,
    ctx: RenderCtx,
    theme: Option<&Theme>,
    first_master: Option<&SlideMaster>,
    default_text_style: Option<&ListStyle>,
    slide: int,
)
    requires
        shape_fonts_ok(a, shape, layout_match, master_match, ctx, theme, first_master, default_text_style, slide),
        shape_fonts_ok(b, shape, layout_match, master_match, ctx, theme, first_master, default_text_style, slide),
    ensures
        fonts_view(a) == fonts_view(b),
    decreases *shape, 1int,
{
    match shape.shape_type {
        ShapeType::Table(t) => {
            lemma_rows_entries_unique(a, b, t.rows@, slide + 1, font_scheme_of(theme));
        },
        ShapeType::Group(children, _) => {
            lemma_group_fonts_unique(
                a,
                b,
                children@,
                ctx,
                theme,
                first_master,
                default_text_style,
                children@.len() as int,
                slide,
            );
        },
        ShapeType::Chart(_) => {
            assert(fonts_view(a) =~= fonts_view(b));
        },
        ShapeType::Unsupported(_) => {
            assert(fonts_view(a) =~= fonts_view(b));
        },
        _ => {
            match shape.text_body {
                Some(tb) => {
                    lemma_styled_entries_unique(
                        a,
                        b,
                        tb.paragraphs@,
                        slide + 1,
                        font_scheme_of(theme),
                        spec_text_ctx(shape, layout_match, master_match, first_master, default_text_style),
                        font_ref_font_of(*shape, deref(theme), ctx),
                        font_ref_color_of(*shape, deref(theme), ctx),
                        autofit_font_scale(spec_text_auto_fit(tb, deref(layout_match), deref(master_match))),
                    );
                },
                None => {
                    assert(fonts_view(a) =~= fonts_view(b));
                },
            }
        },
    }
}

/// The typeface records the visible children of a group before child `i` add are
/// determined by the children.
pub(crate) proof fn lemma_group_fonts_unique(
    a: Seq<FontResolutionEntry>,
    b: Seq<FontResolutionEntry>,
    children: Seq<Shape>,
    ctx: RenderCtx,
    theme: Option<&Theme>,
    first_master: Option<&SlideMaster>,
    default_text_style: Option<&ListStyle>,
    i: int,
    slide: int,
)
    requires
        group_fonts_upto(a, children, ctx, theme, first_master, default_text_style, i, slide),
        group_fonts_upto(b, children, ctx, theme, first_master, default_text_style, i, slide),
    ensures
        fonts_view(a) == fonts_view(b),
    decreases children, i,
{
    if i <= 0 || i > children.len() {
        assert(fonts_view(a) =~= fonts_view(b));
    } else if children[i - 1].hidden {
        lemma_group_fonts_unique(a, b, children, ctx, theme, first_master, default_text_style, i - 1, slide);
    } else {
        let ka = choose|k: int|
            0 <= k <= a.len() && group_fonts_upto(
                #[trigger] a.subrange(0, k),
                children,
                ctx,
                theme,
                first_master,
                default_text_style,
                i - 1,
                slide,
            ) && shape_fonts_ok(
                a.subrange(k, a.len() as int),
                &children[i - 1],
                None,
                None,
                ctx,
                theme,
                first_master,
                default_text_style,
                slide,
            );
        let kb = choose|k: int|
            0 <= k <= b.len() && group_fonts_upto(
                #[trigger] b.subrange(0, k),
                children,
                ctx,
                theme,
                first_master,
                default_text_style,
                i - 1,
                slide,
            ) && shape_fonts_ok(
                b.subrange(k, b.len() as int),
                &children[i - 1],
                None,
                None,
                ctx,
                theme,
                first_master,
                default_text_style,
                slide,
            );
        lemma_group_fonts_unique(
            a.subrange(0, ka),
            b.subrange(0, kb),
            children,
            ctx,
            theme,
            first_master,
            default_text_style,
            i - 1,
            slide,
        );
        lemma_shape_fonts_unique(
            a.subrange(ka, a.len() as int),
            b.subrange(kb, b.len() as int),
            &children[i - 1],
            None,
            None,
            ctx,
            theme,
            first_master,
            default_text_style,
            slide,
        );
        lemma_fonts_view_joined(a, b, ka, kb);
    }
}

/// The provenance records a shape adds when it is rendered on slide index `slide`: its
/// own when it is rendered through its content, else those of its group's visible
/// children in order, else none.
pub open spec fn shape_provenance(
    shape: &Shape,
    layout_match: Option<&Shape>,
    master_match: Option<&Shape>,
    first_master: Option<&SlideMaster>,
    default_text_style: Option<&ListStyle>,
    slide: nat,
) -> Seq<ProvenanceRecord>
    decreases *shape, 1int,
{
    match shape.shape_type {
        ShapeType::Group(children, _) => group_provenance_from(children@, first_master, default_text_style, 0, slide),
        _ => if renders_content(shape.shape_type) {
            seq![
                shape_entry(
                    *shape,
                    deref(layout_match),
                    deref(master_match),
                    spec_text_ctx(shape, layout_match, master_match, first_master, default_text_style),
                    slide + 1,
                ),
            ]
        } else {
            Seq::empty()
        },
    }
}

/// The provenance records the visible children of a group add, from child `i` on.
pub open spec fn group_provenance_from(
    children: Seq<Shape>,
    first_master: Option<&SlideMaster>,
    default_text_style: Option<&ListStyle>,
    i: int,
    slide: nat,
) -> Seq<ProvenanceRecord>
    decreases children, children.len() - i,
{
    if i < 0 || i >= children.len() {
        Seq::empty()
    } else if children[i].hidden {
        group_provenance_from(children, first_master, default_text_style, i + 1, slide)
    } else {
        shape_provenance(&children[i], None, None, first_master, default_text_style, slide)
            + group_provenance_from(children, first_master, default_text_style, i + 1, slide)
    }
}

/// A shape's body can be rendered from `c`: its table, its group's children, its
/// unresolved-element counter or its content fit the collector's counters and the
/// integers of its text.
pub open spec fn body_ready(
    shape: &Shape,
    layout_match: Option<&Shape>,
    master_match: Option<&Shape>,
    ctx: RenderCtx,
    theme: Option<&Theme>,
    first_master: Option<&SlideMaster>,
    default_text_style: Option<&ListStyle>,
    drawing: ShapeDrawing,
    c: RenderCollector,
) -> bool
    decreases *shape, 1int,
{
    let slide = c.current_slide_index as int;
    match shape.shape_type {
        ShapeType::Table(t) => {
            &&& rows_ready(t.rows@)
            &&& slide < usize::MAX
            &&& c.asset_counter + rows_exported(t.rows@, ctx) < usize::MAX
        },
        ShapeType::Group(children, _) => {
            &&& drawing.children@.len() == children@.len()
            &&& group_ready_from(
                children@,
                ctx,
                theme,
                first_master,
                default_text_style,
                drawing.children@,
                0,
                c,
            )
        },
        ShapeType::Chart(ch) => drawing.markup@.len() == 0 ==> chart_ready(ch, slide, c.asset_counter as int),
        ShapeType::Unsupported(_) => c.counter < usize::MAX,
        _ => {
            &&& content_ready(
                shape,
                layout_match,
                master_match,
                first_master,
                default_text_style,
                slide,
                c.asset_counter as int,
            )
            &&& (draws_svg(shape, layout_match, master_match, drawing) ==> {
                &&& c.gradient_counter < usize::MAX
                &&& c.marker_counter + 2 <= usize::MAX
            })
        },
    }
}

/// A shape can be rendered from `coll`: its fill (when on its box) and then its body.
pub open spec fn shape_ready(
    shape: &Shape,
    layout_match: Option<&Shape>,
    master_match: Option<&Shape>,
    ctx: RenderCtx,
    theme: Option<&Theme>,
    first_master: Option<&SlideMaster>,
    default_text_style: Option<&ListStyle>,
    drawing: ShapeDrawing,
    coll: RenderCollector,
) -> bool
    decreases *shape, 2int,
{
    let src = spec_inherited_geometry_source(*shape, deref(layout_match), deref(master_match));
    &&& (!spec_uses_svg(spec_effective_shape_type(*shape, src)) ==> fill_css_ready(
        shape_fill(*shape, deref(layout_match), deref(master_match), ctx, fmt_scheme_of(deref(theme))),
        coll,
    ))
    &&& body_ready(
        shape,
        layout_match,
        master_match,
        ctx,
        theme,
        first_master,
        default_text_style,
        drawing,
        style_counters(shape, layout_match, master_match, ctx, theme, coll),
    )
}

/// The visible children of a group from child `i` on can be rendered in turn.
pub open spec fn group_ready_from(
    children: Seq<Shape>,
    ctx: RenderCtx,
    theme: Option<&Theme>,
    first_master: Option<&SlideMaster>,
    default_text_style: Option<&ListStyle>,
    drawings: Seq<ShapeDrawing>,
    i: int,
    c: RenderCollector,
) -> bool
    decreases children, children.len() - i,
{
    if i < 0 || i >= children.len() {
        true
    } else if children[i].hidden {
        group_ready_from(children, ctx, theme, first_master, default_text_style, drawings, i + 1, c)
    } else {
        &&& shape_ready(&children[i], None, None, ctx, theme, first_master, default_text_style, drawings[i], c)
        &&& group_ready_from(
            children,
            ctx,
            theme,
            first_master,
            default_text_style,
            drawings,
            i + 1,
            after_shape(&children[i], None, None, ctx, theme, drawings[i], c),
        )
    }
}

/// The shape is rendered through its content (not a table, group, chart or unresolved
/// element).
pub open spec fn renders_content(t: ShapeType) -> bool {
    !(t is Table || t is Group || t is Chart || t is Unsupported)
}

/// Two collectors at the same slide with the same element and asset counters.
pub open spec fn same_counters(a: RenderCollector, b: RenderCollector) -> bool {
    &&& a.current_slide_index == b.current_slide_index
    &&& a.counter == b.counter
    &&& a.asset_counter == b.asset_counter
    &&& a.gradient_counter == b.gradient_counter
    &&& a.marker_counter == b.marker_counter
}


// ---------------------------------------------------------------------------
// Rendering depends on the collector's counters alone
// ---------------------------------------------------------------------------

/// A shape renders alike, needs the same and counts alike from collectors with the same
/// counters.
pub(crate) proof fn lemma_shape_congruent(
    shape: &Shape,
    layout_match: Option<&Shape>,
    master_match: Option<&Shape>,
    frame: Option<(Position, Size)>,
    ctx: RenderCtx,
    theme: Option<&Theme>,
    first_master: Option<&SlideMaster>,
    default_text_style: Option<&ListStyle>,
    drawing: ShapeDrawing,
    a: RenderCollector,
    b: RenderCollector,
)
    requires
        same_counters(a, b),
    ensures
        spec_shape_html(shape, layout_match, master_match, frame, ctx, theme, first_master, default_text_style, drawing, a)
            == spec_shape_html(shape, layout_match, master_match, frame, ctx, theme, first_master, default_text_style, drawing, b),
        shape_ready(shape, layout_match, master_match, ctx, theme, first_master, default_text_style, drawing, a)
            == shape_ready(shape, layout_match, master_match, ctx, theme, first_master, default_text_style, drawing, b),
        same_counters(
            after_shape(shape, layout_match, master_match, ctx, theme, drawing, a),
            after_shape(shape, layout_match, master_match, ctx, theme, drawing, b),
        ),
    decreases *shape, 2int,
{
    reveal(spec_shape_style);
    let sa = style_counters(shape, layout_match, master_match, ctx, theme, a);
    let sb = style_counters(shape, layout_match, master_match, ctx, theme, b);
    lemma_body_congruent(
        shape,
        layout_match,
        master_match,
        frame,
        ctx,
        theme,
        first_master,
        default_text_style,
        drawing,
        sa,
        sb,
    );
}

proof fn lemma_body_congruent(
    shape: &Shape,
    layout_match: Option<&Shape>,
    master_match: Option<&Shape>,
    frame: Option<(Position, Size)>,
    ctx: RenderCtx,
    theme: Option<&Theme>,
    first_master: Option<&SlideMaster>,
    default_text_style: Option<&ListStyle>,
    drawing: ShapeDrawing,
    a: RenderCollector,
    b: RenderCollector,
)
    requires
        same_counters(a, b),
    ensures
        spec_shape_body(shape, layout_match, master_match, frame, ctx, theme, first_master, default_text_style, drawing, a)
            == spec_shape_body(shape, layout_match, master_match, frame, ctx, theme, first_master, default_text_style, drawing, b),
        body_ready(shape, layout_match, master_match, ctx, theme, first_master, default_text_style, drawing, a)
            == body_ready(shape, layout_match, master_match, ctx, theme, first_master, default_text_style, drawing, b),
        same_counters(
            after_body(shape, layout_match, master_match, ctx, theme, drawing, a),
            after_body(shape, layout_match, master_match, ctx, theme, drawing, b),
        ),
    decreases *shape, 1int,
{
    reveal(spec_geometry_part);
    if let ShapeType::Group(children, g) = shape.shape_type {
        lemma_group_congruent(
            children@,
            group_frame(*shape, frame),
            g,
            ctx,
            theme,
            first_master,
            default_text_style,
            drawing.children@,
            0,
            a,
            b,
        );
    }
}

proof fn lemma_group_congruent(
    children: Seq<Shape>,
    pframe: (Position, Size),
    g: GroupData,
    ctx: RenderCtx,
    theme: Option<&Theme>,
    first_master: Option<&SlideMaster>,
    default_text_style: Option<&ListStyle>,
    drawings: Seq<ShapeDrawing>,
    i: int,
    a: RenderCollector,
    b: RenderCollector,
)
    requires
        same_counters(a, b),
    ensures
        spec_group_from(children, pframe, g, ctx, theme, first_master, default_text_style, drawings, i, a)
            == spec_group_from(children, pframe, g, ctx, theme, first_master, default_text_style, drawings, i, b),
        group_ready_from(children, ctx, theme, first_master, default_text_style, drawings, i, a)
            == group_ready_from(children, ctx, theme, first_master, default_text_style, drawings, i, b),
        same_counters(
            group_counters_from(children, ctx, theme, drawings, i, a),
            group_counters_from(children, ctx, theme, drawings, i, b),
        ),
    decreases children, children.len() - i,
{
    if 0 <= i < children.len() {
        if children[i].hidden {
            lemma_group_congruent(children, pframe, g, ctx, theme, first_master, default_text_style, drawings, i + 1, a, b);
        } else {
            lemma_shape_congruent(
                &children[i],
                None,
                None,
                Some(spec_child_frame_at(children[i], pframe.0, pframe.1, g)),
                ctx,
                theme,
                first_master,
                default_text_style,
                drawings[i],
                a,
                b,
            );
            lemma_group_congruent(
                children,
                pframe,
                g,
                ctx,
                theme,
                first_master,
                default_text_style,
                drawings,
                i + 1,
                after_shape(&children[i], None, None, ctx, theme, drawings[i], a),
                after_shape(&children[i], None, None, ctx, theme, drawings[i], b),
            );
        }
    }
}


// ---------------------------------------------------------------------------
// Rendering shapes
// ---------------------------------------------------------------------------

impl HtmlRenderer {
    /// Renders a shape: a `<div class="shape">` positioned and styled by `shape_style`,
    /// holding by the shape's own kind its table, its group's visible children (see
    /// `render_group`), the markup drawn outside for a chart, the placeholder of an
    /// unresolved element, or else its content: the markup drawn for an SVG geometry, its
    /// picture and its text body (see `spec_shape_html`). `frame` replaces the position
    /// and size of a group child; `theme` is the primary theme; `first_master` and
    /// `default_text_style` give text its master and presentation defaults. The collector
    /// records exported images, unresolved elements, typefaces and provenance.
    #[verifier::rlimit(50)]
    pub fn render_shape_resolved(
        shape: &Shape,
        layout_match: Option<&Shape>,
        master_match: Option<&Shape>,
        frame: Option<(Position, Size)>,
        ctx: &RenderCtx<'_>,
        theme: Option<&Theme>,
        first_master: Option<&SlideMaster>,
        default_text_style: Option<&ListStyle>,
        drawing: &ShapeDrawing<'_>,
        coll: &mut RenderCollector,
        html: &mut String,
    )
        requires
            shape_ready(
                shape,
                layout_match,
                master_match,
                *ctx,
                theme,
                first_master,
                default_text_style,
                *drawing,
                *old(coll),
            ),
        ensures
            final(html)@ == old(html)@ + spec_shape_html(
                shape,
                layout_match,
                master_match,
                frame,
                *ctx,
                theme,
                first_master,
                default_text_style,
                *drawing,
                *old(coll),
            ),
            same_counters(
                *final(coll),
                after_shape(shape, layout_match, master_match, *ctx, theme, *drawing, *old(coll)),
            ),
            collector_grows(*old(coll), *final(coll)),
            elements_view(final(coll).elements@) == elements_view(old(coll).elements@) + shape_records(
                shape,
                layout_match,
                master_match,
                frame,
                *drawing,
                old(coll).current_slide_index as nat,
                old(coll).counter as nat,
            ),
            asset_views(final(coll).external_assets@) == asset_views(old(coll).external_assets@) + shape_assets(
                shape,
                layout_match,
                master_match,
                *ctx,
                theme,
                *drawing,
                old(coll).current_slide_index as int,
                old(coll).asset_counter as int,
            ),
            shape_fonts_ok(
                added_entries(*old(coll), *final(coll)),
                shape,
                layout_match,
                master_match,
                *ctx,
                theme,
                first_master,
                default_text_style,
                old(coll).current_slide_index as int,
            ),
            provenance_view(final(coll).provenance_entries@) == provenance_view(old(coll).provenance_entries@)
                + shape_provenance(
                shape,
                layout_match,
                master_match,
                first_master,
                default_text_style,
                old(coll).current_slide_index as nat,
            ),
            renders_content(shape.shape_type) ==> {
                &&& final(coll).provenance_entries@.len() == old(coll).provenance_entries@.len() + 1
                &&& shape_entry_ok(
                    final(coll).provenance_entries@.last(),
                    *shape,
                    deref(layout_match),
                    deref(master_match),
                    spec_text_ctx(shape, layout_match, master_match, first_master, default_text_style),
                    old(coll).current_slide_index + 1,
                )
            },
            !renders_content(shape.shape_type) && !(shape.shape_type is Group)
                ==> final(coll).provenance_entries@ == old(coll).provenance_entries@,
        decreases *shape, 2int,
    {
        let fmt_scheme: Option<&FmtScheme> = match theme {
            Some(t) => Some(&t.fmt_scheme),
            None => None,
        };
        let ghost c0 = *old(coll);
        let ghost o = html@;
        let style = Self::shape_style(
            shape,
            layout_match,
            master_match,
            frame,
            ctx,
            fmt_scheme,
            drawing.anchor,
            drawing.theme_effects,
            coll,
        );
        push_str(html, "<div class=\"shape\" style=\"");
        push_str(html, style.as_str());
        push_str(html, "\">\n");
        proof {
            assert(same_counters(*coll, style_counters(shape, layout_match, master_match, *ctx, theme, c0)));
            lemma_body_congruent(
                shape,
                layout_match,
                master_match,
                frame,
                *ctx,
                theme,
                first_master,
                default_text_style,
                *drawing,
                *coll,
                style_counters(shape, layout_match, master_match, *ctx, theme, c0),
            );
            lemma_collector_grows_by_assets(c0, *coll);
        }
        let ghost c1 = *coll;
        Self::render_shape_body(
            shape,
            layout_match,
            master_match,
            frame,
            ctx,
            theme,
            first_master,
            default_text_style,
            drawing,
            coll,
            html,
        );
        proof {
            lemma_collector_grows_trans(c0, c1, *coll);
            let st = style_assets(
                shape,
                layout_match,
                master_match,
                *ctx,
                theme,
                c0.current_slide_index as int,
                c0.asset_counter as int,
            );
            if st.len() > 0 {
                assert(c1.external_assets@ =~= c0.external_assets@.push(c1.external_assets@.last()));
            }
            assert(asset_views(c1.external_assets@) =~= asset_views(c0.external_assets@) + st);
            lemma_concat_associative(
                asset_views(c0.external_assets@),
                st,
                body_assets(shape, *ctx, theme, *drawing, c0.current_slide_index as int, c1.asset_counter as int),
            );
            assert(html@ =~= o + spec_shape_html(
                shape,
                layout_match,
                master_match,
                frame,
                *ctx,
                theme,
                first_master,
                default_text_style,
                *drawing,
                c0,
            ));
        }
    }

    /// Renders what a shape's `<div>` holds, then its closing tag (see
    /// `spec_shape_body`).
    #[verifier::rlimit(60)]
    fn render_shape_body(
        shape: &Shape,
        layout_match: Option<&Shape>,
        master_match: Option<&Shape>,
        frame: Option<(Position, Size)>,
        ctx: &RenderCtx<'_>,
        theme: Option<&Theme>,
        first_master: Option<&SlideMaster>,
        default_text_style: Option<&ListStyle>,
        drawing: &ShapeDrawing<'_>,
        coll: &mut RenderCollector,
        html: &mut String,
    )
        requires
            body_ready(
                shape,
                layout_match,
                master_match,
                *ctx,
                theme,
                first_master,
                default_text_style,
                *drawing,
                *old(coll),
            ),
        ensures
            final(html)@ == old(html)@ + spec_shape_body(
                shape,
                layout_match,
                master_match,
                frame,
                *ctx,
                theme,
                first_master,
                default_text_style,
                *drawing,
                *old(coll),
            ),
            same_counters(
                *final(coll),
                after_body(shape, layout_match, master_match, *ctx, theme, *drawing, *old(coll)),
            ),
            collector_grows(*old(coll), *final(coll)),
            elements_view(final(coll).elements@) == elements_view(old(coll).elements@) + shape_records(
                shape,
                layout_match,
                master_match,
                frame,
                *drawing,
                old(coll).current_slide_index as nat,
                old(coll).counter as nat,
            ),
            asset_views(final(coll).external_assets@) == asset_views(old(coll).external_assets@) + body_assets(
                shape,
                *ctx,
                theme,
                *drawing,
                old(coll).current_slide_index as int,
                old(coll).asset_counter as int,
            ),
            shape_fonts_ok(
                added_entries(*old(coll), *final(coll)),
                shape,
                layout_match,
                master_match,
                *ctx,
                theme,
                first_master,
                default_text_style,
                old(coll).current_slide_index as int,
            ),
            provenance_view(final(coll).provenance_entries@) == provenance_view(old(coll).provenance_entries@)
                + shape_provenance(
                shape,
                layout_match,
                master_match,
                first_master,
                default_text_style,
                old(coll).current_slide_index as nat,
            ),
            renders_content(shape.shape_type) ==> {
                &&& final(coll).provenance_entries@.len() == old(coll).provenance_entries@.len() + 1
                &&& shape_entry_ok(
                    final(coll).provenance_entries@.last(),
                    *shape,
                    deref(layout_match),
                    deref(master_match),
                    spec_text_ctx(shape, layout_match, master_match, first_master, default_text_style),
                    old(coll).current_slide_index + 1,
                )
            },
            !renders_content(shape.shape_type) && !(shape.shape_type is Group)
                ==> final(coll).provenance_entries@ == old(coll).provenance_entries@,
        decreases *shape, 1int,
    {
        let font_scheme: Option<&FontScheme> = match theme {
            Some(t) => Some(&t.font_scheme),
            None => None,
        };
        let ghost c0 = *old(coll);
        match &shape.shape_type {
            ShapeType::Table(t) => {
                Self::render_table(t, ctx, font_scheme, coll, html);
                push_str(html, "</div>\n");
                proof {
                    lemma_rows_assets_len(t.rows@, *ctx, c0.current_slide_index as int, c0.asset_counter as int);
                    assert(asset_views(coll.external_assets@).len() == coll.external_assets@.len());
                    assert(asset_views(c0.external_assets@).len() == c0.external_assets@.len());
                    assert(coll.provenance_entries@.subrange(0, c0.provenance_entries@.len() as int)
                        =~= c0.provenance_entries@);
                }
            },
            ShapeType::Group(children, g) => {
                let pframe = match frame {
                    Some(f) => f,
                    None => resolve_position(shape, None, None),
                };
                Self::render_group(
                    children.as_slice(),
                    &pframe,
                    g,
                    ctx,
                    theme,
                    first_master,
                    default_text_style,
                    drawing.children.as_slice(),
                    coll,
                    html,
                );
                push_str(html, "</div>\n");
            },
            ShapeType::Chart(ch) => {
                if drawing.markup.is_empty() {
                    Self::render_chart_fallback(ch, ctx, coll, html);
                    push_str(html, "</div>\n");
                } else {
                    push_str(html, drawing.markup);
                }
                proof {
                    if drawing.markup@.len() == 0 && exports_preview(*ch, *ctx) {
                        assert(coll.external_assets@ =~= c0.external_assets@.push(coll.external_assets@.last()));
                    }
                    assert(asset_views(coll.external_assets@) =~= asset_views(c0.external_assets@) + body_assets(
                        shape,
                        *ctx,
                        theme,
                        *drawing,
                        c0.current_slide_index as int,
                        c0.asset_counter as int,
                    ));
                    assert(coll.provenance_entries@.subrange(0, c0.provenance_entries@.len() as int)
                        =~= c0.provenance_entries@);
                    assert(coll.font_resolution_entries@.subrange(0, c0.font_resolution_entries@.len() as int)
                        =~= c0.font_resolution_entries@);
                }
            },
            ShapeType::Unsupported(d) => {
                let (pos, size) = match frame {
                    Some(f) => f,
                    None => resolve_position(shape, layout_match, master_match),
                };
                Self::render_unsupported(d, &pos, &size, coll, html);
                push_str(html, "</div>\n");
                proof {
                    assert(asset_views(coll.external_assets@) =~= asset_views(c0.external_assets@) + Seq::<
                        (Seq<char>, Seq<char>, Seq<u8>),
                    >::empty());
                    assert(coll.provenance_entries@.subrange(0, c0.provenance_entries@.len() as int)
                        =~= c0.provenance_entries@);
                    assert(coll.font_resolution_entries@.subrange(0, c0.font_resolution_entries@.len() as int)
                        =~= c0.font_resolution_entries@);
                }
            },
            _ => {
                let (pos, size) = match frame {
                    Some(f) => f,
                    None => resolve_position(shape, layout_match, master_match),
                };
                let geometry = Self::effective_geometry(shape, layout_match, master_match);
                let preset = Self::svg_preset_name(geometry.shape_type);
                let (width, height) = Self::box_dims(&pos, &size, drawing.anchor, &geometry, preset);
                let ghost before_geometry = html@;
                let ghost cg = *coll;
                Self::render_shape_geometry(
                    shape,
                    layout_match,
                    master_match,
                    frame,
                    ctx,
                    theme,
                    drawing,
                    coll,
                    html,
                );
                let ghost c1 = *coll;
                let ghost after_geometry = html@;
                Self::render_shape_content(
                    shape,
                    layout_match,
                    master_match,
                    ctx,
                    theme,
                    first_master,
                    default_text_style,
                    drawing,
                    width,
                    height,
                    coll,
                    html,
                );
                proof {
                    assert(coll.provenance_entries@.subrange(0, c0.provenance_entries@.len() as int)
                        =~= coll.provenance_entries@.drop_last());
                    let geo = after_geometry.subrange(before_geometry.len() as int, after_geometry.len() as int);
                    let rest = html@.subrange(after_geometry.len() as int, html@.len() as int);
                    assert(after_geometry =~= before_geometry + geo);
                    assert(html@ =~= after_geometry + rest);
                    lemma_concat_associative(before_geometry, geo, rest);
                    let last = coll.provenance_entries@.last();
                    assert(coll.provenance_entries@ =~= c0.provenance_entries@.push(last));
                    lemma_shape_entry_view(
                        last,
                        *shape,
                        deref(layout_match),
                        deref(master_match),
                        spec_text_ctx(shape, layout_match, master_match, first_master, default_text_style),
                        c0.current_slide_index + 1,
                    );
                    assert(provenance_view(coll.provenance_entries@) =~= provenance_view(c0.provenance_entries@)
                        + seq![last@]);
                }
            },
        }
    }

    /// Renders the children of a group laid out in `pframe` (the group's frame), in
    /// order: each visible child, without placeholders, in its frame within the group
    /// (see `group_child_frame_at`), with the drawing at its index in `drawings`.
    #[verifier::rlimit(50)]
    pub fn render_group(
        children: &[Shape],
        pframe: &(Position, Size),
        group: &GroupData,
        ctx: &RenderCtx<'_>,
        theme: Option<&Theme>,
        first_master: Option<&SlideMaster>,
        default_text_style: Option<&ListStyle>,
        drawings: &[ShapeDrawing<'_>],
        coll: &mut RenderCollector,
        html: &mut String,
    )
        requires
            drawings@.len() == children@.len(),
            group_ready_from(children@, *ctx, theme, first_master, default_text_style, drawings@, 0, *old(coll)),
        ensures
            final(html)@ == old(html)@ + spec_group_from(
                children@,
                *pframe,
                *group,
                *ctx,
                theme,
                first_master,
                default_text_style,
                drawings@,
                0,
                *old(coll),
            ),
            same_counters(*final(coll), group_counters_from(children@, *ctx, theme, drawings@, 0, *old(coll))),
            collector_grows(*old(coll), *final(coll)),
            elements_view(final(coll).elements@) == elements_view(old(coll).elements@) + group_records_from(
                children@,
                *pframe,
                *group,
                drawings@,
                0,
                old(coll).current_slide_index as nat,
                old(coll).counter as nat,
            ),
            asset_views(final(coll).external_assets@) == asset_views(old(coll).external_assets@)
                + group_assets_from(
                children@,
                *ctx,
                theme,
                drawings@,
                0,
                old(coll).current_slide_index as int,
                old(coll).asset_counter as int,
            ),
            group_fonts_upto(
                added_entries(*old(coll), *final(coll)),
                children@,
                *ctx,
                theme,
                first_master,
                default_text_style,
                children@.len() as int,
                old(coll).current_slide_index as int,
            ),
            provenance_view(final(coll).provenance_entries@) == provenance_view(old(coll).provenance_entries@)
                + group_provenance_from(
                children@,
                first_master,
                default_text_style,
                0,
                old(coll).current_slide_index as nat,
            ),
        decreases children@,
    {
        let ghost c0 = *old(coll);
        let ghost all = spec_group_from(
            children@,
            *pframe,
            *group,
            *ctx,
            theme,
            first_master,
            default_text_style,
            drawings@,
            0,
            c0,
        );
        proof {
            lemma_collector_grows_by_assets(c0, c0);
        }
        let mut i: usize = 0;
        while i < children.len()
            invariant
                i <= children@.len(),
                drawings@.len() == children@.len(),
                c0 == *old(coll),
                all == spec_group_from(
                    children@,
                    *pframe,
                    *group,
                    *ctx,
                    theme,
                    first_master,
                    default_text_style,
                    drawings@,
                    0,
                    c0,
                ),
                html@ + spec_group_from(
                    children@,
                    *pframe,
                    *group,
                    *ctx,
                    theme,
                    first_master,
                    default_text_style,
                    drawings@,
                    i as int,
                    *coll,
                ) == old(html)@ + all,
                group_ready_from(children@, *ctx, theme, first_master, default_text_style, drawings@, i as int, *coll),
                same_counters(
                    group_counters_from(children@, *ctx, theme, drawings@, i as int, *coll),
                    group_counters_from(children@, *ctx, theme, drawings@, 0, c0),
                ),
                collector_grows(c0, *coll),
                elements_view(coll.elements@) + group_records_from(
                    children@,
                    *pframe,
                    *group,
                    drawings@,
                    i as int,
                    c0.current_slide_index as nat,
                    coll.counter as nat,
                ) == elements_view(c0.elements@) + group_records_from(
                    children@,
                    *pframe,
                    *group,
                    drawings@,
                    0,
                    c0.current_slide_index as nat,
                    c0.counter as nat,
                ),
                provenance_view(coll.provenance_entries@) + group_provenance_from(
                    children@,
                    first_master,
                    default_text_style,
                    i as int,
                    c0.current_slide_index as nat,
                ) == provenance_view(c0.provenance_entries@) + group_provenance_from(
                    children@,
                    first_master,
                    default_text_style,
                    0,
                    c0.current_slide_index as nat,
                ),
                group_fonts_upto(
                    added_entries(c0, *coll),
                    children@,
                    *ctx,
                    theme,
                    first_master,
                    default_text_style,
                    i as int,
                    c0.current_slide_index as int,
                ),
                asset_views(coll.external_assets@) + group_assets_from(
                    children@,
                    *ctx,
                    theme,
                    drawings@,
                    i as int,
                    c0.current_slide_index as int,
                    coll.asset_counter as int,
                ) == asset_views(c0.external_assets@) + group_assets_from(
                    children@,
                    *ctx,
                    theme,
                    drawings@,
                    0,
                    c0.current_slide_index as int,
                    c0.asset_counter as int,
                ),
            decreases children@.len() - i,
        {
            let child = &children[i];
            let ghost before = *coll;
            let ghost before_html = html@;
            if !child.hidden {
                let frame = Self::group_child_frame_at(child, &pframe.0, &pframe.1, group);
                proof {
                    assert(*child == children@[i as int]);
                }
                Self::render_shape_resolved(
                    child,
                    None,
                    None,
                    Some(frame),
                    ctx,
                    theme,
                    first_master,
                    default_text_style,
                    &drawings[i],
                    coll,
                    html,
                );
                proof {
                    let after = after_shape(child, None, None, *ctx, theme, drawings@[i as int], before);
                    lemma_group_congruent(
                        children@,
                        *pframe,
                        *group,
                        *ctx,
                        theme,
                        first_master,
                        default_text_style,
                        drawings@,
                        i as int + 1,
                        *coll,
                        after,
                    );
                    let part = spec_shape_html(
                        child,
                        None,
                        None,
                        Some(frame),
                        *ctx,
                        theme,
                        first_master,
                        default_text_style,
                        drawings@[i as int],
                        before,
                    );
                    let rest = spec_group_from(
                        children@,
                        *pframe,
                        *group,
                        *ctx,
                        theme,
                        first_master,
                        default_text_style,
                        drawings@,
                        i as int + 1,
                        *coll,
                    );
                    lemma_concat_associative(before_html, part, rest);
                    lemma_collector_grows_trans(c0, before, *coll);
                    let r = shape_records(
                        child,
                        None,
                        None,
                        Some(frame),
                        drawings@[i as int],
                        c0.current_slide_index as nat,
                        before.counter as nat,
                    );
                    assert(elements_view(coll.elements@).len() == coll.elements@.len());
                    assert(elements_view(before.elements@).len() == before.elements@.len());
                    lemma_concat_associative(
                        elements_view(before.elements@),
                        r,
                        group_records_from(
                            children@,
                            *pframe,
                            *group,
                            drawings@,
                            i as int + 1,
                            c0.current_slide_index as nat,
                            coll.counter as nat,
                        ),
                    );
                    let fa = added_entries(c0, *coll);
                    let k = added_entries(c0, before).len() as int;
                    assert(fa.subrange(0, k) =~= added_entries(c0, before));
                    assert(fa.subrange(k, fa.len() as int) =~= added_entries(before, *coll));
                    assert(group_fonts_upto(
                        fa.subrange(0, k),
                        children@,
                        *ctx,
                        theme,
                        first_master,
                        default_text_style,
                        i as int,
                        c0.current_slide_index as int,
                    ));
                    assert(group_fonts_upto(
                        fa,
                        children@,
                        *ctx,
                        theme,
                        first_master,
                        default_text_style,
                        i as int + 1,
                        c0.current_slide_index as int,
                    ));
                    assert(asset_views(coll.external_assets@).len() == coll.external_assets@.len());
                    assert(asset_views(before.external_assets@).len() == before.external_assets@.len());
                    lemma_concat_associative(
                        asset_views(before.external_assets@),
                        shape_assets(
                            child,
                            None,
                            None,
                            *ctx,
                            theme,
                            drawings@[i as int],
                            c0.current_slide_index as int,
                            before.asset_counter as int,
                        ),
                        group_assets_from(
                            children@,
                            *ctx,
                            theme,
                            drawings@,
                            i as int + 1,
                            c0.current_slide_index as int,
                            coll.asset_counter as int,
                        ),
                    );
                    lemma_concat_associative(
                        provenance_view(before.provenance_entries@),
                        shape_provenance(child, None, None, first_master, default_text_style, c0.current_slide_index as nat),
                        group_provenance_from(
                            children@,
                            first_master,
                            default_text_style,
                            i as int + 1,
                            c0.current_slide_index as nat,
                        ),
                    );
                }
            } else {
                proof {
                    assert(*child == children@[i as int]);
                }
            }
            i = i + 1;
        }
        proof {
            assert(html@ =~= old(html)@ + all);
            assert(elements_view(coll.elements@) + group_records_from(
                children@,
                *pframe,
                *group,
                drawings@,
                i as int,
                c0.current_slide_index as nat,
                coll.counter as nat,
            ) =~= elements_view(coll.elements@));
            assert(provenance_view(coll.provenance_entries@) + group_provenance_from(
                children@,
                first_master,
                default_text_style,
                i as int,
                c0.current_slide_index as nat,
            ) =~= provenance_view(coll.provenance_entries@));
            assert(asset_views(coll.external_assets@) + group_assets_from(
                children@,
                *ctx,
                theme,
                drawings@,
                i as int,
                c0.current_slide_index as int,
                coll.asset_counter as int,
            ) =~= asset_views(coll.external_assets@));
        }
    }
}

/// What a collector keeps while shapes are rendered: the slide index stays, the gradient
/// and marker counters only grow, typeface and provenance records are only appended, every
/// image counted is recorded, every unresolved element counted is recorded, and unresolved
/// elements stay numbered in order.
pub open spec fn collector_grows(a: RenderCollector, b: RenderCollector) -> bool {
    &&& b.current_slide_index == a.current_slide_index
    &&& a.gradient_counter <= b.gradient_counter
    &&& a.marker_counter <= b.marker_counter
    &&& a.font_resolution_entries@.len() <= b.font_resolution_entries@.len()
    &&& b.font_resolution_entries@.subrange(0, a.font_resolution_entries@.len() as int)
        == a.font_resolution_entries@
    &&& a.provenance_entries@.len() <= b.provenance_entries@.len()
    &&& b.provenance_entries@.subrange(0, a.provenance_entries@.len() as int) == a.provenance_entries@
    &&& b.external_assets@.len() - a.external_assets@.len() == b.asset_counter - a.asset_counter
    &&& b.elements@.len() - a.elements@.len() == b.counter - a.counter
    &&& (elements_numbered(a) ==> elements_numbered(b))
}

/// A collector that only exported images (each one counted) has grown.
pub(crate) proof fn lemma_collector_grows_by_assets(a: RenderCollector, b: RenderCollector)
    requires
        b.current_slide_index == a.current_slide_index,
        b.gradient_counter == a.gradient_counter,
        b.marker_counter == a.marker_counter,
        b.font_resolution_entries@ == a.font_resolution_entries@,
        b.provenance_entries@ == a.provenance_entries@,
        b.counter == a.counter,
        b.elements@ == a.elements@,
        b.external_assets@.len() - a.external_assets@.len() == b.asset_counter - a.asset_counter,
    ensures
        collector_grows(a, b),
{
    assert(b.font_resolution_entries@.subrange(0, a.font_resolution_entries@.len() as int)
        =~= a.font_resolution_entries@);
    assert(b.provenance_entries@.subrange(0, a.provenance_entries@.len() as int) =~= a.provenance_entries@);
}

pub(crate) proof fn lemma_collector_grows_trans(a: RenderCollector, b: RenderCollector, c: RenderCollector)
    requires
        collector_grows(a, b),
        collector_grows(b, c),
    ensures
        collector_grows(a, c),
{
    assert(c.font_resolution_entries@.subrange(0, a.font_resolution_entries@.len() as int)
        =~= b.font_resolution_entries@.subrange(0, a.font_resolution_entries@.len() as int));
    assert(c.provenance_entries@.subrange(0, a.provenance_entries@.len() as int)
        =~= b.provenance_entries@.subrange(0, a.provenance_entries@.len() as int));
}


impl HtmlRenderer {
    /// Renders the geometry of a shape's content (see `spec_geometry_part`): the SVG of its
    /// preset geometry (see `render_shape_svg`) when its path was drawn, the markup drawn
    /// for a custom geometry, else nothing.
    fn render_shape_geometry(
        shape: &Shape,
        layout_match: Option<&Shape>,
        master_match: Option<&Shape>,
        frame: Option<(Position, Size)>,
        ctx: &RenderCtx<'_>,
        theme: Option<&Theme>,
        drawing: &ShapeDrawing<'_>,
        coll: &mut RenderCollector,
        html: &mut String,
    )
        requires
            draws_svg(shape, layout_match, master_match, *drawing) ==> {
                &&& old(coll).gradient_counter < usize::MAX
                &&& old(coll).marker_counter + 2 <= usize::MAX
            },
        ensures
            final(html)@ == old(html)@ + spec_geometry_part(
                shape,
                layout_match,
                master_match,
                frame,
                *ctx,
                theme,
                *drawing,
                *old(coll),
            ),
            final(coll).gradient_counter == old(coll).gradient_counter + if draws_svg(
                shape,
                layout_match,
                master_match,
                *drawing,
            ) {
                1int
            } else {
                0int
            },
            final(coll).marker_counter == old(coll).marker_counter + if draws_svg(
                shape,
                layout_match,
                master_match,
                *drawing,
            ) {
                spec_marker_count(
                    shape_border(*shape, deref(layout_match), deref(master_match), *ctx, fmt_scheme_of(deref(theme))),
                ) as int
            } else {
                0int
            },
            final(coll).asset_counter == old(coll).asset_counter,
            final(coll).current_slide_index == old(coll).current_slide_index,
            final(coll).counter == old(coll).counter,
            final(coll).elements@ == old(coll).elements@,
            final(coll).external_assets@ == old(coll).external_assets@,
            final(coll).font_resolution_entries@ == old(coll).font_resolution_entries@,
            final(coll).provenance_entries@ == old(coll).provenance_entries@,
    {
        reveal(spec_geometry_part);
        let geometry = Self::effective_geometry(shape, layout_match, master_match);
        let fmt_scheme: Option<&FmtScheme> = match theme {
            Some(t) => Some(&t.fmt_scheme),
            None => None,
        };
        if Self::svg_preset_name(geometry.shape_type).is_some() {
            match &drawing.svg {
                Some(g) => {
                    Self::render_shape_svg(
                        shape,
                        layout_match,
                        master_match,
                        frame,
                        ctx,
                        fmt_scheme,
                        drawing.anchor,
                        g,
                        coll,
                        html,
                    );
                },
                None => {},
            }
        } else if matches!(geometry.shape_type, ShapeType::CustomGeom) {
            match &drawing.svg {
                Some(g) => {
                    let (pos, size) = match frame {
                        Some(f) => f,
                        None => resolve_position(shape, layout_match, master_match),
                    };
                    let preset = Self::svg_preset_name(geometry.shape_type);
                    let (w, h) = Self::box_dims(&pos, &size, drawing.anchor, &geometry, preset);
                    let border = resolve_border_with_theme(
                        shape,
                        layout_match,
                        master_match,
                        fmt_scheme,
                        ctx.scheme,
                        ctx.clr_map,
                    );
                    let fill = resolve_shape_fill_with_theme(
                        shape,
                        layout_match,
                        master_match,
                        fmt_scheme,
                        ctx.scheme,
                        ctx.clr_map,
                    );
                    proof {
                        lemma_custom_svg_same_fill(
                            *shape,
                            fill,
                            shape_fill(*shape, deref(layout_match), deref(master_match), *ctx, fmt_scheme_of(deref(theme))),
                            border,
                            *ctx,
                            *g,
                            drawing.custom_paths@,
                            w as int,
                            h as int,
                            coll.gradient_counter as nat,
                            coll.marker_counter as nat,
                        );
                    }
                    Self::render_custom_geom_svg(
                        shape,
                        &fill,
                        &border,
                        ctx,
                        g,
                        &drawing.custom_paths,
                        w,
                        h,
                        coll,
                        html,
                    );
                },
                None => {},
            }
        }
    }
}

} // verus!
