//! A whole slide: its frame and background, then each shape it renders, in order.
use vstd::prelude::*;
use vstd::seq_lib::lemma_concat_associative;

use crate::model::fill::Fill;
use crate::model::hierarchy::{Slide, SlideLayout, SlideMaster, Theme};
use crate::model::shape::{ListStyle, Shape};
use crate::renderer::context::{elements_view, RenderCollector, RenderCtx, UnresolvedRecord};
use crate::renderer::fill_css::{exports_image, fill_mime, next_asset_path, spec_fill_to_css, HtmlRenderer};
use crate::renderer::table::{added_entries, asset_path_at, asset_views, fill_data};
use crate::text_metrics::{fonts_view, lemma_fonts_view_joined, FontResolutionEntry};
use crate::renderer::shape_html::{
    after_shape, collector_grows, lemma_collector_grows_trans, lemma_shape_congruent, same_counters,
    lemma_shape_fonts_unique, shape_assets, shape_fonts_ok, shape_provenance, shape_ready, shape_records, spec_shape_html, ShapeDrawing,
};
use crate::provenance::{provenance_view, ProvenanceRecord};
use crate::renderer::slide::{
    background_entry, backgrounds_ready, planned_view, slide_clr_map, slide_layout, slide_master, spec_slide_open,
    spec_slide_plan,
};
use crate::resolver::inheritance::{background_from, spec_background_source};
use crate::strings::push_str;

verus! {

/// The rendering context of a slide: the color scheme of its master's theme (when the
/// master names one that exists) and its color map, else those of `ctx`.
pub open spec fn spec_slide_ctx<'a>(
    slide: Slide,
    layouts: Seq<SlideLayout>,
    masters: Seq<SlideMaster>,
    themes: Seq<Theme>,
    ctx: RenderCtx<'a>,
) -> RenderCtx<'a> {
    let layout = slide_layout(slide, layouts);
    let master = slide_master(slide, layouts, masters);
    RenderCtx {
        scheme: match master {
            Some(m) => if m.theme_idx < themes.len() {
                Some(&themes[m.theme_idx as int].color_scheme)
            } else {
                ctx.scheme
            },
            None => ctx.scheme,
        },
        clr_map: match slide_clr_map(slide, layout, master) {
            Some(m) => Some(&m),
            None => ctx.clr_map,
        },
        embed_images: ctx.embed_images,
    }
}

/// The collector counters once the background `f` is rendered.
pub open spec fn after_background(f: Fill, ctx: RenderCtx, c: RenderCollector) -> RenderCollector {
    RenderCollector {
        asset_counter: (c.asset_counter + if exports_image(f, ctx) {
            1int
        } else {
            0int
        }) as usize,
        ..c
    }
}

/// A reference to the value in an option.
pub open spec fn as_ref_of<'a>(o: Option<Shape>) -> Option<&'a Shape> {
    match o {
        Some(s) => Some(&s),
        None => None,
    }
}

/// HTML of planned shapes from entry `i` on, rendered from collector `c`: each shape
/// with the placeholders it inherits from and its drawing.
pub open spec fn spec_shapes_from(
    plan: Seq<(Shape, Option<Shape>, Option<Shape>)>,
    ctx: RenderCtx,
    theme: Option<&Theme>,
    first_master: Option<&SlideMaster>,
    default_text_style: Option<&ListStyle>,
    drawings: Seq<ShapeDrawing>,
    i: int,
    c: RenderCollector,
) -> Seq<char>
    decreases plan.len() - i,
{
    if i < 0 || i >= plan.len() {
        Seq::empty()
    } else {
        let e = plan[i];
        spec_shape_html(
            &e.0,
            as_ref_of(e.1),
            as_ref_of(e.2),
            None,
            ctx,
            theme,
            first_master,
            default_text_style,
            drawings[i],
            c,
        ) + spec_shapes_from(
            plan,
            ctx,
            theme,
            first_master,
            default_text_style,
            drawings,
            i + 1,
            after_shape(&e.0, as_ref_of(e.1), as_ref_of(e.2), ctx, theme, drawings[i], c),
        )
    }
}

/// The unresolved elements the planned shapes from entry `i` on record when rendered on
/// slide index `slide` after `n` others.
pub open spec fn shapes_records_from(
    plan: Seq<(Shape, Option<Shape>, Option<Shape>)>,
    drawings: Seq<ShapeDrawing>,
    i: int,
    slide: nat,
    n: nat,
) -> Seq<UnresolvedRecord>
    decreases plan.len() - i,
{
    if i < 0 || i >= plan.len() {
        Seq::empty()
    } else {
        let e = plan[i];
        let r = shape_records(&e.0, as_ref_of(e.1), as_ref_of(e.2), None, drawings[i], slide, n);
        r + shapes_records_from(plan, drawings, i + 1, slide, n + r.len())
    }
}

/// The provenance records the planned shapes from entry `i` on add when rendered on slide
/// index `slide`.
pub open spec fn shapes_provenance_from(
    plan: Seq<(Shape, Option<Shape>, Option<Shape>)>,
    first_master: Option<&SlideMaster>,
    default_text_style: Option<&ListStyle>,
    i: int,
    slide: nat,
) -> Seq<ProvenanceRecord>
    decreases plan.len() - i,
{
    if i < 0 || i >= plan.len() {
        Seq::empty()
    } else {
        let e = plan[i];
        shape_provenance(&e.0, as_ref_of(e.1), as_ref_of(e.2), first_master, default_text_style, slide)
            + shapes_provenance_from(plan, first_master, default_text_style, i + 1, slide)
    }
}

/// The image a slide's background `f` exports when rendered on slide index `slide` after
/// `n` others.
pub open spec fn background_assets(f: Fill, ctx: RenderCtx, slide: int, n: int) -> Seq<
    (Seq<char>, Seq<char>, Seq<u8>),
> {
    if exports_image(f, ctx) {
        seq![(asset_path_at(f, slide, n), fill_mime(f), fill_data(f))]
    } else {
        Seq::empty()
    }
}

/// The images the planned shapes from entry `i` on export when rendered on slide index
/// `slide` after `n` others.
pub open spec fn shapes_assets_from(
    plan: Seq<(Shape, Option<Shape>, Option<Shape>)>,
    ctx: RenderCtx,
    theme: Option<&Theme>,
    drawings: Seq<ShapeDrawing>,
    i: int,
    slide: int,
    n: int,
) -> Seq<(Seq<char>, Seq<char>, Seq<u8>)>
    decreases plan.len() - i,
{
    if i < 0 || i >= plan.len() {
        Seq::empty()
    } else {
        let e = plan[i];
        let a = shape_assets(&e.0, as_ref_of(e.1), as_ref_of(e.2), ctx, theme, drawings[i], slide, n);
        a + shapes_assets_from(plan, ctx, theme, drawings, i + 1, slide, n + a.len())
    }
}

/// The typeface records the planned shapes before entry `i` add when rendered on slide
/// index `slide`, in order: those of the shapes before the last of them, then that
/// shape's.
pub open spec fn shapes_fonts_upto(
    entries: Seq<FontResolutionEntry>,
    plan: Seq<(Shape, Option<Shape>, Option<Shape>)>,
    ctx: RenderCtx,
    theme: Option<&Theme>,
    first_master: Option<&SlideMaster>,
    default_text_style: Option<&ListStyle>,
    i: int,
    slide: int,
) -> bool
    decreases i,
{
    if i <= 0 || i > plan.len() {
        entries.len() == 0
    } else {
        let e = plan[i - 1];
        exists|k: int|
            0 <= k <= entries.len() && shapes_fonts_upto(
                #[trigger] entries.subrange(0, k),
                plan,
                ctx,
                theme,
                first_master,
                default_text_style,
                i - 1,
                slide,
            ) && shape_fonts_ok(
                entries.subrange(k, entries.len() as int),
                &e.0,
                as_ref_of(e.1),
                as_ref_of(e.2),
                ctx,
                theme,
                first_master,
                default_text_style,
                slide,
            )
    }
}

/// The typeface records the planned shapes before entry `i` add are determined by them.
pub(crate) proof fn lemma_shapes_fonts_unique(
    a: Seq<FontResolutionEntry>,
    b: Seq<FontResolutionEntry>,
    plan: Seq<(Shape, Option<Shape>, Option<Shape>)>,
    ctx: RenderCtx,
    theme: Option<&Theme>,
    first_master: Option<&SlideMaster>,
    default_text_style: Option<&ListStyle>,
    i: int,
    slide: int,
)
    requires
        shapes_fonts_upto(a, plan, ctx, theme, first_master, default_text_style, i, slide),
        shapes_fonts_upto(b, plan, ctx, theme, first_master, default_text_style, i, slide),
    ensures
        fonts_view(a) == fonts_view(b),
    decreases i,
{
    if i <= 0 || i > plan.len() {
        assert(fonts_view(a) =~= fonts_view(b));
    } else {
        let e = plan[i - 1];
        let ka = choose|k: int|
            0 <= k <= a.len() && shapes_fonts_upto(
                #[trigger] a.subrange(0, k),
                plan,
                ctx,
                theme,
                first_master,
                default_text_style,
                i - 1,
                slide,
            ) && shape_fonts_ok(
                a.subrange(k, a.len() as int),
                &e.0,
                as_ref_of(e.1),
                as_ref_of(e.2),
                ctx,
                theme,
                first_master,
                default_text_style,
                slide,
            );
        let kb = choose|k: int|
            0 <= k <= b.len() && shapes_fonts_upto(
                #[trigger] b.subrange(0, k),
                plan,
                ctx,
                theme,
                first_master,
                default_text_style,
                i - 1,
                slide,
            ) && shape_fonts_ok(
                b.subrange(k, b.len() as int),
                &e.0,
                as_ref_of(e.1),
                as_ref_of(e.2),
                ctx,
                theme,
                first_master,
                default_text_style,
                slide,
            );
        lemma_shapes_fonts_unique(
            a.subrange(0, ka),
            b.subrange(0, kb),
            plan,
            ctx,
            theme,
            first_master,
            default_text_style,
            i - 1,
            slide,
        );
        lemma_shape_fonts_unique(
            a.subrange(ka, a.len() as int),
            b.subrange(kb, b.len() as int),
            &e.0,
            as_ref_of(e.1),
            as_ref_of(e.2),
            ctx,
            theme,
            first_master,
            default_text_style,
            slide,
        );
        lemma_fonts_view_joined(a, b, ka, kb);
    }
}

/// The collector counters after the planned shapes from entry `i` on.
pub open spec fn shapes_counters_from(
    plan: Seq<(Shape, Option<Shape>, Option<Shape>)>,
    ctx: RenderCtx,
    theme: Option<&Theme>,
    drawings: Seq<ShapeDrawing>,
    i: int,
    c: RenderCollector,
) -> RenderCollector
    decreases plan.len() - i,
{
    if i < 0 || i >= plan.len() {
        c
    } else {
        let e = plan[i];
        shapes_counters_from(
            plan,
            ctx,
            theme,
            drawings,
            i + 1,
            after_shape(&e.0, as_ref_of(e.1), as_ref_of(e.2), ctx, theme, drawings[i], c),
        )
    }
}

/// The planned shapes from entry `i` on can be rendered in turn.
pub open spec fn shapes_ready_from(
    plan: Seq<(Shape, Option<Shape>, Option<Shape>)>,
    ctx: RenderCtx,
    theme: Option<&Theme>,
    first_master: Option<&SlideMaster>,
    default_text_style: Option<&ListStyle>,
    drawings: Seq<ShapeDrawing>,
    i: int,
    c: RenderCollector,
) -> bool
    decreases plan.len() - i,
{
    if i < 0 || i >= plan.len() {
        true
    } else {
        let e = plan[i];
        &&& shape_ready(
            &e.0,
            as_ref_of(e.1),
            as_ref_of(e.2),
            ctx,
            theme,
            first_master,
            default_text_style,
            drawings[i],
            c,
        )
        &&& shapes_ready_from(
            plan,
            ctx,
            theme,
            first_master,
            default_text_style,
            drawings,
            i + 1,
            after_shape(&e.0, as_ref_of(e.1), as_ref_of(e.2), ctx, theme, drawings[i], c),
        )
    }
}

pub(crate) proof fn lemma_shapes_congruent(
    plan: Seq<(Shape, Option<Shape>, Option<Shape>)>,
    ctx: RenderCtx,
    theme: Option<&Theme>,
    first_master: Option<&SlideMaster>,
    default_text_style: Option<&ListStyle>,
    drawings: Seq<ShapeDrawing>,
    i: int,
    a: RenderCollector,
    b: RenderCollector,
)
    requires
        same_counters(a, b),
    ensures
        spec_shapes_from(plan, ctx, theme, first_master, default_text_style, drawings, i, a)
            == spec_shapes_from(plan, ctx, theme, first_master, default_text_style, drawings, i, b),
        shapes_ready_from(plan, ctx, theme, first_master, default_text_style, drawings, i, a)
            == shapes_ready_from(plan, ctx, theme, first_master, default_text_style, drawings, i, b),
        same_counters(
            shapes_counters_from(plan, ctx, theme, drawings, i, a),
            shapes_counters_from(plan, ctx, theme, drawings, i, b),
        ),
    decreases plan.len() - i,
{
    if 0 <= i < plan.len() {
        let e = plan[i];
        lemma_shape_congruent(
            &e.0,
            as_ref_of(e.1),
            as_ref_of(e.2),
            None,
            ctx,
            theme,
            first_master,
            default_text_style,
            drawings[i],
            a,
            b,
        );
        lemma_shapes_congruent(
            plan,
            ctx,
            theme,
            first_master,
            default_text_style,
            drawings,
            i + 1,
            after_shape(&e.0, as_ref_of(e.1), as_ref_of(e.2), ctx, theme, drawings[i], a),
            after_shape(&e.0, as_ref_of(e.1), as_ref_of(e.2), ctx, theme, drawings[i], b),
        );
    }
}

/// HTML of a slide whose background renders as `bg`: the slide frame, its shapes and
/// the closing tags.
pub open spec fn spec_slide_html(
    slide: Slide,
    num: int,
    slide_w: int,
    slide_h: int,
    slide_scale: int,
    layouts: Seq<SlideLayout>,
    masters: Seq<SlideMaster>,
    themes: Seq<Theme>,
    ctx: RenderCtx,
    theme: Option<&Theme>,
    first_master: Option<&SlideMaster>,
    default_text_style: Option<&ListStyle>,
    drawings: Seq<ShapeDrawing>,
    bg: Fill,
    coll: RenderCollector,
) -> Seq<char> {
    let sctx = spec_slide_ctx(slide, layouts, masters, themes, ctx);
    spec_slide_open(
        num,
        slide_w,
        slide_h,
        slide_scale,
        spec_fill_to_css(bg, sctx, next_asset_path(bg, coll)),
    ) + spec_shapes_from(
        spec_slide_plan(slide, layouts, masters),
        sctx,
        theme,
        first_master,
        default_text_style,
        drawings,
        0,
        after_background(bg, sctx, coll),
    ) + "</div>\n</div>\n"@
}

/// The images a slide whose background renders as `bg` exports when rendered on slide
/// index `slide` after `n` others: its background's, then its shapes'.
pub open spec fn slide_assets(
    slide: Slide,
    layouts: Seq<SlideLayout>,
    masters: Seq<SlideMaster>,
    themes: Seq<Theme>,
    ctx: RenderCtx,
    theme: Option<&Theme>,
    drawings: Seq<ShapeDrawing>,
    bg: Fill,
    slide_index: int,
    n: int,
) -> Seq<(Seq<char>, Seq<char>, Seq<u8>)> {
    let sctx = spec_slide_ctx(slide, layouts, masters, themes, ctx);
    let b = background_assets(bg, sctx, slide_index, n);
    b + shapes_assets_from(spec_slide_plan(slide, layouts, masters), sctx, theme, drawings, 0, slide_index, n + b.len())
}

/// A slide renders alike, needs the same and counts alike from collectors with the same
/// counters.
pub(crate) proof fn lemma_slide_congruent(
    slide: Slide,
    num: int,
    slide_w: int,
    slide_h: int,
    slide_scale: int,
    layouts: Seq<SlideLayout>,
    masters: Seq<SlideMaster>,
    themes: Seq<Theme>,
    ctx: RenderCtx,
    theme: Option<&Theme>,
    first_master: Option<&SlideMaster>,
    default_text_style: Option<&ListStyle>,
    drawings: Seq<ShapeDrawing>,
    bg: Fill,
    a: RenderCollector,
    b: RenderCollector,
)
    requires
        same_counters(a, b),
    ensures
        spec_slide_html(slide, num, slide_w, slide_h, slide_scale, layouts, masters, themes, ctx, theme, first_master, default_text_style, drawings, bg, a)
            == spec_slide_html(slide, num, slide_w, slide_h, slide_scale, layouts, masters, themes, ctx, theme, first_master, default_text_style, drawings, bg, b),
        backgrounds_ready(slide, slide_layout(slide, layouts), slide_master(slide, layouts, masters), a)
            == backgrounds_ready(slide, slide_layout(slide, layouts), slide_master(slide, layouts, masters), b),
        ({
            let sctx = spec_slide_ctx(slide, layouts, masters, themes, ctx);
            let plan = spec_slide_plan(slide, layouts, masters);
            &&& shapes_ready_from(plan, sctx, theme, first_master, default_text_style, drawings, 0, after_background(bg, sctx, a))
                == shapes_ready_from(plan, sctx, theme, first_master, default_text_style, drawings, 0, after_background(bg, sctx, b))
            &&& same_counters(
                shapes_counters_from(plan, sctx, theme, drawings, 0, after_background(bg, sctx, a)),
                shapes_counters_from(plan, sctx, theme, drawings, 0, after_background(bg, sctx, b)),
            )
        }),
{
    let sctx = spec_slide_ctx(slide, layouts, masters, themes, ctx);
    lemma_shapes_congruent(
        spec_slide_plan(slide, layouts, masters),
        sctx,
        theme,
        first_master,
        default_text_style,
        drawings,
        0,
        after_background(bg, sctx, a),
        after_background(bg, sctx, b),
    );
}

impl HtmlRenderer {
    /// Renders a slide: its frame and background (see `begin_slide`), then each shape it
    /// renders (see `slide_shapes_to_render`), in order, with the drawing at its index in
    /// `drawings` and the slide's color context (see `render_shape_resolved`), then the
    /// closing tags. `theme` is the primary theme; `first_master` and
    /// `default_text_style` give text its master and presentation defaults.
    #[verifier::rlimit(50)]
    pub fn render_slide(
        slide: &Slide,
        num: usize,
        slide_w: i64,
        slide_h: i64,
        slide_scale: u32,
        layouts: &[SlideLayout],
        masters: &[SlideMaster],
        themes: &[Theme],
        ctx: &RenderCtx<'_>,
        theme: Option<&Theme>,
        first_master: Option<&SlideMaster>,
        default_text_style: Option<&ListStyle>,
        drawings: &[ShapeDrawing<'_>],
        coll: &mut RenderCollector,
        html: &mut String,
    )
        requires
            backgrounds_ready(
                *slide,
                slide_layout(*slide, layouts@),
                slide_master(*slide, layouts@, masters@),
                *old(coll),
            ),
            drawings@.len() == spec_slide_plan(*slide, layouts@, masters@).len(),
            forall|f: Fill|
                #[trigger] background_from(
                    f,
                    *slide,
                    slide_layout(*slide, layouts@),
                    slide_master(*slide, layouts@, masters@),
                ) ==> shapes_ready_from(
                    spec_slide_plan(*slide, layouts@, masters@),
                    spec_slide_ctx(*slide, layouts@, masters@, themes@, *ctx),
                    theme,
                    first_master,
                    default_text_style,
                    drawings@,
                    0,
                    after_background(
                        f,
                        spec_slide_ctx(*slide, layouts@, masters@, themes@, *ctx),
                        *old(coll),
                    ),
                ),
        ensures
            forall|f: Fill|
                #[trigger] background_from(
                    f,
                    *slide,
                    slide_layout(*slide, layouts@),
                    slide_master(*slide, layouts@, masters@),
                ) ==> {
                    &&& final(html)@ == old(html)@ + spec_slide_html(
                        *slide,
                        num as int,
                        slide_w as int,
                        slide_h as int,
                        slide_scale as int,
                        layouts@,
                        masters@,
                        themes@,
                        *ctx,
                        theme,
                        first_master,
                        default_text_style,
                        drawings@,
                        f,
                        *old(coll),
                    )
                    &&& same_counters(
                        *final(coll),
                        shapes_counters_from(
                            spec_slide_plan(*slide, layouts@, masters@),
                            spec_slide_ctx(*slide, layouts@, masters@, themes@, *ctx),
                            theme,
                            drawings@,
                            0,
                            after_background(
                                f,
                                spec_slide_ctx(*slide, layouts@, masters@, themes@, *ctx),
                                *old(coll),
                            ),
                        ),
                    )
                    &&& asset_views(final(coll).external_assets@) == asset_views(old(coll).external_assets@)
                        + slide_assets(
                        *slide,
                        layouts@,
                        masters@,
                        themes@,
                        *ctx,
                        theme,
                        drawings@,
                        f,
                        old(coll).current_slide_index as int,
                        old(coll).asset_counter as int,
                    )
                },
            collector_grows(*old(coll), *final(coll)),
            elements_view(final(coll).elements@) == elements_view(old(coll).elements@) + shapes_records_from(
                spec_slide_plan(*slide, layouts@, masters@),
                drawings@,
                0,
                old(coll).current_slide_index as nat,
                old(coll).counter as nat,
            ),
            shapes_fonts_upto(
                added_entries(*old(coll), *final(coll)),
                spec_slide_plan(*slide, layouts@, masters@),
                spec_slide_ctx(*slide, layouts@, masters@, themes@, *ctx),
                theme,
                first_master,
                default_text_style,
                spec_slide_plan(*slide, layouts@, masters@).len() as int,
                old(coll).current_slide_index as int,
            ),
            provenance_view(final(coll).provenance_entries@) == provenance_view(old(coll).provenance_entries@)
                + seq![
                background_entry(
                    num as nat,
                    spec_background_source(
                        *slide,
                        slide_layout(*slide, layouts@),
                        slide_master(*slide, layouts@, masters@),
                    ),
                ),
            ] + shapes_provenance_from(
                spec_slide_plan(*slide, layouts@, masters@),
                first_master,
                default_text_style,
                0,
                old(coll).current_slide_index as nat,
            ),
            exists|f: Fill|
                #[trigger] background_from(
                    f,
                    *slide,
                    slide_layout(*slide, layouts@),
                    slide_master(*slide, layouts@, masters@),
                ),
    {
        let ghost c0 = *old(coll);
        let ghost h0 = html@;
        let sctx = Self::begin_slide(
            slide,
            num,
            slide_w,
            slide_h,
            slide_scale,
            layouts,
            masters,
            themes,
            ctx,
            coll,
            html,
        );
        proof {
            assert(sctx == spec_slide_ctx(*slide, layouts@, masters@, themes@, *ctx));
        }
        let plan = Self::slide_shapes_to_render(slide, layouts, masters);
        let ghost pv = planned_view(plan@);
        let ghost c1 = *coll;
        let ghost h1 = html@;
        let ghost layout = slide_layout(*slide, layouts@);
        let ghost master = slide_master(*slide, layouts@, masters@);
        let ghost bg = choose|f: Fill| background_from(f, *slide, layout, master);
        proof {
            assert(background_from(bg, *slide, layout, master));
            assert(same_counters(c1, after_background(bg, sctx, c0)));
            lemma_shapes_congruent(
                pv,
                sctx,
                theme,
                first_master,
                default_text_style,
                drawings@,
                0,
                c1,
                after_background(bg, sctx, c0),
            );
            assert(shapes_ready_from(pv, sctx, theme, first_master, default_text_style, drawings@, 0, c1));
            assert(c1.provenance_entries@.subrange(0, c0.provenance_entries@.len() as int)
                =~= c1.provenance_entries@.drop_last());
            assert(c1.font_resolution_entries@.subrange(0, c0.font_resolution_entries@.len() as int)
                =~= c0.font_resolution_entries@);
            assert(collector_grows(c0, c1));
        }
        let mut k: usize = 0;
        while k < plan.len()
            invariant
                k <= plan@.len(),
                pv == planned_view(plan@),
                pv == spec_slide_plan(*slide, layouts@, masters@),
                drawings@.len() == pv.len(),
                html@ + spec_shapes_from(pv, sctx, theme, first_master, default_text_style, drawings@, k as int, *coll)
                    == h1 + spec_shapes_from(pv, sctx, theme, first_master, default_text_style, drawings@, 0, c1),
                shapes_ready_from(pv, sctx, theme, first_master, default_text_style, drawings@, k as int, *coll),
                same_counters(
                    shapes_counters_from(pv, sctx, theme, drawings@, k as int, *coll),
                    shapes_counters_from(pv, sctx, theme, drawings@, 0, c1),
                ),
                collector_grows(c0, *coll),
                elements_view(coll.elements@) + shapes_records_from(
                    pv,
                    drawings@,
                    k as int,
                    c0.current_slide_index as nat,
                    coll.counter as nat,
                ) == elements_view(c0.elements@) + shapes_records_from(
                    pv,
                    drawings@,
                    0,
                    c0.current_slide_index as nat,
                    c0.counter as nat,
                ),
                provenance_view(coll.provenance_entries@) + shapes_provenance_from(
                    pv,
                    first_master,
                    default_text_style,
                    k as int,
                    c0.current_slide_index as nat,
                ) == provenance_view(c1.provenance_entries@) + shapes_provenance_from(
                    pv,
                    first_master,
                    default_text_style,
                    0,
                    c0.current_slide_index as nat,
                ),
                shapes_fonts_upto(
                    added_entries(c0, *coll),
                    pv,
                    sctx,
                    theme,
                    first_master,
                    default_text_style,
                    k as int,
                    c0.current_slide_index as int,
                ),
                asset_views(coll.external_assets@) + shapes_assets_from(
                    pv,
                    sctx,
                    theme,
                    drawings@,
                    k as int,
                    c0.current_slide_index as int,
                    coll.asset_counter as int,
                ) == asset_views(c1.external_assets@) + shapes_assets_from(
                    pv,
                    sctx,
                    theme,
                    drawings@,
                    0,
                    c0.current_slide_index as int,
                    c1.asset_counter as int,
                ),
            decreases plan@.len() - k,
        {
            let p = plan[k];
            let ghost before = *coll;
            let ghost before_html = html@;
            let ghost e = pv[k as int];
            proof {
                assert(e == (*p.shape, crate::resolver::inheritance::opt(p.layout_match), crate::resolver::inheritance::opt(p.master_match)));
                assert(as_ref_of(e.1) == p.layout_match);
                assert(as_ref_of(e.2) == p.master_match);
            }
            Self::render_shape_resolved(
                p.shape,
                p.layout_match,
                p.master_match,
                None,
                &sctx,
                theme,
                first_master,
                default_text_style,
                &drawings[k],
                coll,
                html,
            );
            proof {
                assert(same_counters(*coll, after_shape(p.shape, p.layout_match, p.master_match, sctx, theme, drawings@[k as int], before)));
                lemma_shapes_congruent(
                    pv,
                    sctx,
                    theme,
                    first_master,
                    default_text_style,
                    drawings@,
                    k as int + 1,
                    *coll,
                    after_shape(p.shape, p.layout_match, p.master_match, sctx, theme, drawings@[k as int], before),
                );
                let part = spec_shape_html(
                    p.shape,
                    p.layout_match,
                    p.master_match,
                    None,
                    sctx,
                    theme,
                    first_master,
                    default_text_style,
                    drawings@[k as int],
                    before,
                );
                let rest = spec_shapes_from(pv, sctx, theme, first_master, default_text_style, drawings@, k as int + 1, *coll);
                lemma_concat_associative(before_html, part, rest);
                lemma_collector_grows_trans(c0, before, *coll);
                let r = shape_records(
                    p.shape,
                    p.layout_match,
                    p.master_match,
                    None,
                    drawings@[k as int],
                    c0.current_slide_index as nat,
                    before.counter as nat,
                );
                assert(elements_view(coll.elements@).len() == coll.elements@.len());
                assert(elements_view(before.elements@).len() == before.elements@.len());
                lemma_concat_associative(
                    elements_view(before.elements@),
                    r,
                    shapes_records_from(pv, drawings@, k as int + 1, c0.current_slide_index as nat, coll.counter as nat),
                );
                let fa = added_entries(c0, *coll);
                let fk = added_entries(c0, before).len() as int;
                assert(fa.subrange(0, fk) =~= added_entries(c0, before));
                assert(fa.subrange(fk, fa.len() as int) =~= added_entries(before, *coll));
                assert(shapes_fonts_upto(
                    fa.subrange(0, fk),
                    pv,
                    sctx,
                    theme,
                    first_master,
                    default_text_style,
                    k as int,
                    c0.current_slide_index as int,
                ));
                assert(shapes_fonts_upto(
                    fa,
                    pv,
                    sctx,
                    theme,
                    first_master,
                    default_text_style,
                    k as int + 1,
                    c0.current_slide_index as int,
                ));
                assert(asset_views(coll.external_assets@).len() == coll.external_assets@.len());
                assert(asset_views(before.external_assets@).len() == before.external_assets@.len());
                lemma_concat_associative(
                    asset_views(before.external_assets@),
                    shape_assets(
                        p.shape,
                        p.layout_match,
                        p.master_match,
                        sctx,
                        theme,
                        drawings@[k as int],
                        c0.current_slide_index as int,
                        before.asset_counter as int,
                    ),
                    shapes_assets_from(
                        pv,
                        sctx,
                        theme,
                        drawings@,
                        k as int + 1,
                        c0.current_slide_index as int,
                        coll.asset_counter as int,
                    ),
                );
                lemma_concat_associative(
                    provenance_view(before.provenance_entries@),
                    shape_provenance(
                        p.shape,
                        p.layout_match,
                        p.master_match,
                        first_master,
                        default_text_style,
                        c0.current_slide_index as nat,
                    ),
                    shapes_provenance_from(pv, first_master, default_text_style, k as int + 1, c0.current_slide_index as nat),
                );
            }
            k = k + 1;
        }
        push_str(html, "</div>\n</div>\n");
        proof {
            assert(elements_view(coll.elements@) + shapes_records_from(
                pv,
                drawings@,
                k as int,
                c0.current_slide_index as nat,
                coll.counter as nat,
            ) =~= elements_view(coll.elements@));
            assert(provenance_view(coll.provenance_entries@) + shapes_provenance_from(
                pv,
                first_master,
                default_text_style,
                k as int,
                c0.current_slide_index as nat,
            ) =~= provenance_view(coll.provenance_entries@));
            assert(asset_views(coll.external_assets@) + shapes_assets_from(
                pv,
                sctx,
                theme,
                drawings@,
                k as int,
                c0.current_slide_index as int,
                coll.asset_counter as int,
            ) =~= asset_views(coll.external_assets@));
            let bgrec = c1.provenance_entries@.last();
            assert(c1.provenance_entries@ =~= c0.provenance_entries@.push(bgrec));
            assert(bgrec@ == background_entry(
                num as nat,
                spec_background_source(*slide, slide_layout(*slide, layouts@), slide_master(*slide, layouts@, masters@)),
            ));
            assert(provenance_view(c1.provenance_entries@) =~= provenance_view(c0.provenance_entries@) + seq![bgrec@]);
            assert forall|f: Fill|
                background_from(
                    f,
                    *slide,
                    slide_layout(*slide, layouts@),
                    slide_master(*slide, layouts@, masters@),
                ) implies {
                    &&& html@ == h0 + spec_slide_html(
                        *slide,
                        num as int,
                        slide_w as int,
                        slide_h as int,
                        slide_scale as int,
                        layouts@,
                        masters@,
                        themes@,
                        *ctx,
                        theme,
                        first_master,
                        default_text_style,
                        drawings@,
                        f,
                        c0,
                    )
                    &&& same_counters(
                        *coll,
                        shapes_counters_from(pv, sctx, theme, drawings@, 0, after_background(f, sctx, c0)),
                    )
                    &&& asset_views(coll.external_assets@) == asset_views(c0.external_assets@) + slide_assets(
                        *slide,
                        layouts@,
                        masters@,
                        themes@,
                        *ctx,
                        theme,
                        drawings@,
                        f,
                        c0.current_slide_index as int,
                        c0.asset_counter as int,
                    )
                } by {
                assert(same_counters(c1, after_background(f, sctx, c0)));
                let b = background_assets(f, sctx, c0.current_slide_index as int, c0.asset_counter as int);
                if exports_image(f, sctx) {
                    assert(c1.external_assets@ =~= c0.external_assets@.push(c1.external_assets@.last()));
                }
                assert(asset_views(c1.external_assets@) =~= asset_views(c0.external_assets@) + b);
                lemma_concat_associative(
                    asset_views(c0.external_assets@),
                    b,
                    shapes_assets_from(pv, sctx, theme, drawings@, 0, c0.current_slide_index as int, c1.asset_counter as int),
                );
                lemma_shapes_congruent(
                    pv,
                    sctx,
                    theme,
                    first_master,
                    default_text_style,
                    drawings@,
                    0,
                    c1,
                    after_background(f, sctx, c0),
                );
                let open = h1.subrange(h0.len() as int, h1.len() as int);
                assert(h1 =~= h0 + open);
                assert(html@ =~= h0 + spec_slide_html(
                    *slide,
                    num as int,
                    slide_w as int,
                    slide_h as int,
                    slide_scale as int,
                    layouts@,
                    masters@,
                    themes@,
                    *ctx,
                    theme,
                    first_master,
                    default_text_style,
                    drawings@,
                    f,
                    c0,
                ));
            }
        }
    }
}

} // verus!
