//! Slides: the layout and master a slide uses, its frame, background and color
//! context, and which shapes it renders with which placeholders they inherit from.
use vstd::prelude::*;

use crate::model::color::ClrMap;
use crate::model::fill::{same_fill, Fill};
use crate::model::hierarchy::{Slide, SlideLayout, SlideMaster, Theme};
use crate::model::shape::{PlaceholderInfo, Shape};
use crate::provenance::{ProvenanceRecord, ProvenanceSource, ProvenanceSubject, RenderedProvenanceEntry};
use crate::renderer::context::{RenderCollector, RenderCtx};
use crate::renderer::table::fill_data;
use crate::renderer::fill_css::{
    exports_image, fill_mime, fill_css_ready, next_asset_path, spec_fill_to_css,
    HtmlRenderer,
};
use crate::resolver::inheritance::{
    background_from, background_source, opt, resolve_background, resolve_clr_map,
    spec_background_source, spec_resolve_clr_map,
};
use crate::resolver::placeholder::{find_matching_placeholder, spec_matching_placeholder};
use crate::strings::{decimal_text, fmt_fixed, push_decimal_u64, push_fixed, push_str};

verus! {

// ---------------------------------------------------------------------------
// Layout and master of a slide
// ---------------------------------------------------------------------------

/// The layout a slide names, if it exists.
pub open spec fn slide_layout(slide: Slide, layouts: Seq<SlideLayout>) -> Option<SlideLayout> {
    match slide.layout_idx {
        Some(i) => if i < layouts.len() {
            Some(layouts[i as int])
        } else {
            None
        },
        None => None,
    }
}

/// The master of a slide's layout, if both exist.
pub open spec fn slide_master(
    slide: Slide,
    layouts: Seq<SlideLayout>,
    masters: Seq<SlideMaster>,
) -> Option<SlideMaster> {
    match slide_layout(slide, layouts) {
        Some(l) => if l.master_idx < masters.len() {
            Some(masters[l.master_idx as int])
        } else {
            None
        },
        None => None,
    }
}

fn layout_of<'a>(slide: &Slide, layouts: &'a [SlideLayout]) -> (r: Option<&'a SlideLayout>)
    ensures
        opt(r) == slide_layout(*slide, layouts@),
{
    match slide.layout_idx {
        Some(i) => if i < layouts.len() {
            Some(&layouts[i])
        } else {
            None
        },
        None => None,
    }
}

fn master_of<'a>(layout: Option<&SlideLayout>, masters: &'a [SlideMaster]) -> (r: Option<
    &'a SlideMaster,
>)
    ensures
        opt(r) == match opt(layout) {
            Some(l) => if l.master_idx < masters@.len() {
                Some(masters@[l.master_idx as int])
            } else {
                None
            },
            None => None,
        },
{
    match layout {
        Some(l) => if l.master_idx < masters.len() {
            Some(&masters[l.master_idx])
        } else {
            None
        },
        None => None,
    }
}

// ---------------------------------------------------------------------------
// Opening a slide
// ---------------------------------------------------------------------------

/// The color map a slide's context uses: the resolved map when the slide has a master
/// and the map is not empty.
pub open spec fn slide_clr_map(slide: Slide, layout: Option<SlideLayout>, master: Option<SlideMaster>) -> Option<
    ClrMap,
> {
    match master {
        Some(m) => if spec_resolve_clr_map(slide, layout, m).entries@.len() == 0 {
            None
        } else {
            Some(spec_resolve_clr_map(slide, layout, m))
        },
        None => None,
    }
}

/// The style attribute of the slide frame: the background, and the scale transform
/// (scale in ten-thousandths) unless the scale is one.
pub open spec fn spec_slide_style(bg_css: Seq<char>, scale: int) -> Seq<char> {
    if scale == 10000 {
        bg_css
    } else {
        bg_css + "; transform: scale("@ + fmt_fixed(scale, 10000, 4)
            + "); transform-origin: top left"@
    }
}

/// The opening markup of a slide: a shell sized to the scaled slide (pixels, one
/// decimal; the slide size in EMU) and the slide frame with its style.
pub open spec fn spec_slide_open(
    num: int,
    slide_w: int,
    slide_h: int,
    scale: int,
    bg_css: Seq<char>,
) -> Seq<char> {
    "<div class=\"slide-shell\" data-slide=\""@ + decimal_text(num) + "\" style=\"width: "@
        + fmt_fixed(slide_w * scale, 95250000, 1) + "px; height: "@ + fmt_fixed(
        slide_h * scale,
        95250000,
        1,
    ) + "px;\">\n<div class=\"slide\" data-slide=\""@ + decimal_text(num) + "\" style=\""@
        + spec_slide_style(bg_css, scale) + "\">\n"@
}

/// The background of each level that can be rendered with the collector.
pub open spec fn backgrounds_ready(
    slide: Slide,
    layout: Option<SlideLayout>,
    master: Option<SlideMaster>,
    coll: RenderCollector,
) -> bool {
    &&& (slide.background matches Some(f) ==> fill_css_ready(f, coll))
    &&& (layout matches Some(l) ==> (l.background matches Some(f) ==> fill_css_ready(f, coll)))
    &&& (master matches Some(m) ==> (m.background matches Some(f) ==> fill_css_ready(f, coll)))
    &&& coll.current_slide_index < usize::MAX
    &&& coll.asset_counter < usize::MAX
}

/// The provenance record of a slide background.
pub open spec fn background_entry_ok(e: RenderedProvenanceEntry, num: int, source: ProvenanceSource) -> bool {
    &&& e.slide_index == num
    &&& e.subject == ProvenanceSubject::SlideBackground
    &&& e.shape_name is None
    &&& e.fill_source is None
    &&& e.border_source is None
    &&& e.text_source is None
    &&& e.background_source == Some(source)
}

/// The provenance record of the background of slide `num`, as plain values (see
/// `background_entry_ok`).
pub open spec fn background_entry(num: nat, source: ProvenanceSource) -> ProvenanceRecord {
    ProvenanceRecord {
        slide_index: num,
        subject: ProvenanceSubject::SlideBackground,
        shape_name: None,
        fill_source: None,
        border_source: None,
        text_source: None,
        background_source: Some(source),
    }
}

/// Fills that are the same value render the same CSS and export the same image.
pub(crate) proof fn lemma_same_fill_same_css(
    a: Fill,
    b: Fill,
    ctx: RenderCtx,
    coll: RenderCollector,
)
    requires
        same_fill(a, b),
    ensures
        spec_fill_to_css(a, ctx, next_asset_path(a, coll)) == spec_fill_to_css(
            b,
            ctx,
            next_asset_path(b, coll),
        ),
        exports_image(a, ctx) == exports_image(b, ctx),
        next_asset_path(a, coll) == next_asset_path(b, coll),
        exports_image(a, ctx) ==> fill_data(a) == fill_data(b),
{
}

/// Two fills that `background_from` accepts for the same slide render the same CSS and
/// export alike.
proof fn lemma_background_css_unique(
    f: Fill,
    g: Fill,
    slide: Slide,
    layout: Option<SlideLayout>,
    master: Option<SlideMaster>,
    ctx: RenderCtx,
    coll: RenderCollector,
)
    requires
        background_from(f, slide, layout, master),
        background_from(g, slide, layout, master),
    ensures
        spec_fill_to_css(f, ctx, next_asset_path(f, coll)) == spec_fill_to_css(
            g,
            ctx,
            next_asset_path(g, coll),
        ),
        exports_image(f, ctx) == exports_image(g, ctx),
        next_asset_path(f, coll) == next_asset_path(g, coll),
        exports_image(f, ctx) ==> fill_data(f) == fill_data(g),
{
    match spec_background_source(slide, layout, master) {
        ProvenanceSource::Slide => {
            let x = slide.background.unwrap();
            lemma_same_fill_same_css(f, x, ctx, coll);
            lemma_same_fill_same_css(g, x, ctx, coll);
        },
        ProvenanceSource::LayoutBackground => {
            let x = layout.unwrap().background.unwrap();
            lemma_same_fill_same_css(f, x, ctx, coll);
            lemma_same_fill_same_css(g, x, ctx, coll);
        },
        ProvenanceSource::MasterBackground => {
            let x = master.unwrap().background.unwrap();
            lemma_same_fill_same_css(f, x, ctx, coll);
            lemma_same_fill_same_css(g, x, ctx, coll);
        },
        _ => {},
    }
}

fn push_slide_open(html: &mut String, num: usize, slide_w: i64, slide_h: i64, slide_scale: u32, bg_css: &str)
    ensures
        final(html)@ == old(html)@ + spec_slide_open(
            num as int,
            slide_w as int,
            slide_h as int,
            slide_scale as int,
            bg_css@,
        ),
{
    push_str(html, "<div class=\"slide-shell\" data-slide=\"");
    push_decimal_u64(html, num as u64);
    push_str(html, "\" style=\"width: ");
    let sw: i128 = slide_w as i128;
    let sh: i128 = slide_h as i128;
    let sc: i128 = slide_scale as i128;
    assert(-0x8000_0000_0000_0000_0000_0000 <= sw * sc <= 0x8000_0000_0000_0000_0000_0000)
        by (nonlinear_arith)
        requires
            -0x8000_0000_0000_0000 <= sw < 0x8000_0000_0000_0000,
            0 <= sc < 0x1_0000_0000,
    ;
    assert(-0x8000_0000_0000_0000_0000_0000 <= sh * sc <= 0x8000_0000_0000_0000_0000_0000)
        by (nonlinear_arith)
        requires
            -0x8000_0000_0000_0000 <= sh < 0x8000_0000_0000_0000,
            0 <= sc < 0x1_0000_0000,
    ;
    push_fixed(html, sw * sc, 95250000, 1);
    push_str(html, "px; height: ");
    push_fixed(html, sh * sc, 95250000, 1);
    push_str(html, "px;\">\n<div class=\"slide\" data-slide=\"");
    push_decimal_u64(html, num as u64);
    push_str(html, "\" style=\"");
    push_str(html, bg_css);
    if slide_scale != 10000 {
        push_str(html, "; transform: scale(");
        push_fixed(html, slide_scale as i128, 10000, 4);
        push_str(html, "); transform-origin: top left");
    }
    push_str(html, "\">\n");
    proof {
        assert(html@ =~= old(html)@ + spec_slide_open(
            num as int,
            slide_w as int,
            slide_h as int,
            slide_scale as int,
            bg_css@,
        ));
    }
}

// ---------------------------------------------------------------------------
// Shapes a slide renders
// ---------------------------------------------------------------------------

/// A shape to render and the layout and master placeholders it inherits from.
#[derive(Clone, Copy)]
pub struct PlannedShape<'a> {
    pub shape: &'a Shape,
    pub layout_match: Option<&'a Shape>,
    pub master_match: Option<&'a Shape>,
}

/// The values of a list of planned shapes.
pub open spec fn planned_view(v: Seq<PlannedShape>) -> Seq<(Shape, Option<Shape>, Option<Shape>)> {
    v.map_values(|p: PlannedShape| (*p.shape, opt(p.layout_match), opt(p.master_match)))
}

/// Whether a slide shows its master's shapes: the slide and its layout (when it has one)
/// both say so.
pub open spec fn shows_master_shapes(slide: Slide, layout: Option<SlideLayout>) -> bool {
    slide.show_master_sp && match layout {
        Some(l) => l.show_master_sp,
        None => true,
    }
}

/// The master shapes a slide renders: the visible ones that are not placeholders (those
/// only pass properties on), in order.
pub open spec fn master_entries(shapes: Seq<Shape>) -> Seq<(Shape, Option<Shape>, Option<Shape>)>
    decreases shapes.len(),
{
    if shapes.len() == 0 {
        Seq::empty()
    } else {
        let prev = master_entries(shapes.drop_last());
        let s = shapes.last();
        if !s.hidden && s.placeholder is None {
            prev.push((s, None, None))
        } else {
            prev
        }
    }
}

/// The placeholder among `candidates` that a placeholder shape inherits from.
pub open spec fn match_in(ph: Option<PlaceholderInfo>, candidates: Option<Seq<Shape>>) -> Option<Shape> {
    match (ph, candidates) {
        (Some(p), Some(c)) => match spec_matching_placeholder(p, c) {
            Some(i) => Some(c[i]),
            None => None,
        },
        _ => None,
    }
}

pub open spec fn shapes_of_layout(l: Option<SlideLayout>) -> Option<Seq<Shape>> {
    match l {
        Some(x) => Some(x.shapes@),
        None => None,
    }
}

pub open spec fn shapes_of_master(m: Option<SlideMaster>) -> Option<Seq<Shape>> {
    match m {
        Some(x) => Some(x.shapes@),
        None => None,
    }
}

/// The slide's own shapes it renders: the visible ones, each with the layout and master
/// placeholders it matches.
pub open spec fn slide_entries(
    shapes: Seq<Shape>,
    layout: Option<SlideLayout>,
    master: Option<SlideMaster>,
) -> Seq<(Shape, Option<Shape>, Option<Shape>)>
    decreases shapes.len(),
{
    if shapes.len() == 0 {
        Seq::empty()
    } else {
        let prev = slide_entries(shapes.drop_last(), layout, master);
        let s = shapes.last();
        if !s.hidden {
            prev.push(
                (
                    s,
                    match_in(s.placeholder, shapes_of_layout(layout)),
                    match_in(s.placeholder, shapes_of_master(master)),
                ),
            )
        } else {
            prev
        }
    }
}

/// The shapes a slide renders, in order: its master's decorative shapes when it shows
/// them, then its own visible shapes.
pub open spec fn spec_slide_plan(
    slide: Slide,
    layouts: Seq<SlideLayout>,
    masters: Seq<SlideMaster>,
) -> Seq<(Shape, Option<Shape>, Option<Shape>)> {
    let layout = slide_layout(slide, layouts);
    let master = slide_master(slide, layouts, masters);
    (if shows_master_shapes(slide, layout) && master is Some {
        master_entries(master.unwrap().shapes@)
    } else {
        Seq::empty()
    }) + slide_entries(slide.shapes@, layout, master)
}

/// Hidden shapes are never rendered, and master placeholders are never rendered as
/// shapes of their own.
pub proof fn plan_skips_hidden_and_master_placeholders(
    slide: Slide,
    layouts: Seq<SlideLayout>,
    masters: Seq<SlideMaster>,
    k: int,
)
    requires
        0 <= k < spec_slide_plan(slide, layouts, masters).len(),
    ensures
        !spec_slide_plan(slide, layouts, masters)[k].0.hidden,
        spec_slide_plan(slide, layouts, masters)[k].0.placeholder is Some ==> slide.shapes@.contains(
            spec_slide_plan(slide, layouts, masters)[k].0,
        ),
{
    let layout = slide_layout(slide, layouts);
    let master = slide_master(slide, layouts, masters);
    let m: Seq<(Shape, Option<Shape>, Option<Shape>)> = if shows_master_shapes(slide, layout)
        && master is Some {
        master_entries(master.unwrap().shapes@)
    } else {
        Seq::empty()
    };
    lemma_master_entries(if master is Some { master.unwrap().shapes@ } else { Seq::empty() });
    lemma_slide_entries(slide.shapes@, layout, master);
    if k < m.len() {
        assert(spec_slide_plan(slide, layouts, masters)[k] == m[k]);
    } else {
        assert(spec_slide_plan(slide, layouts, masters)[k] == slide_entries(
            slide.shapes@,
            layout,
            master,
        )[k - m.len()]);
    }
}

proof fn lemma_master_entries(shapes: Seq<Shape>)
    ensures
        forall|k: int|
            0 <= k < master_entries(shapes).len() ==> !(#[trigger] master_entries(shapes)[k]).0.hidden
                && master_entries(shapes)[k].0.placeholder is None,
    decreases shapes.len(),
{
    if shapes.len() > 0 {
        lemma_master_entries(shapes.drop_last());
    }
}

proof fn lemma_slide_entries(shapes: Seq<Shape>, layout: Option<SlideLayout>, master: Option<SlideMaster>)
    ensures
        forall|k: int|
            0 <= k < slide_entries(shapes, layout, master).len() ==> !(#[trigger] slide_entries(
                shapes,
                layout,
                master,
            )[k]).0.hidden && shapes.contains(slide_entries(shapes, layout, master)[k].0),
    decreases shapes.len(),
{
    if shapes.len() > 0 {
        let prev = shapes.drop_last();
        lemma_slide_entries(prev, layout, master);
        assert forall|k: int|
            0 <= k < slide_entries(shapes, layout, master).len() implies !(#[trigger] slide_entries(
                shapes,
                layout,
                master,
            )[k]).0.hidden && shapes.contains(slide_entries(shapes, layout, master)[k].0) by {
            let e = slide_entries(shapes, layout, master);
            if k < slide_entries(prev, layout, master).len() {
                let i = choose|i: int| 0 <= i < prev.len() && prev[i] == e[k].0;
                assert(shapes[i] == prev[i]);
            } else {
                assert(shapes[shapes.len() - 1] == shapes.last());
            }
        }
    }
}

impl HtmlRenderer {
    /// The rendering context of a slide: the color scheme of its master's theme (when the
    /// master names one that exists) and its resolved color map (when it has entries),
    /// else those of `ctx`.
    pub fn slide_ctx<'a>(
        slide: &'a Slide,
        layouts: &'a [SlideLayout],
        masters: &'a [SlideMaster],
        themes: &'a [Theme],
        ctx: &RenderCtx<'a>,
    ) -> (r: RenderCtx<'a>)
        ensures
            opt(r.clr_map) == match slide_clr_map(
                *slide,
                slide_layout(*slide, layouts@),
                slide_master(*slide, layouts@, masters@),
            ) {
                Some(m) => Some(m),
                None => opt(ctx.clr_map),
            },
            r.scheme == match slide_master(*slide, layouts@, masters@) {
                Some(m) => if m.theme_idx < themes@.len() {
                    Some(&themes@[m.theme_idx as int].color_scheme)
                } else {
                    ctx.scheme
                },
                None => ctx.scheme,
            },
            r.embed_images == ctx.embed_images,
    {
        let layout = layout_of(slide, layouts);
        let master = master_of(layout, masters);
        match master {
            Some(m) => {
                let cm = resolve_clr_map(slide, layout, m);
                ctx.for_slide(
                    themes,
                    if cm.is_empty() {
                        None
                    } else {
                        Some(cm)
                    },
                    Some(m.theme_idx),
                )
            },
            None => ctx.for_slide(themes, None, None),
        }
    }

    /// Open a slide: resolve its layout and master, its color map (slide override,
    /// layout override or master map) and its master's theme into a slide context;
    /// write the slide shell (sized to the scaled slide) and the slide frame styled with
    /// the inherited background and the scale; and record where the background came
    /// from. Returns the slide context. `slide_scale` is in ten-thousandths.
    pub fn begin_slide<'a>(
        slide: &'a Slide,
        num: usize,
        slide_w: i64,
        slide_h: i64,
        slide_scale: u32,
        layouts: &'a [SlideLayout],
        masters: &'a [SlideMaster],
        themes: &'a [Theme],
        ctx: &RenderCtx<'a>,
        coll: &mut RenderCollector,
        html: &mut String,
    ) -> (r: RenderCtx<'a>)
        requires
            backgrounds_ready(
                *slide,
                slide_layout(*slide, layouts@),
                slide_master(*slide, layouts@, masters@),
                *old(coll),
            ),
        ensures
            opt(r.clr_map) == match slide_clr_map(
                *slide,
                slide_layout(*slide, layouts@),
                slide_master(*slide, layouts@, masters@),
            ) {
                Some(m) => Some(m),
                None => opt(ctx.clr_map),
            },
            r.scheme == match slide_master(*slide, layouts@, masters@) {
                Some(m) => if m.theme_idx < themes@.len() {
                    Some(&themes@[m.theme_idx as int].color_scheme)
                } else {
                    ctx.scheme
                },
                None => ctx.scheme,
            },
            r.embed_images == ctx.embed_images,
            forall|f: Fill|
                #[trigger] background_from(
                    f,
                    *slide,
                    slide_layout(*slide, layouts@),
                    slide_master(*slide, layouts@, masters@),
                ) ==> {
                    &&& final(html)@ == old(html)@ + spec_slide_open(
                        num as int,
                        slide_w as int,
                        slide_h as int,
                        slide_scale as int,
                        spec_fill_to_css(f, r, next_asset_path(f, *old(coll))),
                    )
                    &&& exports_image(f, r) ==> {
                        &&& final(coll).external_assets@.len() == old(coll).external_assets@.len()
                            + 1
                        &&& final(coll).external_assets@.drop_last() == old(coll).external_assets@
                        &&& final(coll).external_assets@.last().relative_path@ == next_asset_path(
                            f,
                            *old(coll),
                        )
                        &&& final(coll).external_assets@.last().data@ == fill_data(f)
                        &&& final(coll).external_assets@.last().content_type@ == fill_mime(f)
                    }
                    &&& !exports_image(f, r) ==> final(coll).external_assets@
                        == old(coll).external_assets@
                    &&& final(coll).asset_counter == old(coll).asset_counter + if exports_image(
                        f,
                        r,
                    ) {
                        1int
                    } else {
                        0int
                    }
                },
            exists|f: Fill|
                background_from(
                    f,
                    *slide,
                    slide_layout(*slide, layouts@),
                    slide_master(*slide, layouts@, masters@),
                ),
            final(coll).provenance_entries@.len() == old(coll).provenance_entries@.len() + 1,
            final(coll).provenance_entries@.drop_last() == old(coll).provenance_entries@,
            background_entry_ok(
                final(coll).provenance_entries@.last(),
                num as int,
                spec_background_source(
                    *slide,
                    slide_layout(*slide, layouts@),
                    slide_master(*slide, layouts@, masters@),
                ),
            ),
            final(coll).font_resolution_entries@ == old(coll).font_resolution_entries@,
            final(coll).current_slide_index == old(coll).current_slide_index,
            final(coll).gradient_counter == old(coll).gradient_counter,
            final(coll).marker_counter == old(coll).marker_counter,
            final(coll).counter == old(coll).counter,
            final(coll).elements@ == old(coll).elements@,
    {
        let layout = layout_of(slide, layouts);
        let master = master_of(layout, masters);
        let slide_ctx = Self::slide_ctx(slide, layouts, masters, themes, ctx);
        let bg = resolve_background(slide, layout, master);
        let ghost c0 = *old(coll);
        proof {
            assert(fill_css_ready(bg, c0));
        }
        let bg_style = Self::fill_to_css(&bg, &slide_ctx, coll);
        push_slide_open(html, num, slide_w, slide_h, slide_scale, bg_style.as_str());
        let source = background_source(slide, layout, master);
        coll.push_provenance(
            RenderedProvenanceEntry {
                slide_index: num,
                subject: ProvenanceSubject::SlideBackground,
                shape_name: None,
                fill_source: None,
                border_source: None,
                text_source: None,
                background_source: Some(source),
            },
        );
        proof {
            assert(background_from(
                bg,
                *slide,
                slide_layout(*slide, layouts@),
                slide_master(*slide, layouts@, masters@),
            ));
            assert forall|f: Fill|
                background_from(
                    f,
                    *slide,
                    slide_layout(*slide, layouts@),
                    slide_master(*slide, layouts@, masters@),
                ) implies spec_fill_to_css(f, slide_ctx, next_asset_path(f, c0)) == spec_fill_to_css(
                bg,
                slide_ctx,
                next_asset_path(bg, c0),
            ) && exports_image(f, slide_ctx) == exports_image(bg, slide_ctx) && next_asset_path(f, c0)
                == next_asset_path(bg, c0) && (exports_image(f, slide_ctx) ==> fill_data(f) == fill_data(
                bg,
            )) by {
                lemma_background_css_unique(
                    f,
                    bg,
                    *slide,
                    slide_layout(*slide, layouts@),
                    slide_master(*slide, layouts@, masters@),
                    slide_ctx,
                    c0,
                );
            }
        }
        slide_ctx
    }

    /// The shapes a slide renders, in order: when the slide (and its layout) show the
    /// master's shapes, the master's visible shapes that are not placeholders; then the
    /// slide's visible shapes, each with the placeholder it matches in the layout and in
    /// the master.
    pub fn slide_shapes_to_render<'a>(
        slide: &'a Slide,
        layouts: &'a [SlideLayout],
        masters: &'a [SlideMaster],
    ) -> (r: Vec<PlannedShape<'a>>)
        ensures
            planned_view(r@) == spec_slide_plan(*slide, layouts@, masters@),
    {
        let layout = layout_of(slide, layouts);
        let master = master_of(layout, masters);
        let ghost ol = opt(layout);
        let ghost om = opt(master);
        let mut plan: Vec<PlannedShape<'a>> = Vec::new();
        let show = slide.show_master_sp && match layout {
            Some(l) => l.show_master_sp,
            None => true,
        };
        if show {
            if let Some(m) = master {
                let mut i: usize = 0;
                while i < m.shapes.len()
                    invariant
                        i <= m.shapes@.len(),
                        planned_view(plan@) == master_entries(m.shapes@.take(i as int)),
                    decreases m.shapes@.len() - i,
                {
                    let s = &m.shapes[i];
                    let ghost before = plan@;
                    if !s.hidden && s.placeholder.is_none() {
                        plan.push(PlannedShape { shape: s, layout_match: None, master_match: None });
                        proof {
                            assert(planned_view(plan@) =~= planned_view(before).push((*s, None, None)));
                        }
                    }
                    proof {
                        let t1 = m.shapes@.take(i as int + 1);
                        assert(t1.drop_last() =~= m.shapes@.take(i as int));
                        assert(t1.last() == m.shapes@[i as int]);
                    }
                    i = i + 1;
                }
                proof {
                    assert(m.shapes@.take(m.shapes@.len() as int) =~= m.shapes@);
                }
            }
        }
        let ghost head = planned_view(plan@);
        proof {
            assert(head == (if shows_master_shapes(*slide, ol) && om is Some {
                master_entries(om.unwrap().shapes@)
            } else {
                Seq::empty()
            }));
            assert(slide.shapes@.take(0) =~= Seq::<Shape>::empty());
            assert(head + slide_entries(slide.shapes@.take(0), ol, om) =~= head);
        }
        let mut j: usize = 0;
        while j < slide.shapes.len()
            invariant
                j <= slide.shapes@.len(),
                ol == opt(layout),
                om == opt(master),
                planned_view(plan@) == head + slide_entries(slide.shapes@.take(j as int), ol, om),
            decreases slide.shapes@.len() - j,
        {
            let s = &slide.shapes[j];
            let ghost before = plan@;
            if !s.hidden {
                let (lm, mm) = match &s.placeholder {
                    Some(ph) => (
                        match layout {
                            Some(l) => find_matching_placeholder(ph, l.shapes.as_slice()),
                            None => None,
                        },
                        match master {
                            Some(m) => find_matching_placeholder(ph, m.shapes.as_slice()),
                            None => None,
                        },
                    ),
                    None => (None, None),
                };
                plan.push(PlannedShape { shape: s, layout_match: lm, master_match: mm });
                proof {
                    assert(opt(lm) == match_in(s.placeholder, shapes_of_layout(ol)));
                    assert(opt(mm) == match_in(s.placeholder, shapes_of_master(om)));
                    assert(planned_view(plan@) =~= planned_view(before).push(
                        (*s, opt(lm), opt(mm)),
                    ));
                }
            }
            proof {
                let t1 = slide.shapes@.take(j as int + 1);
                assert(t1.drop_last() =~= slide.shapes@.take(j as int));
                assert(t1.last() == slide.shapes@[j as int]);
            }
            j = j + 1;
        }
        proof {
            assert(slide.shapes@.take(slide.shapes@.len() as int) =~= slide.shapes@);
        }
        plan
    }
}

} // verus!
