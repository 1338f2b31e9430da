//! A whole presentation: the document head, each slide the conversion options select, in
//! order, and the closing tags, with what the rendering collected.
use vstd::prelude::*;
use vstd::seq_lib::lemma_concat_associative;

use crate::model::fill::Fill;
use crate::model::hierarchy::{Presentation, SlideMaster, Theme};
use crate::model::shape::ListStyle;
use crate::provenance::{provenance_view, ProvenanceRecord, RenderedProvenanceEntry};
use crate::renderer::context::{
    elements_view, ExternalAsset, RenderCollector, RenderCtx, UnresolvedElement, UnresolvedRecord,
};
use crate::renderer::document::{spec_document_head, spec_global_css};
use crate::renderer::html::spec_escape_html;
use crate::renderer::fill_css::HtmlRenderer;
use crate::renderer::table::{added_entries, asset_views};
use crate::renderer::shape::{elements_numbered, spec_unresolved_id};
use crate::renderer::shape_html::{same_counters, ShapeDrawing};
use crate::renderer::slide::{background_entry, backgrounds_ready, slide_layout, slide_master, spec_slide_plan};
use crate::renderer::slide_html::{
    after_background, lemma_shapes_fonts_unique, lemma_slide_congruent, shapes_counters_from, shapes_fonts_upto, shapes_provenance_from, shapes_ready_from,
    shapes_records_from, slide_assets,
    spec_slide_ctx, spec_slide_html,
};
use crate::resolver::inheritance::{background_from, spec_background_source};
use crate::strings::push_str;
use crate::text_metrics::{fonts_view, lemma_fonts_view_joined, FontResolutionEntry};

verus! {

/// What a conversion renders: whether images are embedded, whether hidden slides are
/// included, which slides (1-based) are selected (all when none are named), and the
/// scale of the slides in ten-thousandths (one when not given).
pub struct ConversionOptions {
    pub embed_images: bool,
    pub include_hidden: bool,
    pub slide_indices: Option<Vec<usize>>,
    pub scale: Option<u32>,
}

impl Default for ConversionOptions {
    /// Embedded images, hidden slides left out, every slide, scale one.
    fn default() -> (r: ConversionOptions)
        ensures
            r.embed_images,
            !r.include_hidden,
            r.slide_indices is None,
            r.scale is None,
    {
        ConversionOptions { embed_images: true, include_hidden: false, slide_indices: None, scale: None }
    }
}

/// What a conversion gives: the HTML, the images written next to it, the typeface and
/// provenance records, the elements it could not draw, and the number of slides.
pub struct ConversionResult {
    pub html: String,
    pub external_assets: Vec<ExternalAsset>,
    pub font_resolution_entries: Vec<FontResolutionEntry>,
    pub provenance_entries: Vec<RenderedProvenanceEntry>,
    pub unresolved_elements: Vec<UnresolvedElement>,
    pub slide_count: usize,
}

/// Slide `one_based` is rendered: it is not hidden unless hidden slides are included, and
/// it is among the selected slides when some are selected.
pub open spec fn spec_include(opts: ConversionOptions, one_based: int, hidden: bool) -> bool {
    &&& (!hidden || opts.include_hidden)
    &&& match opts.slide_indices {
        Some(v) => v@.contains(one_based as usize),
        None => true,
    }
}

/// The scale of the slides in ten-thousandths.
pub open spec fn spec_effective_scale(opts: ConversionOptions) -> u32 {
    match opts.scale {
        Some(s) => s,
        None => 10000,
    }
}

/// The primary theme: the first.
pub open spec fn primary_theme_of<'a>(p: &'a Presentation) -> Option<&'a Theme> {
    if p.themes@.len() > 0 {
        Some(&p.themes@[0])
    } else {
        None
    }
}

/// The first slide master.
pub open spec fn first_master_of<'a>(p: &'a Presentation) -> Option<&'a SlideMaster> {
    if p.masters@.len() > 0 {
        Some(&p.masters@[0])
    } else {
        None
    }
}

/// The presentation's default text style.
pub open spec fn default_style_of<'a>(p: &'a Presentation) -> Option<&'a ListStyle> {
    match &p.default_text_style {
        Some(l) => Some(l),
        None => None,
    }
}

/// The rendering context of a presentation: the primary theme's color scheme, its color
/// map when it has entries, and whether images are embedded.
pub open spec fn doc_ctx<'a>(p: &'a Presentation, opts: ConversionOptions) -> RenderCtx<'a> {
    RenderCtx {
        scheme: match primary_theme_of(p) {
            Some(t) => Some(&t.color_scheme),
            None => None,
        },
        clr_map: if p.clr_map.entries@.len() == 0 {
            None
        } else {
            Some(&p.clr_map)
        },
        embed_images: opts.embed_images,
    }
}

/// The background slide `i` shows.
pub open spec fn slide_bg(p: &Presentation, i: int) -> Fill {
    choose|f: Fill|
        background_from(
            f,
            p.slides@[i],
            slide_layout(p.slides@[i], p.layouts@),
            slide_master(p.slides@[i], p.layouts@, p.masters@),
        )
}

/// The collector as slide index `i` is entered.
pub open spec fn entering(c: RenderCollector, i: int) -> RenderCollector {
    RenderCollector { current_slide_index: i as usize, ..c }
}

/// The slide context of slide `i`.
pub open spec fn slide_ctx_of<'a>(p: &'a Presentation, opts: ConversionOptions, i: int) -> RenderCtx<'a> {
    spec_slide_ctx(p.slides@[i], p.layouts@, p.masters@, p.themes@, doc_ctx(p, opts))
}

/// The collector counters after slide `i` is rendered from `c`.
pub open spec fn after_slide(
    p: &Presentation,
    opts: ConversionOptions,
    drawings: Seq<Vec<ShapeDrawing>>,
    i: int,
    c: RenderCollector,
) -> RenderCollector {
    let sctx = slide_ctx_of(p, opts, i);
    shapes_counters_from(
        spec_slide_plan(p.slides@[i], p.layouts@, p.masters@),
        sctx,
        primary_theme_of(p),
        drawings[i]@,
        0,
        after_background(slide_bg(p, i), sctx, entering(c, i)),
    )
}

/// HTML of the selected slides from slide index `i` on, rendered from collector `c`.
pub open spec fn slides_from(
    p: &Presentation,
    opts: ConversionOptions,
    drawings: Seq<Vec<ShapeDrawing>>,
    i: int,
    c: RenderCollector,
) -> Seq<char>
    decreases p.slides@.len() - i,
{
    if i < 0 || i >= p.slides@.len() {
        Seq::empty()
    } else if !spec_include(opts, i + 1, p.slides@[i].hidden) {
        slides_from(p, opts, drawings, i + 1, c)
    } else {
        spec_slide_html(
            p.slides@[i],
            i + 1,
            p.slide_size.width.0 as int,
            p.slide_size.height.0 as int,
            spec_effective_scale(opts) as int,
            p.layouts@,
            p.masters@,
            p.themes@,
            doc_ctx(p, opts),
            primary_theme_of(p),
            first_master_of(p),
            default_style_of(p),
            drawings[i]@,
            slide_bg(p, i),
            entering(c, i),
        ) + slides_from(p, opts, drawings, i + 1, after_slide(p, opts, drawings, i, c))
    }
}

/// The unresolved elements the selected slides from slide index `i` on record after `n`
/// others: those of each slide's shapes in order, on that slide's index.
pub open spec fn slides_records_from(
    p: &Presentation,
    opts: ConversionOptions,
    drawings: Seq<Vec<ShapeDrawing>>,
    i: int,
    n: nat,
) -> Seq<UnresolvedRecord>
    decreases p.slides@.len() - i,
{
    if i < 0 || i >= p.slides@.len() {
        Seq::empty()
    } else if !spec_include(opts, i + 1, p.slides@[i].hidden) {
        slides_records_from(p, opts, drawings, i + 1, n)
    } else {
        let r = shapes_records_from(
            spec_slide_plan(p.slides@[i], p.layouts@, p.masters@),
            drawings[i]@,
            0,
            i as nat,
            n,
        );
        r + slides_records_from(p, opts, drawings, i + 1, n + r.len())
    }
}

/// The provenance records of the selected slides from slide index `i` on: for each, its
/// background's record, then those of its shapes in order.
pub open spec fn slides_provenance_from(p: &Presentation, opts: ConversionOptions, i: int) -> Seq<ProvenanceRecord>
    decreases p.slides@.len() - i,
{
    if i < 0 || i >= p.slides@.len() {
        Seq::empty()
    } else if !spec_include(opts, i + 1, p.slides@[i].hidden) {
        slides_provenance_from(p, opts, i + 1)
    } else {
        let slide = p.slides@[i];
        seq![
            background_entry(
                (i + 1) as nat,
                spec_background_source(
                    slide,
                    slide_layout(slide, p.layouts@),
                    slide_master(slide, p.layouts@, p.masters@),
                ),
            ),
        ] + shapes_provenance_from(
            spec_slide_plan(slide, p.layouts@, p.masters@),
            first_master_of(p),
            default_style_of(p),
            0,
            i as nat,
        ) + slides_provenance_from(p, opts, i + 1)
    }
}

/// The images the selected slides from slide index `i` on export after `n` others: those
/// of each slide's background and shapes in order.
pub open spec fn slides_assets_from(
    p: &Presentation,
    opts: ConversionOptions,
    drawings: Seq<Vec<ShapeDrawing>>,
    i: int,
    n: int,
) -> Seq<(Seq<char>, Seq<char>, Seq<u8>)>
    decreases p.slides@.len() - i,
{
    if i < 0 || i >= p.slides@.len() {
        Seq::empty()
    } else if !spec_include(opts, i + 1, p.slides@[i].hidden) {
        slides_assets_from(p, opts, drawings, i + 1, n)
    } else {
        let a = slide_assets(
            p.slides@[i],
            p.layouts@,
            p.masters@,
            p.themes@,
            doc_ctx(p, opts),
            primary_theme_of(p),
            drawings[i]@,
            slide_bg(p, i),
            i,
            n,
        );
        a + slides_assets_from(p, opts, drawings, i + 1, n + a.len())
    }
}

/// The typeface records of the selected slides before slide index `i`, in order: those of
/// the slides before the last selected one, then that slide's shapes'.
pub open spec fn slides_fonts_upto(
    entries: Seq<FontResolutionEntry>,
    p: &Presentation,
    opts: ConversionOptions,
    i: int,
) -> bool
    decreases i,
{
    if i <= 0 || i > p.slides@.len() {
        entries.len() == 0
    } else if !spec_include(opts, i, p.slides@[i - 1].hidden) {
        slides_fonts_upto(entries, p, opts, i - 1)
    } else {
        let plan = spec_slide_plan(p.slides@[i - 1], p.layouts@, p.masters@);
        exists|k: int|
            0 <= k <= entries.len() && slides_fonts_upto(#[trigger] entries.subrange(0, k), p, opts, i - 1)
                && shapes_fonts_upto(
                entries.subrange(k, entries.len() as int),
                plan,
                slide_ctx_of(p, opts, i - 1),
                primary_theme_of(p),
                first_master_of(p),
                default_style_of(p),
                plan.len() as int,
                i - 1,
            )
    }
}

/// The typeface records of the selected slides before slide index `i` are determined by
/// them.
proof fn lemma_slides_fonts_unique(
    a: Seq<FontResolutionEntry>,
    b: Seq<FontResolutionEntry>,
    p: &Presentation,
    opts: ConversionOptions,
    i: int,
)
    requires
        slides_fonts_upto(a, p, opts, i),
        slides_fonts_upto(b, p, opts, i),
    ensures
        fonts_view(a) == fonts_view(b),
    decreases i,
{
    if i <= 0 || i > p.slides@.len() {
        assert(fonts_view(a) =~= fonts_view(b));
    } else if !spec_include(opts, i, p.slides@[i - 1].hidden) {
        lemma_slides_fonts_unique(a, b, p, opts, i - 1);
    } else {
        let plan = spec_slide_plan(p.slides@[i - 1], p.layouts@, p.masters@);
        let ka = choose|k: int|
            0 <= k <= a.len() && slides_fonts_upto(#[trigger] a.subrange(0, k), p, opts, i - 1)
                && shapes_fonts_upto(
                a.subrange(k, a.len() as int),
                plan,
                slide_ctx_of(p, opts, i - 1),
                primary_theme_of(p),
                first_master_of(p),
                default_style_of(p),
                plan.len() as int,
                i - 1,
            );
        let kb = choose|k: int|
            0 <= k <= b.len() && slides_fonts_upto(#[trigger] b.subrange(0, k), p, opts, i - 1)
                && shapes_fonts_upto(
                b.subrange(k, b.len() as int),
                plan,
                slide_ctx_of(p, opts, i - 1),
                primary_theme_of(p),
                first_master_of(p),
                default_style_of(p),
                plan.len() as int,
                i - 1,
            );
        lemma_slides_fonts_unique(a.subrange(0, ka), b.subrange(0, kb), p, opts, i - 1);
        lemma_shapes_fonts_unique(
            a.subrange(ka, a.len() as int),
            b.subrange(kb, b.len() as int),
            plan,
            slide_ctx_of(p, opts, i - 1),
            primary_theme_of(p),
            first_master_of(p),
            default_style_of(p),
            plan.len() as int,
            i - 1,
        );
        lemma_fonts_view_joined(a, b, ka, kb);
    }
}

/// The collector counters after the selected slides from slide index `i` on.
pub open spec fn slides_counters_from(
    p: &Presentation,
    opts: ConversionOptions,
    drawings: Seq<Vec<ShapeDrawing>>,
    i: int,
    c: RenderCollector,
) -> RenderCollector
    decreases p.slides@.len() - i,
{
    if i < 0 || i >= p.slides@.len() {
        c
    } else if !spec_include(opts, i + 1, p.slides@[i].hidden) {
        slides_counters_from(p, opts, drawings, i + 1, c)
    } else {
        slides_counters_from(p, opts, drawings, i + 1, after_slide(p, opts, drawings, i, c))
    }
}

/// The number of selected slides from slide index `i` on.
pub open spec fn included_from(p: &Presentation, opts: ConversionOptions, i: int) -> nat
    decreases p.slides@.len() - i,
{
    if i < 0 || i >= p.slides@.len() {
        0
    } else if !spec_include(opts, i + 1, p.slides@[i].hidden) {
        included_from(p, opts, i + 1)
    } else {
        included_from(p, opts, i + 1) + 1
    }
}

/// The selected slides from slide index `i` on can be rendered in turn from `c`: each
/// has one drawing per shape it draws, and its background and shapes fit the collector.
pub open spec fn slides_ready_from(
    p: &Presentation,
    opts: ConversionOptions,
    drawings: Seq<Vec<ShapeDrawing>>,
    i: int,
    c: RenderCollector,
) -> bool
    decreases p.slides@.len() - i,
{
    if i < 0 || i >= p.slides@.len() {
        true
    } else if !spec_include(opts, i + 1, p.slides@[i].hidden) {
        slides_ready_from(p, opts, drawings, i + 1, c)
    } else {
        let slide = p.slides@[i];
        let layout = slide_layout(slide, p.layouts@);
        let master = slide_master(slide, p.layouts@, p.masters@);
        let sctx = slide_ctx_of(p, opts, i);
        &&& drawings[i]@.len() == spec_slide_plan(slide, p.layouts@, p.masters@).len()
        &&& backgrounds_ready(slide, layout, master, entering(c, i))
        &&& forall|f: Fill|
            #[trigger] background_from(f, slide, layout, master) ==> shapes_ready_from(
                spec_slide_plan(slide, p.layouts@, p.masters@),
                sctx,
                primary_theme_of(p),
                first_master_of(p),
                default_style_of(p),
                drawings[i]@,
                0,
                after_background(f, sctx, entering(c, i)),
            )
        &&& slides_ready_from(p, opts, drawings, i + 1, after_slide(p, opts, drawings, i, c))
    }
}

/// Two collectors with the same element, asset, gradient and marker counters.
pub open spec fn same_progress(a: RenderCollector, b: RenderCollector) -> bool {
    &&& a.counter == b.counter
    &&& a.asset_counter == b.asset_counter
    &&& a.gradient_counter == b.gradient_counter
    &&& a.marker_counter == b.marker_counter
}

/// A collector that has counted nothing yet.
pub open spec fn fresh(c: RenderCollector) -> bool {
    &&& c.counter == 0
    &&& c.asset_counter == 0
    &&& c.gradient_counter == 0
    &&& c.marker_counter == 0
}

/// The HTML of a presentation rendered with `opts`: the document head, the selected
/// slides in order, and the closing tags.
pub open spec fn spec_document(
    p: &Presentation,
    opts: ConversionOptions,
    drawings: Seq<Vec<ShapeDrawing>>,
    c: RenderCollector,
) -> Seq<char> {
    spec_document_head(
        match p.title {
            Some(t) => Some(t@),
            None => None,
        },
        p.slide_size.width.0 as int,
        p.slide_size.height.0 as int,
    ) + slides_from(p, opts, drawings, 0, c) + "</div>\n</body>\n</html>"@
}

proof fn lemma_slides_congruent(
    p: &Presentation,
    opts: ConversionOptions,
    drawings: Seq<Vec<ShapeDrawing>>,
    i: int,
    a: RenderCollector,
    b: RenderCollector,
)
    requires
        same_progress(a, b),
    ensures
        slides_from(p, opts, drawings, i, a) == slides_from(p, opts, drawings, i, b),
        slides_ready_from(p, opts, drawings, i, a) == slides_ready_from(p, opts, drawings, i, b),
        same_progress(
            slides_counters_from(p, opts, drawings, i, a),
            slides_counters_from(p, opts, drawings, i, b),
        ),
    decreases p.slides@.len() - i,
{
    if 0 <= i < p.slides@.len() {
        if !spec_include(opts, i + 1, p.slides@[i].hidden) {
            lemma_slides_congruent(p, opts, drawings, i + 1, a, b);
        } else {
            lemma_slide_entry_congruent(p, opts, drawings, i, a, b);
            lemma_slides_congruent(
                p,
                opts,
                drawings,
                i + 1,
                after_slide(p, opts, drawings, i, a),
                after_slide(p, opts, drawings, i, b),
            );
        }
    }
}

proof fn lemma_slide_entry_congruent(
    p: &Presentation,
    opts: ConversionOptions,
    drawings: Seq<Vec<ShapeDrawing>>,
    i: int,
    a: RenderCollector,
    b: RenderCollector,
)
    requires
        same_progress(a, b),
        0 <= i < p.slides@.len(),
    ensures
        same_progress(after_slide(p, opts, drawings, i, a), after_slide(p, opts, drawings, i, b)),
        spec_slide_html(
            p.slides@[i],
            i + 1,
            p.slide_size.width.0 as int,
            p.slide_size.height.0 as int,
            spec_effective_scale(opts) as int,
            p.layouts@,
            p.masters@,
            p.themes@,
            doc_ctx(p, opts),
            primary_theme_of(p),
            first_master_of(p),
            default_style_of(p),
            drawings[i]@,
            slide_bg(p, i),
            entering(a, i),
        ) == spec_slide_html(
            p.slides@[i],
            i + 1,
            p.slide_size.width.0 as int,
            p.slide_size.height.0 as int,
            spec_effective_scale(opts) as int,
            p.layouts@,
            p.masters@,
            p.themes@,
            doc_ctx(p, opts),
            primary_theme_of(p),
            first_master_of(p),
            default_style_of(p),
            drawings[i]@,
            slide_bg(p, i),
            entering(b, i),
        ),
        ({
            let slide = p.slides@[i];
            let layout = slide_layout(slide, p.layouts@);
            let master = slide_master(slide, p.layouts@, p.masters@);
            let sctx = slide_ctx_of(p, opts, i);
            &&& backgrounds_ready(slide, layout, master, entering(a, i))
                == backgrounds_ready(slide, layout, master, entering(b, i))
            &&& forall|f: Fill|
                #[trigger] background_from(f, slide, layout, master) ==> (shapes_ready_from(
                    spec_slide_plan(slide, p.layouts@, p.masters@),
                    sctx,
                    primary_theme_of(p),
                    first_master_of(p),
                    default_style_of(p),
                    drawings[i]@,
                    0,
                    after_background(f, sctx, entering(a, i)),
                ) == shapes_ready_from(
                    spec_slide_plan(slide, p.layouts@, p.masters@),
                    sctx,
                    primary_theme_of(p),
                    first_master_of(p),
                    default_style_of(p),
                    drawings[i]@,
                    0,
                    after_background(f, sctx, entering(b, i)),
                ))
        }),
{
    let slide = p.slides@[i];
    let ea = entering(a, i);
    let eb = entering(b, i);
    assert(same_counters(ea, eb));
    lemma_slide_congruent(
        slide,
        i + 1,
        p.slide_size.width.0 as int,
        p.slide_size.height.0 as int,
        spec_effective_scale(opts) as int,
        p.layouts@,
        p.masters@,
        p.themes@,
        doc_ctx(p, opts),
        primary_theme_of(p),
        first_master_of(p),
        default_style_of(p),
        drawings[i]@,
        slide_bg(p, i),
        ea,
        eb,
    );
    assert forall|f: Fill|
        #[trigger] background_from(
            f,
            slide,
            slide_layout(slide, p.layouts@),
            slide_master(slide, p.layouts@, p.masters@),
        ) implies (shapes_ready_from(
        spec_slide_plan(slide, p.layouts@, p.masters@),
        slide_ctx_of(p, opts, i),
        primary_theme_of(p),
        first_master_of(p),
        default_style_of(p),
        drawings[i]@,
        0,
        after_background(f, slide_ctx_of(p, opts, i), ea),
    ) == shapes_ready_from(
        spec_slide_plan(slide, p.layouts@, p.masters@),
        slide_ctx_of(p, opts, i),
        primary_theme_of(p),
        first_master_of(p),
        default_style_of(p),
        drawings[i]@,
        0,
        after_background(f, slide_ctx_of(p, opts, i), eb),
    )) by {
        lemma_slide_congruent(
            slide,
            i + 1,
            p.slide_size.width.0 as int,
            p.slide_size.height.0 as int,
            spec_effective_scale(opts) as int,
            p.layouts@,
            p.masters@,
            p.themes@,
            doc_ctx(p, opts),
            primary_theme_of(p),
            first_master_of(p),
            default_style_of(p),
            drawings[i]@,
            f,
            ea,
            eb,
        );
    }
}

/// What converting `p` with `opts` and `drawings` gives (see
/// `HtmlRenderer::render_with_options_metadata`): the document's HTML, as many unresolved
/// elements and exported images as the rendering counted, the number of slides rendered,
/// the unresolved elements, provenance records, exported images and typeface records of
/// the selected slides in order, and unresolved elements numbered in order.
pub open spec fn conversion_of(
    p: &Presentation,
    opts: ConversionOptions,
    drawings: Seq<Vec<ShapeDrawing>>,
    r: ConversionResult,
) -> bool {
    &&& forall|c: RenderCollector|
        fresh(c) ==> {
            &&& r.html@ == #[trigger] spec_document(p, opts, drawings, c)
            &&& r.unresolved_elements@.len() == slides_counters_from(
                p,
                opts,
                drawings,
                0,
                c,
            ).counter
            &&& r.external_assets@.len() == slides_counters_from(
                p,
                opts,
                drawings,
                0,
                c,
            ).asset_counter
        }
    &&& r.slide_count == included_from(p, opts, 0)
    &&& elements_view(r.unresolved_elements@) == slides_records_from(p, opts, drawings, 0, 0)
    &&& provenance_view(r.provenance_entries@) == slides_provenance_from(p, opts, 0)
    &&& asset_views(r.external_assets@) == slides_assets_from(p, opts, drawings, 0, 0)
    &&& slides_fonts_upto(r.font_resolution_entries@, p, opts, p.slides@.len() as int)
    &&& forall|i: int|
        0 <= i < r.unresolved_elements@.len() ==> (#[trigger] r.unresolved_elements@[i]).placeholder_id@
            == spec_unresolved_id(r.unresolved_elements@[i].slide_index as nat, i as nat)
}

/// A presentation can be rendered with `opts` and `drawings`: one list of drawings per
/// slide, and the selected slides fit a collector that has counted nothing yet.
pub open spec fn document_ready(
    p: &Presentation,
    opts: ConversionOptions,
    drawings: Seq<Vec<ShapeDrawing>>,
) -> bool {
    &&& drawings.len() == p.slides@.len()
    &&& forall|c: RenderCollector| fresh(c) ==> #[trigger] slides_ready_from(p, opts, drawings, 0, c)
}

impl HtmlRenderer {
    /// Whether slide `one_based` is rendered (see `spec_include`).
    pub fn should_include_slide(opts: &ConversionOptions, one_based: usize, hidden: bool) -> (r: bool)
        ensures
            r == spec_include(*opts, one_based as int, hidden),
    {
        if hidden && !opts.include_hidden {
            return false;
        }
        match &opts.slide_indices {
            Some(v) => {
                let mut i: usize = 0;
                while i < v.len()
                    invariant
                        i <= v@.len(),
                        opts.slide_indices == Some(*v),
                        !hidden || opts.include_hidden,
                        forall|j: int| 0 <= j < i ==> v@[j] != one_based,
                    decreases v@.len() - i,
                {
                    if v[i] == one_based {
                        proof {
                            assert(v@[i as int] == one_based);
                            assert(v@.contains(one_based));
                        }
                        return true;
                    }
                    i = i + 1;
                }
                false
            },
            None => true,
        }
    }

    /// The scale of the slides in ten-thousandths: the one given, else one.
    pub fn effective_scale(opts: &ConversionOptions) -> (r: u32)
        ensures
            r == spec_effective_scale(*opts),
    {
        match opts.scale {
            Some(s) => s,
            None => 10000,
        }
    }

    /// Renders a presentation to one self-contained HTML document: the head (see
    /// `begin_document`), then each slide that `opts` selects, in order, with its slide
    /// index set in the collector (see `render_slide`; `drawings[i]` are the drawings of
    /// slide `i`'s shapes), then the closing tags. The result also holds the exported
    /// images, typeface and provenance records, the unresolved elements (numbered in
    /// order, so their ids are distinct) and the number of slides rendered, each as
    /// `conversion_of` states it.
    #[verifier::rlimit(50)]
    pub fn render_with_options_metadata(
        pres: &Presentation,
        opts: &ConversionOptions,
        drawings: &[Vec<ShapeDrawing<'_>>],
    ) -> (r: ConversionResult)
        requires
            document_ready(pres, *opts, drawings@),
        ensures
            conversion_of(pres, *opts, drawings@, r),
    {
        let mut coll = RenderCollector {
            elements: Vec::new(),
            external_assets: Vec::new(),
            font_resolution_entries: Vec::new(),
            provenance_entries: Vec::new(),
            counter: 0,
            current_slide_index: 0,
            gradient_counter: 0,
            marker_counter: 0,
            asset_counter: 0,
        };
        let ghost c0 = coll;
        let theme: Option<&Theme> = if pres.themes.len() > 0 {
            Some(&pres.themes[0])
        } else {
            None
        };
        let first_master: Option<&SlideMaster> = if pres.masters.len() > 0 {
            Some(&pres.masters[0])
        } else {
            None
        };
        let default_text_style: Option<&ListStyle> = match &pres.default_text_style {
            Some(l) => Some(l),
            None => None,
        };
        let ctx = RenderCtx {
            scheme: match theme {
                Some(t) => Some(&t.color_scheme),
                None => None,
            },
            clr_map: if pres.clr_map.entries.len() == 0 {
                None
            } else {
                Some(&pres.clr_map)
            },
            embed_images: opts.embed_images,
        };
        proof {
            assert(ctx == doc_ctx(pres, *opts));
            assert(fresh(c0));
            assert(slides_ready_from(pres, *opts, drawings@, 0, c0));
            lemma_included_bounded(pres, *opts, 0);
        }
        let mut html = String::new();
        let title: Option<&str> = match &pres.title {
            Some(t) => Some(t.as_str()),
            None => None,
        };
        Self::begin_document(title, pres.slide_size.width.0, pres.slide_size.height.0, &mut html);
        let ghost head = html@;
        let scale = Self::effective_scale(opts);
        let mut count: usize = 0;
        let mut i: usize = 0;
        while i < pres.slides.len()
            invariant
                i <= pres.slides@.len(),
                drawings@.len() == pres.slides@.len(),
                ctx == doc_ctx(pres, *opts),
                theme == primary_theme_of(pres),
                first_master == first_master_of(pres),
                default_text_style == default_style_of(pres),
                scale == spec_effective_scale(*opts),
                fresh(c0),
                html@ + slides_from(pres, *opts, drawings@, i as int, coll) == head + slides_from(
                    pres,
                    *opts,
                    drawings@,
                    0,
                    c0,
                ),
                slides_ready_from(pres, *opts, drawings@, i as int, coll),
                same_progress(
                    slides_counters_from(pres, *opts, drawings@, i as int, coll),
                    slides_counters_from(pres, *opts, drawings@, 0, c0),
                ),
                count + included_from(pres, *opts, i as int) == included_from(pres, *opts, 0),
                included_from(pres, *opts, 0) <= pres.slides@.len(),
                elements_numbered(coll),
                coll.external_assets@.len() == coll.asset_counter,
                elements_view(coll.elements@) + slides_records_from(pres, *opts, drawings@, i as int, coll.counter as nat)
                    == slides_records_from(pres, *opts, drawings@, 0, 0),
                provenance_view(coll.provenance_entries@) + slides_provenance_from(pres, *opts, i as int)
                    == slides_provenance_from(pres, *opts, 0),
                asset_views(coll.external_assets@) + slides_assets_from(
                    pres,
                    *opts,
                    drawings@,
                    i as int,
                    coll.asset_counter as int,
                ) == slides_assets_from(pres, *opts, drawings@, 0, 0),
                slides_fonts_upto(coll.font_resolution_entries@, pres, *opts, i as int),
            decreases pres.slides@.len() - i,
        {
            proof {
                lemma_included_bounded(pres, *opts, i as int);
                lemma_included_bounded(pres, *opts, 0);
            }
            let slide = &pres.slides[i];
            let ghost prev = coll;
            let ghost before_html = html@;
            if Self::should_include_slide(opts, i + 1, slide.hidden) {
                coll.current_slide_index = i;
                proof {
                    assert(coll == entering(prev, i as int));
                }
                Self::render_slide(
                    slide,
                    i + 1,
                    pres.slide_size.width.0,
                    pres.slide_size.height.0,
                    scale,
                    pres.layouts.as_slice(),
                    pres.masters.as_slice(),
                    pres.themes.as_slice(),
                    &ctx,
                    theme,
                    first_master,
                    default_text_style,
                    drawings[i].as_slice(),
                    &mut coll,
                    &mut html,
                );
                proof {
                    let bg = slide_bg(pres, i as int);
                    assert(background_from(
                        bg,
                        pres.slides@[i as int],
                        slide_layout(pres.slides@[i as int], pres.layouts@),
                        slide_master(pres.slides@[i as int], pres.layouts@, pres.masters@),
                    ));
                    let after = after_slide(pres, *opts, drawings@, i as int, prev);
                    assert(same_progress(coll, after));
                    lemma_slides_congruent(pres, *opts, drawings@, i as int + 1, coll, after);
                    let part = spec_slide_html(
                        pres.slides@[i as int],
                        i + 1,
                        pres.slide_size.width.0 as int,
                        pres.slide_size.height.0 as int,
                        spec_effective_scale(*opts) as int,
                        pres.layouts@,
                        pres.masters@,
                        pres.themes@,
                        doc_ctx(pres, *opts),
                        primary_theme_of(pres),
                        first_master_of(pres),
                        default_style_of(pres),
                        drawings@[i as int]@,
                        bg,
                        entering(prev, i as int),
                    );
                    let rest = slides_from(pres, *opts, drawings@, i as int + 1, coll);
                    lemma_concat_associative(before_html, part, rest);
                    let r = shapes_records_from(
                        spec_slide_plan(pres.slides@[i as int], pres.layouts@, pres.masters@),
                        drawings@[i as int]@,
                        0,
                        i as nat,
                        prev.counter as nat,
                    );
                    assert(elements_view(coll.elements@).len() == coll.elements@.len());
                    assert(elements_view(prev.elements@).len() == prev.elements@.len());
                    lemma_concat_associative(
                        elements_view(prev.elements@),
                        r,
                        slides_records_from(pres, *opts, drawings@, i as int + 1, coll.counter as nat),
                    );
                    let sl = pres.slides@[i as int];
                    let bgp = seq![
                        background_entry(
                            (i + 1) as nat,
                            spec_background_source(
                                sl,
                                slide_layout(sl, pres.layouts@),
                                slide_master(sl, pres.layouts@, pres.masters@),
                            ),
                        ),
                    ];
                    let sp = shapes_provenance_from(
                        spec_slide_plan(sl, pres.layouts@, pres.masters@),
                        first_master_of(pres),
                        default_style_of(pres),
                        0,
                        i as nat,
                    );
                    let sa = slide_assets(
                        sl,
                        pres.layouts@,
                        pres.masters@,
                        pres.themes@,
                        doc_ctx(pres, *opts),
                        primary_theme_of(pres),
                        drawings@[i as int]@,
                        bg,
                        i as int,
                        prev.asset_counter as int,
                    );
                    assert(asset_views(coll.external_assets@).len() == coll.external_assets@.len());
                    assert(asset_views(prev.external_assets@).len() == prev.external_assets@.len());
                    lemma_concat_associative(
                        asset_views(prev.external_assets@),
                        sa,
                        slides_assets_from(pres, *opts, drawings@, i as int + 1, coll.asset_counter as int),
                    );
                    let fk = prev.font_resolution_entries@.len() as int;
                    let fe = coll.font_resolution_entries@;
                    assert(fe.subrange(0, fk) =~= prev.font_resolution_entries@);
                    assert(fe.subrange(fk, fe.len() as int) =~= added_entries(entering(prev, i as int), coll));
                    assert(slides_fonts_upto(fe.subrange(0, fk), pres, *opts, i as int));
                    assert(slides_fonts_upto(fe, pres, *opts, i as int + 1));
                    let restp = slides_provenance_from(pres, *opts, i as int + 1);
                    assert(provenance_view(prev.provenance_entries@) + slides_provenance_from(pres, *opts, i as int)
                        =~= provenance_view(coll.provenance_entries@) + restp);
                }
                count = count + 1;
            }
            i = i + 1;
        }
        let ghost body = html@;
        push_str(&mut html, "</div>\n</body>\n</html>");
        proof {
            assert(elements_view(coll.elements@) + slides_records_from(
                pres,
                *opts,
                drawings@,
                i as int,
                coll.counter as nat,
            ) =~= elements_view(coll.elements@));
            assert(provenance_view(coll.provenance_entries@) + slides_provenance_from(pres, *opts, i as int)
                =~= provenance_view(coll.provenance_entries@));
            assert(asset_views(coll.external_assets@) + slides_assets_from(
                pres,
                *opts,
                drawings@,
                i as int,
                coll.asset_counter as int,
            ) =~= asset_views(coll.external_assets@));
            assert forall|c: RenderCollector| fresh(c) implies {
                &&& html@ == #[trigger] spec_document(pres, *opts, drawings@, c)
                &&& coll.elements@.len() == slides_counters_from(pres, *opts, drawings@, 0, c).counter
                &&& coll.external_assets@.len() == slides_counters_from(
                    pres,
                    *opts,
                    drawings@,
                    0,
                    c,
                ).asset_counter
            } by {
                lemma_slides_congruent(pres, *opts, drawings@, 0, c0, c);
                assert(body =~= head + slides_from(pres, *opts, drawings@, 0, c0));
            }
        }
        ConversionResult {
            html,
            external_assets: coll.external_assets,
            font_resolution_entries: coll.font_resolution_entries,
            provenance_entries: coll.provenance_entries,
            unresolved_elements: coll.elements,
            slide_count: count,
        }
    }

    /// Renders a presentation with `opts` to its HTML (see `render_with_options_metadata`).
    pub fn render_with_options(
        pres: &Presentation,
        opts: &ConversionOptions,
        drawings: &[Vec<ShapeDrawing<'_>>],
    ) -> (r: String)
        requires
            document_ready(pres, *opts, drawings@),
        ensures
            forall|c: RenderCollector| fresh(c) ==> r@ == #[trigger] spec_document(pres, *opts, drawings@, c),
    {
        Self::render_with_options_metadata(pres, opts, drawings).html
    }

    /// Renders a presentation with the default options: images embedded, hidden slides
    /// left out, every other slide, scale one.
    pub fn render(pres: &Presentation, drawings: &[Vec<ShapeDrawing<'_>>]) -> (r: String)
        requires
            document_ready(
                pres,
                ConversionOptions { embed_images: true, include_hidden: false, slide_indices: None, scale: None },
                drawings@,
            ),
        ensures
            forall|c: RenderCollector|
                fresh(c) ==> r@ == #[trigger] spec_document(
                    pres,
                    ConversionOptions { embed_images: true, include_hidden: false, slide_indices: None, scale: None },
                    drawings@,
                    c,
                ),
    {
        let opts = ConversionOptions::default();
        Self::render_with_options(pres, &opts, drawings)
    }
}

/// Converting is deterministic: two conversions of the same presentation with the same
/// options and drawings give the same HTML, the same slide count, the same unresolved
/// elements, provenance records, exported images (paths, media types and bytes) and
/// typeface records.
pub proof fn conversions_agree(
    p: &Presentation,
    opts: ConversionOptions,
    drawings: Seq<Vec<ShapeDrawing>>,
    r1: ConversionResult,
    r2: ConversionResult,
)
    requires
        conversion_of(p, opts, drawings, r1),
        conversion_of(p, opts, drawings, r2),
    ensures
        r1.html@ == r2.html@,
        r1.slide_count == r2.slide_count,
        elements_view(r1.unresolved_elements@) == elements_view(r2.unresolved_elements@),
        provenance_view(r1.provenance_entries@) == provenance_view(r2.provenance_entries@),
        asset_views(r1.external_assets@) == asset_views(r2.external_assets@),
        fonts_view(r1.font_resolution_entries@) == fonts_view(r2.font_resolution_entries@),
{
    lemma_slides_fonts_unique(r1.font_resolution_entries@, r2.font_resolution_entries@, p, opts, p.slides@.len() as int);
    let c = RenderCollector {
        elements: arbitrary(),
        external_assets: arbitrary(),
        font_resolution_entries: arbitrary(),
        provenance_entries: arbitrary(),
        counter: 0,
        current_slide_index: 0,
        gradient_counter: 0,
        marker_counter: 0,
        asset_counter: 0,
    };
    assert(fresh(c));
    assert(r1.html@ == spec_document(p, opts, drawings, c));
    assert(r2.html@ == spec_document(p, opts, drawings, c));
}

/// Every converted document holds the container `<div class="pptx-container">` that its
/// slides are laid out in.
pub proof fn document_holds_container(
    p: &Presentation,
    opts: ConversionOptions,
    drawings: Seq<Vec<ShapeDrawing>>,
    c: RenderCollector,
)
    ensures
        ({
            let doc = spec_document(p, opts, drawings, c);
            exists|i: int|
                0 <= i && i + 28 <= doc.len() && #[trigger] doc.subrange(i, i + 28)
                    == "<div class=\"pptx-container\">"@
        }),
{
    let title = match p.title {
        Some(t) => Some(t@),
        None => None,
    };
    let w = p.slide_size.width.0 as int;
    let h = p.slide_size.height.0 as int;
    let pre = "<!DOCTYPE html>\n<html lang=\"ko\">\n<head>\n<meta charset=\"UTF-8\">\n<meta name=\"viewport\" content=\"width=device-width, initial-scale=1.0\">\n<meta name=\"generator\" content=\"pptx2html-turbo\">\n"@
        + match title {
        Some(t) => "<title>"@ + spec_escape_html(t) + "</title>\n"@,
        None => "<title>Presentation</title>\n"@,
    } + "<style>\n"@ + spec_global_css(w, h);
    let tail = "</style>\n</head>\n<body>\n<div class=\"pptx-container\">\n"@;
    let rest = slides_from(p, opts, drawings, 0, c) + "</div>\n</body>\n</html>"@;
    let doc = spec_document(p, opts, drawings, c);
    reveal_strlit("</style>\n</head>\n<body>\n<div class=\"pptx-container\">\n");
    reveal_strlit("<div class=\"pptx-container\">");
    assert(spec_document_head(title, w, h) == pre + tail);
    assert(doc == (pre + tail) + rest);
    let i: int = pre.len() as int + 24;
    assert(doc.subrange(i, i + 28) =~= "<div class=\"pptx-container\">"@);
}

proof fn lemma_included_bounded(p: &Presentation, opts: ConversionOptions, i: int)
    requires
        0 <= i <= p.slides@.len(),
    ensures
        included_from(p, opts, i) <= p.slides@.len() - i,
    decreases p.slides@.len() - i,
{
    if i < p.slides@.len() {
        lemma_included_bounded(p, opts, i + 1);
    }
}

} // verus!
