//! The text body of a shape: its container `<div>` with padding, wrapping, writing mode
//! and transforms, and its paragraphs with the defaults they inherit.
use vstd::prelude::*;
use vstd::seq_lib::lemma_concat_associative;

use crate::model::color::ResolvedColor;
use crate::model::hierarchy::FontScheme;
use crate::model::shape::{AutoFit, ParagraphDefaults, Shape, TextBody, TextMargins, VerticalAlign};
use crate::model::text::TextParagraph;
use crate::provenance::{ProvenanceRecord, ProvenanceSubject, RenderedProvenanceEntry};
use crate::renderer::context::{RenderCollector, RenderCtx};
use crate::resolver::inheritance::{
    border_source, shape_fill_source, spec_border_source, spec_shape_fill_source,
};
use crate::renderer::fill_css::HtmlRenderer;
use crate::renderer::paragraph::{
    appended_run_entries, bullet_fits, clamped_level, counter_after, counters_after, hex_of,
    lemma_run_entries_len, lemma_run_entries_unique, next_counters, non_break_count, paragraph_run_defaults,
    paragraphs_bullets_fit, paragraphs_entries_ok, paragraphs_html, run_entries_ok,
    spec_paragraph_bullet, spec_paragraph_html,
};
use crate::renderer::run::{opt_str_view, same_but_fonts};
use crate::renderer::shape::flip_sign;
use crate::renderer::text_style::{
    deref, spec_level_defaults, spec_primary_source, spec_margin_side, spec_text_anchor_center, spec_text_auto_fit,
    spec_text_rotation, spec_text_vertical_align, spec_text_word_wrap, spec_vertical_text,
    TextStyleCtx,
};
use crate::strings::{fmt_fixed, push_fixed, push_str, str_equal};
use crate::text_metrics::{
    fonts_view, lemma_fonts_view_joined,
    classify_wrap_policy, runs_chars, scale_of, spec_wrap_policy, FontResolutionEntry,
    TextWrapPolicy,
};

verus! {

// ---------------------------------------------------------------------------
// Paragraphs with inherited defaults
// ---------------------------------------------------------------------------

/// The defaults a paragraph inherits: those of its (clamped) level in the text style
/// context.
pub open spec fn para_defaults(tctx: TextStyleCtx, p: TextParagraph) -> Option<ParagraphDefaults> {
    spec_level_defaults(tctx, clamped_level(p))
}

/// The numbering counters after paragraph `p`.
pub open spec fn next_counters_with(c: Seq<i32>, p: TextParagraph, tctx: TextStyleCtx) -> Seq<i32> {
    Seq::new(
        9,
        |i: int|
            counter_after(
                c,
                clamped_level(p),
                spec_paragraph_bullet(p, para_defaults(tctx, p)),
                i,
            ) as i32,
    )
}

/// The numbering counters after rendering `paras` from fresh counters.
pub open spec fn counters_after_with(paras: Seq<TextParagraph>, tctx: TextStyleCtx) -> Seq<i32>
    decreases paras.len(),
{
    if paras.len() == 0 {
        Seq::new(9, |i: int| 0i32)
    } else {
        next_counters_with(counters_after_with(paras.drop_last(), tctx), paras.last(), tctx)
    }
}

/// HTML of a text body's paragraphs, each with the defaults of its level, the shape's
/// font reference, and the auto-fit scale and line spacing reduction, numbered from fresh
/// counters.
pub open spec fn styled_paragraphs_html(
    ctx: RenderCtx,
    paras: Seq<TextParagraph>,
    fs: Option<&FontScheme>,
    tctx: TextStyleCtx,
    font_ref_font: Option<Seq<char>>,
    font_ref_color: Option<Seq<char>>,
    font_scale: Option<i32>,
    reduction: Option<i32>,
) -> Seq<char>
    decreases paras.len(),
{
    if paras.len() == 0 {
        Seq::empty()
    } else {
        let p = paras.last();
        styled_paragraphs_html(
            ctx,
            paras.drop_last(),
            fs,
            tctx,
            font_ref_font,
            font_ref_color,
            font_scale,
            reduction,
        ) + spec_paragraph_html(
            ctx,
            p,
            para_defaults(tctx, p),
            counters_after_with(paras.drop_last(), tctx)[clamped_level(p)] as int,
            reduction,
            paragraph_run_defaults(p, para_defaults(tctx, p), font_ref_font, font_ref_color, font_scale),
            fs,
        )
    }
}

/// `entries` are the typeface records of the runs of `paras`, paragraph by paragraph.
pub open spec fn styled_paragraphs_entries_ok(
    entries: Seq<FontResolutionEntry>,
    paras: Seq<TextParagraph>,
    slide_number: int,
    fs: Option<&FontScheme>,
    tctx: TextStyleCtx,
    font_ref_font: Option<Seq<char>>,
    font_ref_color: Option<Seq<char>>,
    font_scale: Option<i32>,
) -> bool
    decreases paras.len(),
{
    if paras.len() == 0 {
        entries.len() == 0
    } else {
        let p = paras.last();
        let n = non_break_count(p.runs@);
        &&& entries.len() >= n
        &&& run_entries_ok(
            entries.subrange(entries.len() - n, entries.len() as int),
            p.runs@,
            slide_number,
            paragraph_run_defaults(p, para_defaults(tctx, p), font_ref_font, font_ref_color, font_scale),
            fs,
        )
        &&& styled_paragraphs_entries_ok(
            entries.subrange(0, entries.len() - n),
            paras.drop_last(),
            slide_number,
            fs,
            tctx,
            font_ref_font,
            font_ref_color,
            font_scale,
        )
    }
}

/// The typeface records of styled paragraphs are determined by them.
pub(crate) proof fn lemma_styled_entries_unique(
    a: Seq<FontResolutionEntry>,
    b: Seq<FontResolutionEntry>,
    paras: Seq<TextParagraph>,
    slide_number: int,
    fs: Option<&FontScheme>,
    tctx: TextStyleCtx,
    font_ref_font: Option<Seq<char>>,
    font_ref_color: Option<Seq<char>>,
    font_scale: Option<i32>,
)
    requires
        styled_paragraphs_entries_ok(a, paras, slide_number, fs, tctx, font_ref_font, font_ref_color, font_scale),
        styled_paragraphs_entries_ok(b, paras, slide_number, fs, tctx, font_ref_font, font_ref_color, font_scale),
    ensures
        fonts_view(a) == fonts_view(b),
    decreases paras.len(),
{
    if paras.len() == 0 {
        assert(fonts_view(a) =~= fonts_view(b));
    } else {
        let p = paras.last();
        let n = non_break_count(p.runs@) as int;
        lemma_run_entries_unique(
            a.subrange(a.len() - n, a.len() as int),
            b.subrange(b.len() - n, b.len() as int),
            p.runs@,
            slide_number,
            paragraph_run_defaults(p, para_defaults(tctx, p), font_ref_font, font_ref_color, font_scale),
            fs,
        );
        lemma_styled_entries_unique(
            a.subrange(0, a.len() - n),
            b.subrange(0, b.len() - n),
            paras.drop_last(),
            slide_number,
            fs,
            tctx,
            font_ref_font,
            font_ref_color,
            font_scale,
        );
        lemma_fonts_view_joined(a, b, a.len() - n, b.len() - n);
    }
}

/// The bullets of `paras` fit the numbering counters: every auto-numbered bullet's
/// counter, and its first number plus that counter, stay within `i32` as the paragraphs
/// are numbered in turn from fresh counters with the defaults of `tctx`.
pub open spec fn styled_bullets_fit(paras: Seq<TextParagraph>, tctx: TextStyleCtx) -> bool {
    forall|j: int|
        0 <= j < paras.len() ==> bullet_fits(
            spec_paragraph_bullet(#[trigger] paras[j], para_defaults(tctx, paras[j])),
            counters_after_with(paras.take(j), tctx)[clamped_level(paras[j])],
        )
}

proof fn lemma_counters_with_len(paras: Seq<TextParagraph>, tctx: TextStyleCtx)
    ensures
        counters_after_with(paras, tctx).len() == 9,
    decreases paras.len(),
{
}

proof fn lemma_styled_entries_step(
    old_entries: Seq<FontResolutionEntry>,
    before: Seq<FontResolutionEntry>,
    after: Seq<FontResolutionEntry>,
    prefix: Seq<TextParagraph>,
    p: TextParagraph,
    slide_number: int,
    fs: Option<&FontScheme>,
    tctx: TextStyleCtx,
    font_ref_font: Option<Seq<char>>,
    font_ref_color: Option<Seq<char>>,
    font_scale: Option<i32>,
)
    requires
        old_entries.len() <= before.len(),
        before.subrange(0, old_entries.len() as int) == old_entries,
        styled_paragraphs_entries_ok(
            before.subrange(old_entries.len() as int, before.len() as int),
            prefix,
            slide_number,
            fs,
            tctx,
            font_ref_font,
            font_ref_color,
            font_scale,
        ),
        appended_run_entries(
            before,
            after,
            p.runs@,
            slide_number,
            paragraph_run_defaults(p, para_defaults(tctx, p), font_ref_font, font_ref_color, font_scale),
            fs,
        ),
    ensures
        old_entries.len() <= after.len(),
        after.subrange(0, old_entries.len() as int) == old_entries,
        styled_paragraphs_entries_ok(
            after.subrange(old_entries.len() as int, after.len() as int),
            prefix.push(p),
            slide_number,
            fs,
            tctx,
            font_ref_font,
            font_ref_color,
            font_scale,
        ),
{
    let d = paragraph_run_defaults(p, para_defaults(tctx, p), font_ref_font, font_ref_color, font_scale);
    let added = after.subrange(before.len() as int, after.len() as int);
    lemma_run_entries_len(added, p.runs@, slide_number, d, fs);
    let all_new = after.subrange(old_entries.len() as int, after.len() as int);
    let n = non_break_count(p.runs@);
    assert(all_new.subrange(all_new.len() - n, all_new.len() as int) =~= added);
    assert(all_new.subrange(0, all_new.len() - n) =~= before.subrange(
        old_entries.len() as int,
        before.len() as int,
    ));
    assert(after.subrange(0, old_entries.len() as int) =~= before.subrange(
        0,
        old_entries.len() as int,
    ));
    assert(prefix.push(p).drop_last() =~= prefix);
}

/// A text style context without list styles: paragraphs inherit nothing.
pub open spec fn no_text_ctx<'a>() -> TextStyleCtx<'a> {
    TextStyleCtx {
        slide_list_style: None,
        layout_list_style: None,
        master_placeholder_list_style: None,
        master_list_style: None,
        default_list_style: None,
    }
}

/// Paragraphs that inherit nothing render as `paragraphs_html` says and number their
/// bullets as `counters_after` says.
pub(crate) proof fn lemma_plain_paragraphs(ctx: RenderCtx, paras: Seq<TextParagraph>, fs: Option<&FontScheme>)
    ensures
        counters_after(paras) == counters_after_with(paras, no_text_ctx()),
        paragraphs_html(ctx, paras, fs) == styled_paragraphs_html(
            ctx,
            paras,
            fs,
            no_text_ctx(),
            None,
            None,
            None,
            None,
        ),
        paragraphs_bullets_fit(paras) ==> styled_bullets_fit(paras, no_text_ctx()),
    decreases paras.len(),
{
    assert forall|p: TextParagraph| #[trigger] para_defaults(no_text_ctx(), p) is None by {}
    if paragraphs_bullets_fit(paras) {
        assert forall|j: int| 0 <= j < paras.len() implies bullet_fits(
            spec_paragraph_bullet(#[trigger] paras[j], para_defaults(no_text_ctx(), paras[j])),
            counters_after_with(paras.take(j), no_text_ctx())[clamped_level(paras[j])],
        ) by {
            lemma_plain_paragraphs(ctx, paras.take(j), fs);
        }
    }
    if paras.len() > 0 {
        lemma_plain_paragraphs(ctx, paras.drop_last(), fs);
        let p = paras.last();
        assert(next_counters(counters_after(paras.drop_last()), p) =~= next_counters_with(
            counters_after_with(paras.drop_last(), no_text_ctx()),
            p,
            no_text_ctx(),
        ));
    } else {
        assert(counters_after(paras) =~= counters_after_with(paras, no_text_ctx()));
    }
}

/// The typeface records of paragraphs that inherit nothing are those `paragraphs_entries_ok`
/// describes.
pub(crate) proof fn lemma_plain_entries(
    entries: Seq<FontResolutionEntry>,
    paras: Seq<TextParagraph>,
    slide_number: int,
    fs: Option<&FontScheme>,
)
    ensures
        paragraphs_entries_ok(entries, paras, slide_number, fs) == styled_paragraphs_entries_ok(
            entries,
            paras,
            slide_number,
            fs,
            no_text_ctx(),
            None,
            None,
            None,
        ),
    decreases paras.len(),
{
    if paras.len() > 0 {
        let p = paras.last();
        let n = non_break_count(p.runs@);
        assert(para_defaults(no_text_ctx(), p) is None);
        if entries.len() >= n {
            lemma_plain_entries(entries.subrange(0, entries.len() - n), paras.drop_last(), slide_number, fs);
        }
    }
}

impl HtmlRenderer {
    /// Renders the paragraphs of a text body in order, each with the defaults of its
    /// level in `text_ctx`, the shape's font reference and the auto-fit values, numbering
    /// auto-numbered bullets from fresh counters.
    #[verifier::rlimit(50)]
    pub fn render_text_paragraphs(
        paras: &Vec<TextParagraph>,
        ctx: &RenderCtx<'_>,
        font_scheme: Option<&FontScheme>,
        coll: &mut RenderCollector,
        text_ctx: &TextStyleCtx<'_>,
        font_ref_font: Option<&str>,
        font_ref_color: Option<&ResolvedColor>,
        font_scale: Option<i32>,
        ln_spc_reduction: Option<i32>,
        html: &mut String,
    )
        requires
            old(coll).current_slide_index < usize::MAX,
            styled_bullets_fit(paras@, *text_ctx),
        ensures
            final(html)@ == old(html)@ + styled_paragraphs_html(
                *ctx,
                paras@,
                font_scheme,
                *text_ctx,
                opt_str_view(font_ref_font),
                hex_of(font_ref_color),
                font_scale,
                ln_spc_reduction,
            ),
            same_but_fonts(*old(coll), *final(coll)),
            old(coll).font_resolution_entries@.len() <= final(coll).font_resolution_entries@.len(),
            final(coll).font_resolution_entries@.subrange(
                0,
                old(coll).font_resolution_entries@.len() as int,
            ) == old(coll).font_resolution_entries@,
            styled_paragraphs_entries_ok(
                final(coll).font_resolution_entries@.subrange(
                    old(coll).font_resolution_entries@.len() as int,
                    final(coll).font_resolution_entries@.len() as int,
                ),
                paras@,
                old(coll).current_slide_index + 1,
                font_scheme,
                *text_ctx,
                opt_str_view(font_ref_font),
                hex_of(font_ref_color),
                font_scale,
            ),
    {
        let mut counters: [i32; 9] = [0, 0, 0, 0, 0, 0, 0, 0, 0];
        let ghost tctx = *text_ctx;
        let ghost frf = opt_str_view(font_ref_font);
        let ghost frc = hex_of(font_ref_color);
        let ghost old_entries = old(coll).font_resolution_entries@;
        let ghost slide_number = old(coll).current_slide_index + 1;
        proof {
            assert(counters@ =~= counters_after_with(paras@.take(0), tctx));
            assert(paras@.take(0) =~= Seq::<TextParagraph>::empty());
            assert(old_entries.subrange(0, old_entries.len() as int) =~= old_entries);
            assert(old_entries.subrange(old_entries.len() as int, old_entries.len() as int)
                =~= Seq::<FontResolutionEntry>::empty());
        }
        let mut i: usize = 0;
        while i < paras.len()
            invariant
                i <= paras@.len(),
                tctx == *text_ctx,
                frf == opt_str_view(font_ref_font),
                frc == hex_of(font_ref_color),
                styled_bullets_fit(paras@, tctx),
                counters@ == counters_after_with(paras@.take(i as int), tctx),
                html@ == old(html)@ + styled_paragraphs_html(
                    *ctx,
                    paras@.take(i as int),
                    font_scheme,
                    tctx,
                    frf,
                    frc,
                    font_scale,
                    ln_spc_reduction,
                ),
                same_but_fonts(*old(coll), *coll),
                old(coll).current_slide_index < usize::MAX,
                slide_number == old(coll).current_slide_index + 1,
                old_entries == old(coll).font_resolution_entries@,
                old_entries.len() <= coll.font_resolution_entries@.len(),
                coll.font_resolution_entries@.subrange(0, old_entries.len() as int) == old_entries,
                styled_paragraphs_entries_ok(
                    coll.font_resolution_entries@.subrange(
                        old_entries.len() as int,
                        coll.font_resolution_entries@.len() as int,
                    ),
                    paras@.take(i as int),
                    slide_number,
                    font_scheme,
                    tctx,
                    frf,
                    frc,
                    font_scale,
                ),
            decreases paras@.len() - i,
        {
            let p = &paras[i];
            let ghost prefix = paras@.take(i as int);
            let ghost before_entries = coll.font_resolution_entries@;
            let ghost before_counters = counters@;
            let ghost before_html = html@;
            proof {
                assert(*p == paras@[i as int]);
                assert(counters_after_with(prefix, tctx).len() == 9) by {
                    lemma_counters_with_len(prefix, tctx);
                }
            }
            Self::render_paragraph_with_defaults(
                p,
                ctx,
                font_scheme,
                coll,
                &mut counters,
                text_ctx,
                font_ref_font,
                font_ref_color,
                font_scale,
                ln_spc_reduction,
                html,
            );
            proof {
                let t1 = paras@.take(i as int + 1);
                assert(t1 =~= prefix.push(*p));
                assert(t1.drop_last() =~= prefix);
                assert(t1.last() == *p);
                assert(counters@ =~= next_counters_with(before_counters, *p, tctx));
                assert(counters_after_with(t1, tctx) == next_counters_with(
                    counters_after_with(prefix, tctx),
                    *p,
                    tctx,
                ));
                assert(html@ =~= old(html)@ + styled_paragraphs_html(
                    *ctx,
                    t1,
                    font_scheme,
                    tctx,
                    frf,
                    frc,
                    font_scale,
                    ln_spc_reduction,
                ));
                lemma_styled_entries_step(
                    old_entries,
                    before_entries,
                    coll.font_resolution_entries@,
                    prefix,
                    *p,
                    slide_number,
                    font_scheme,
                    tctx,
                    frf,
                    frc,
                    font_scale,
                );
            }
            i = i + 1;
        }
        proof {
            assert(paras@.take(paras@.len() as int) =~= paras@);
        }
    }
}


// ---------------------------------------------------------------------------
// The text body container
// ---------------------------------------------------------------------------

/// Effective text insets along the cascade.
pub open spec fn spec_text_margins(tb: TextBody, layout_match: Option<Shape>, master_match: Option<Shape>) -> TextMargins {
    TextMargins {
        top: spec_margin_side(tb, layout_match, master_match, 0),
        bottom: spec_margin_side(tb, layout_match, master_match, 1),
        left: spec_margin_side(tb, layout_match, master_match, 2),
        right: spec_margin_side(tb, layout_match, master_match, 3),
    }
}

/// The font scale of a normal auto-fit.
pub open spec fn autofit_font_scale(af: AutoFit) -> Option<i32> {
    match af {
        AutoFit::Normal { font_scale, line_spacing_reduction } => font_scale,
        _ => None,
    }
}

/// The line spacing reduction of a normal auto-fit.
pub open spec fn autofit_reduction(af: AutoFit) -> Option<i32> {
    match af {
        AutoFit::Normal { font_scale, line_spacing_reduction } => line_spacing_reduction,
        _ => None,
    }
}

/// The font size (hundredths of a point) each paragraph inherits from the run defaults
/// of its level (levels 9 and above inherit none).
pub open spec fn spec_inherited_font_sizes(paras: Seq<TextParagraph>, tctx: TextStyleCtx) -> Seq<Option<i32>> {
    Seq::new(
        paras.len(),
        |i: int|
            match spec_level_defaults(tctx, paras[i].level as int) {
                Some(d) => match d.def_run_props {
                    Some(r) => r.font_size,
                    None => None,
                },
                None => None,
            },
    )
}

/// The width (EMU) the text of a box `box_width` wide is laid out in: without the
/// insets and custom geometry text rectangle, at least one pixel, at most `i64::MAX`.
pub open spec fn content_width(box_width: int, margins: TextMargins, insets: TextMargins) -> int {
    let w = box_width - (margins.left + margins.right + insets.right + insets.left);
    if w > i64::MAX {
        i64::MAX as int
    } else if w < 9525 {
        9525
    } else {
        w
    }
}

/// The writing mode of a vertical text mode.
#[verifier::opaque]
pub open spec fn spec_writing_mode_css(vert: Option<Seq<char>>) -> Seq<char> {
    match vert {
        Some(v) => if v == "vert"@ || v == "wordArtVert"@ || v == "eaVert"@ {
            "; writing-mode: vertical-rl"@
        } else if v == "vert270"@ || v == "mongolianVert"@ {
            "; writing-mode: vertical-lr"@
        } else {
            Seq::empty()
        },
        None => Seq::empty(),
    }
}

/// The transform that keeps text readable: the shape's flips undone, then a half turn
/// for `vert270` text.
pub open spec fn spec_counter_transform_css(vert270: bool, flip_h: bool, flip_v: bool) -> Seq<char> {
    if flip_h || flip_v {
        "; transform: scale("@ + flip_sign(flip_h) + ","@ + flip_sign(flip_v) + ")"@ + (if vert270 {
            " rotate(180deg)"@
        } else {
            Seq::empty()
        })
    } else if vert270 {
        "; transform: rotate(180deg)"@
    } else {
        Seq::empty()
    }
}

/// A length in EMU as points with one decimal.
pub open spec fn pt(emu: int) -> Seq<char> {
    fmt_fixed(emu, 12700, 1)
}

/// The inline style of a text body: padding (insets plus the text rectangle's, in
/// points), growth with the text for `Shrink`, wrapping, writing mode, rotation (in
/// degrees), clipping of scaled text, and the transform that keeps text readable.
pub open spec fn spec_text_body_style(
    auto_fit: AutoFit,
    word_wrap: bool,
    emergency: bool,
    margins: TextMargins,
    insets: TextMargins,
    vert: Option<Seq<char>>,
    rotation: int,
    flip_h: bool,
    flip_v: bool,
) -> Seq<char> {
    padding_css(margins, insets) + shrink_css(auto_fit) + wrap_css(word_wrap, emergency)
        + spec_writing_mode_css(vert) + rotation_css(rotation) + scale_clip_css(auto_fit)
        + spec_counter_transform_css(vert == Some("vert270"@), flip_h, flip_v)
}

/// Padding: each inset plus the text rectangle's, in points.
#[verifier::opaque]
pub open spec fn padding_css(margins: TextMargins, insets: TextMargins) -> Seq<char> {
    "padding: "@ + pt(margins.top + insets.top) + "pt "@ + pt(margins.right + insets.right) + "pt "@
        + pt(margins.bottom + insets.bottom) + "pt "@ + pt(margins.left + insets.left) + "pt"@
}

/// A `Shrink` box grows with its text.
pub open spec fn shrink_css(auto_fit: AutoFit) -> Seq<char> {
    if auto_fit is Shrink {
        "; height: auto; min-height: 100%"@
    } else {
        Seq::empty()
    }
}

/// No wrapping, or breaking anywhere under emergency wrapping.
pub open spec fn wrap_css(word_wrap: bool, emergency: bool) -> Seq<char> {
    if !word_wrap {
        "; white-space: nowrap"@
    } else if emergency {
        "; overflow-wrap: anywhere"@
    } else {
        Seq::empty()
    }
}

/// The text rotation (60000ths of a degree) as a CSS rotation in degrees.
#[verifier::opaque]
pub open spec fn rotation_css(rotation: int) -> Seq<char> {
    if rotation != 0 {
        "; transform: rotate("@ + fmt_fixed(rotation, 60000, 1) + "deg)"@
    } else {
        Seq::empty()
    }
}

/// Text scaled by auto-fit is clipped to its box.
pub open spec fn scale_clip_css(auto_fit: AutoFit) -> Seq<char> {
    if autofit_font_scale(auto_fit) is Some {
        "; overflow: hidden"@
    } else {
        Seq::empty()
    }
}

/// The CSS class of a vertical alignment.
pub open spec fn v_class(va: VerticalAlign) -> Seq<char> {
    match va {
        VerticalAlign::Top => "v-top"@,
        VerticalAlign::Middle => "v-middle"@,
        VerticalAlign::Bottom => "v-bottom"@,
    }
}

/// The opening `<div>` of a text body with its classes and style.
pub open spec fn spec_text_body_div(
    va: VerticalAlign,
    word_wrap: bool,
    emergency: bool,
    anchor_center: bool,
    style: Seq<char>,
) -> Seq<char> {
    "<div class=\"text-body "@ + v_class(va) + (if word_wrap {
        Seq::empty()
    } else {
        " nowrap"@
    }) + (if emergency {
        " emergency-wrap"@
    } else {
        Seq::empty()
    }) + (if anchor_center {
        " h-center"@
    } else {
        Seq::empty()
    }) + "\" style=\""@ + style + "\">\n"@
}

/// Emergency wrapping applies: text wraps, the box does not grow with it, and some
/// unbreakable span is wider than the content width.
pub open spec fn spec_text_emergency(
    tb: TextBody,
    af: AutoFit,
    word_wrap: bool,
    tctx: TextStyleCtx,
    width: int,
) -> bool {
    &&& word_wrap
    &&& !(af is Shrink)
    &&& spec_wrap_policy(
        tb.paragraphs@,
        spec_inherited_font_sizes(tb.paragraphs@, tctx),
        width,
        scale_of(autofit_font_scale(af)),
    ) is Emergency
}

/// The opening of a shape's text body: the text-body properties resolved along the
/// cascade, as classes and style.
pub open spec fn spec_text_body_open(
    shape: Shape,
    tb: TextBody,
    layout_match: Option<Shape>,
    master_match: Option<Shape>,
    tctx: TextStyleCtx,
    box_width: int,
    insets: TextMargins,
) -> Seq<char> {
    let af = spec_text_auto_fit(tb, layout_match, master_match);
    let ww = spec_text_word_wrap(tb, layout_match, master_match);
    let margins = spec_text_margins(tb, layout_match, master_match);
    let emergency = spec_text_emergency(tb, af, ww, tctx, content_width(box_width, margins, insets));
    let vert = match spec_vertical_text(shape, layout_match, master_match) {
        Some(v) => Some(v@),
        None => None,
    };
    spec_text_body_div(
        spec_text_vertical_align(tb, layout_match, master_match),
        ww,
        emergency,
        spec_text_anchor_center(tb, layout_match, master_match),
        spec_text_body_style(
            af,
            ww,
            emergency,
            margins,
            insets,
            vert,
            spec_text_rotation(tb, layout_match, master_match) as int,
            shape.flip_h,
            shape.flip_v,
        ),
    )
}

impl HtmlRenderer {
    /// The font size each paragraph inherits from the run defaults of its level.
    pub fn inherited_font_sizes(paras: &Vec<TextParagraph>, text_ctx: &TextStyleCtx<'_>) -> (r: Vec<
        Option<i32>,
    >)
        ensures
            r@ == spec_inherited_font_sizes(paras@, *text_ctx),
    {
        let mut sizes: Vec<Option<i32>> = Vec::new();
        let mut i: usize = 0;
        while i < paras.len()
            invariant
                i <= paras@.len(),
                sizes@ == spec_inherited_font_sizes(paras@.take(i as int), *text_ctx),
            decreases paras@.len() - i,
        {
            let size = match text_ctx.get_level_defaults(paras[i].level as usize) {
                Some(d) => match &d.def_run_props {
                    Some(r) => r.font_size,
                    None => None,
                },
                None => None,
            };
            sizes.push(size);
            i = i + 1;
            proof {
                assert(sizes@ =~= spec_inherited_font_sizes(paras@.take(i as int), *text_ctx));
            }
        }
        proof {
            assert(paras@.take(paras@.len() as int) =~= paras@);
        }
        sizes
    }

    /// Appends the writing mode of a vertical text mode; true for `vert270`.
    fn push_writing_mode(out: &mut String, vert: Option<&String>) -> (vert270: bool)
        ensures
            final(out)@ == old(out)@ + spec_writing_mode_css(
                match vert {
                    Some(v) => Some(v@),
                    None => None,
                },
            ),
            vert270 == (match vert {
                Some(v) => Some(v@),
                None => None,
            } == Some("vert270"@)),
    {
        reveal(spec_writing_mode_css);
        match vert {
            Some(v) => {
                let v = v.as_str();
                if str_equal(v, "vert270") {
                    proof {
                        reveal_strlit("vert270");
                        reveal_strlit("vert");
                        reveal_strlit("wordArtVert");
                        reveal_strlit("eaVert");
                        assert("vert270"@.len() == 7);
                        assert("vert"@.len() == 4);
                        assert("wordArtVert"@.len() == 11);
                        assert("vert270"@ != "vert"@);
                        assert("vert270"@ != "wordArtVert"@);
                        assert("vert270"@ != "eaVert"@);
                    }
                    push_str(out, "; writing-mode: vertical-lr");
                    true
                } else if str_equal(v, "vert") || str_equal(v, "wordArtVert") || str_equal(
                    v,
                    "eaVert",
                ) {
                    push_str(out, "; writing-mode: vertical-rl");
                    false
                } else if str_equal(v, "mongolianVert") {
                    push_str(out, "; writing-mode: vertical-lr");
                    false
                } else {
                    false
                }
            },
            None => false,
        }
    }

    /// Appends the transform that keeps text readable (see `spec_counter_transform_css`).
    fn push_counter_transform(out: &mut String, vert270: bool, flip_h: bool, flip_v: bool)
        ensures
            final(out)@ == old(out)@ + spec_counter_transform_css(vert270, flip_h, flip_v),
    {
        let flips = flip_h || flip_v;
        if flips {
            let ghost o = out@;
            push_str(out, "; transform: scale(");
            push_str(out, if flip_h { "-1" } else { "1" });
            push_str(out, ",");
            push_str(out, if flip_v { "-1" } else { "1" });
            push_str(out, ")");
            if vert270 {
                push_str(out, " rotate(180deg)");
                proof {
                    assert(out@ =~= o + spec_counter_transform_css(vert270, flip_h, flip_v));
                }
            } else {
                proof {
                    assert(out@ =~= o + spec_counter_transform_css(vert270, flip_h, flip_v));
                }
            }
        } else if vert270 {
            push_str(out, "; transform: rotate(180deg)");
            proof {
                assert(out@ =~= old(out)@ + spec_counter_transform_css(vert270, flip_h, flip_v));
            }
        }
    }


    /// Appends the padding of a text body: each inset plus the text rectangle's, in points.
    fn push_padding(out: &mut String, margins: &TextMargins, insets: &TextMargins)
        ensures
            final(out)@ == old(out)@ + padding_css(*margins, *insets),
    {
        reveal(padding_css);
        push_str(out, "padding: ");
        push_fixed(out, margins.top as i128 + insets.top as i128, 12700, 1);
        push_str(out, "pt ");
        push_fixed(out, margins.right as i128 + insets.right as i128, 12700, 1);
        push_str(out, "pt ");
        push_fixed(out, margins.bottom as i128 + insets.bottom as i128, 12700, 1);
        push_str(out, "pt ");
        push_fixed(out, margins.left as i128 + insets.left as i128, 12700, 1);
        push_str(out, "pt");
    }

    /// Appends the inline style of a text body (see `spec_text_body_style`).
    #[verifier::rlimit(50)]
    fn push_text_body_style(
        out: &mut String,
        auto_fit: AutoFit,
        word_wrap: bool,
        emergency: bool,
        margins: &TextMargins,
        insets: &TextMargins,
        vert: Option<&String>,
        rotation: i32,
        flip_h: bool,
        flip_v: bool,
    )
        ensures
            final(out)@ == old(out)@ + spec_text_body_style(
                auto_fit,
                word_wrap,
                emergency,
                *margins,
                *insets,
                match vert {
                    Some(v) => Some(v@),
                    None => None,
                },
                rotation as int,
                flip_h,
                flip_v,
            ),
    {
        Self::push_padding(out, margins, insets);
        let ghost p0 = out@;
        if matches!(auto_fit, AutoFit::Shrink) {
            push_str(out, "; height: auto; min-height: 100%");
        }
        let ghost p1 = out@;
        if !word_wrap {
            push_str(out, "; white-space: nowrap");
        } else if emergency {
            push_str(out, "; overflow-wrap: anywhere");
        }
        let ghost p2 = out@;
        let vert270 = Self::push_writing_mode(out, vert);
        let ghost p3 = out@;
        if rotation != 0 {
            push_str(out, "; transform: rotate(");
            push_fixed(out, rotation as i128, 60000, 1);
            push_str(out, "deg)");
        }
        let ghost p4 = out@;
        let has_scale = match auto_fit {
            AutoFit::Normal { font_scale, line_spacing_reduction } => font_scale.is_some(),
            _ => false,
        };
        if has_scale {
            push_str(out, "; overflow: hidden");
        }
        let ghost p5 = out@;
        Self::push_counter_transform(out, vert270, flip_h, flip_v);
        proof {
            assert(p0 == old(out)@ + padding_css(*margins, *insets));
            assert(p1 =~= p0 + shrink_css(auto_fit));
            assert(p2 =~= p1 + wrap_css(word_wrap, emergency));
            reveal(rotation_css);
            assert(p4 =~= p3 + rotation_css(rotation as int));
            assert(p5 =~= p4 + scale_clip_css(auto_fit));
        }
        proof {
            let vs = match vert {
                Some(v) => Some(v@),
                None => None,
            };
            let pad = padding_css(*margins, *insets);
            let t1 = pad + shrink_css(auto_fit);
            let t2 = t1 + wrap_css(word_wrap, emergency);
            let t3 = t2 + spec_writing_mode_css(vs);
            let t4 = t3 + rotation_css(rotation as int);
            let t5 = t4 + scale_clip_css(auto_fit);
            let t6 = t5 + spec_counter_transform_css(vs == Some("vert270"@), flip_h, flip_v);
            let o = old(out)@;
            lemma_concat_associative(o, pad, shrink_css(auto_fit));
            lemma_concat_associative(o, t1, wrap_css(word_wrap, emergency));
            lemma_concat_associative(o, t2, spec_writing_mode_css(vs));
            lemma_concat_associative(o, t3, rotation_css(rotation as int));
            lemma_concat_associative(o, t4, scale_clip_css(auto_fit));
            lemma_concat_associative(
                o,
                t5,
                spec_counter_transform_css(vs == Some("vert270"@), flip_h, flip_v),
            );
        }
    }
}

/// HTML of a shape's text body: the opening `<div>`, the paragraphs with the defaults
/// they inherit and the auto-fit values, and the closing tag.
#[verifier::opaque]
pub open spec fn spec_text_body_html(
    shape: Shape,
    tb: TextBody,
    layout_match: Option<Shape>,
    master_match: Option<Shape>,
    ctx: RenderCtx,
    fs: Option<&FontScheme>,
    tctx: TextStyleCtx,
    font_ref_font: Option<Seq<char>>,
    font_ref_color: Option<Seq<char>>,
    box_width: int,
    insets: TextMargins,
) -> Seq<char> {
    let af = spec_text_auto_fit(tb, layout_match, master_match);
    spec_text_body_open(shape, tb, layout_match, master_match, tctx, box_width, insets)
        + styled_paragraphs_html(
        ctx,
        tb.paragraphs@,
        fs,
        tctx,
        font_ref_font,
        font_ref_color,
        autofit_font_scale(af),
        autofit_reduction(af),
    ) + "</div>\n"@
}

/// The text of every paragraph is short enough for the wrapping estimate.
pub open spec fn text_fits_estimate(paras: Seq<TextParagraph>) -> bool {
    forall|i: int| 0 <= i < paras.len() ==> runs_chars((#[trigger] paras[i]).runs@) <= 0x100_0000_0000
}

impl HtmlRenderer {
    /// The opening `<div>` of a shape's text body (see `spec_text_body_open`).
    #[verifier::rlimit(50)]
    pub fn text_body_open(
        shape: &Shape,
        text_body: &TextBody,
        layout_match: Option<&Shape>,
        master_match: Option<&Shape>,
        text_ctx: &TextStyleCtx<'_>,
        box_width: i128,
        insets: &TextMargins,
    ) -> (r: String)
        requires
            text_fits_estimate(text_body.paragraphs@),
            -0x1_0000_0000_0000_0000 <= box_width <= 0x1_0000_0000_0000_0000,
        ensures
            r@ == spec_text_body_open(
                *shape,
                *text_body,
                deref(layout_match),
                deref(master_match),
                *text_ctx,
                box_width as int,
                *insets,
            ),
    {
        let auto_fit = Self::resolve_text_auto_fit(text_body, layout_match, master_match);
        let word_wrap = Self::resolve_text_word_wrap(text_body, layout_match, master_match);
        let margins = Self::resolve_text_margins(text_body, layout_match, master_match);
        let font_scale = match auto_fit {
            AutoFit::Normal { font_scale, line_spacing_reduction } => font_scale,
            _ => None,
        };
        let emergency = if word_wrap && !matches!(auto_fit, AutoFit::Shrink) {
            let sizes = Self::inherited_font_sizes(&text_body.paragraphs, text_ctx);
            let raw: i128 = box_width - (margins.left as i128 + margins.right as i128
                + insets.right as i128 + insets.left as i128);
            let width: i64 = if raw > i64::MAX as i128 {
                i64::MAX
            } else if raw < 9525 {
                9525
            } else {
                raw as i64
            };
            matches!(
                classify_wrap_policy(text_body.paragraphs.as_slice(), sizes.as_slice(), width, font_scale),
                TextWrapPolicy::Emergency
            )
        } else {
            false
        };
        let mut style = String::new();
        Self::push_text_body_style(
            &mut style,
            auto_fit,
            word_wrap,
            emergency,
            &margins,
            insets,
            Self::resolve_vertical_text(shape, layout_match, master_match),
            Self::resolve_text_rotation(text_body, layout_match, master_match),
            shape.flip_h,
            shape.flip_v,
        );
        let mut out = String::new();
        Self::push_text_body_div(
            &mut out,
            Self::resolve_text_vertical_align(text_body, layout_match, master_match),
            word_wrap,
            emergency,
            Self::resolve_text_anchor_center(text_body, layout_match, master_match),
            style.as_str(),
        );
        out
    }

    /// Appends the opening `<div>` of a text body (see `spec_text_body_div`).
    #[verifier::rlimit(50)]
    fn push_text_body_div(
        html: &mut String,
        va: VerticalAlign,
        word_wrap: bool,
        emergency: bool,
        anchor_center: bool,
        style: &str,
    )
        ensures
            final(html)@ == old(html)@ + spec_text_body_div(va, word_wrap, emergency, anchor_center, style@),
    {
        push_str(html, "<div class=\"text-body ");
        let ghost p0 = html@;
        push_str(
            html,
            match va {
                VerticalAlign::Top => "v-top",
                VerticalAlign::Middle => "v-middle",
                VerticalAlign::Bottom => "v-bottom",
            },
        );
        let ghost p1 = html@;
        if !word_wrap {
            push_str(html, " nowrap");
        }
        let ghost p2 = html@;
        if emergency {
            push_str(html, " emergency-wrap");
        }
        let ghost p3 = html@;
        if anchor_center {
            push_str(html, " h-center");
        }
        let ghost p4 = html@;
        push_str(html, "\" style=\"");
        push_str(html, style);
        push_str(html, "\">\n");
        proof {
            let o = old(html)@;
            let a0 = "<div class=\"text-body "@;
            let a1 = a0 + v_class(va);
            let w = if word_wrap {
                Seq::<char>::empty()
            } else {
                " nowrap"@
            };
            let e = if emergency {
                " emergency-wrap"@
            } else {
                Seq::<char>::empty()
            };
            let c = if anchor_center {
                " h-center"@
            } else {
                Seq::<char>::empty()
            };
            assert(p2 =~= p1 + w);
            assert(p3 =~= p2 + e);
            assert(p4 =~= p3 + c);
            lemma_concat_associative(o, a0, v_class(va));
            lemma_concat_associative(o, a1, w);
            lemma_concat_associative(o, a1 + w, e);
            lemma_concat_associative(o, a1 + w + e, c);
            assert(html@ =~= p4 + ("\" style=\""@ + style@ + "\">\n"@));
            lemma_concat_associative(o, a1 + w + e + c, "\" style=\""@ + style@ + "\">\n"@);
            assert(spec_text_body_div(va, word_wrap, emergency, anchor_center, style@) =~= a1 + w + e + c + (
            "\" style=\""@ + style@ + "\">\n"@));
        }
    }

    /// Renders a shape's text body `text_body` in a box `box_width` EMU wide: a `<div>`
    /// whose classes and style come from the auto-fit, vertical alignment, word wrap,
    /// insets (plus `insets`, the text rectangle of a custom geometry), centring,
    /// rotation and vertical text resolved along the cascade, and the shape's flips;
    /// then its paragraphs with the defaults of `text_ctx` and the shape's font
    /// reference. Text that wraps in a box that does not grow gets emergency wrapping
    /// when an unbreakable span is wider than the content width.
    #[verifier::rlimit(50)]
    pub fn render_text_body(
        shape: &Shape,
        text_body: &TextBody,
        layout_match: Option<&Shape>,
        master_match: Option<&Shape>,
        ctx: &RenderCtx<'_>,
        font_scheme: Option<&FontScheme>,
        coll: &mut RenderCollector,
        text_ctx: &TextStyleCtx<'_>,
        font_ref_font: Option<&str>,
        font_ref_color: Option<&ResolvedColor>,
        box_width: i128,
        insets: &TextMargins,
        html: &mut String,
    )
        requires
            old(coll).current_slide_index < usize::MAX,
            styled_bullets_fit(text_body.paragraphs@, *text_ctx),
            text_fits_estimate(text_body.paragraphs@),
            -0x1_0000_0000_0000_0000 <= box_width <= 0x1_0000_0000_0000_0000,
        ensures
            final(html)@ == old(html)@ + spec_text_body_html(
                *shape,
                *text_body,
                deref(layout_match),
                deref(master_match),
                *ctx,
                font_scheme,
                *text_ctx,
                opt_str_view(font_ref_font),
                hex_of(font_ref_color),
                box_width as int,
                *insets,
            ),
            same_but_fonts(*old(coll), *final(coll)),
            old(coll).font_resolution_entries@.len() <= final(coll).font_resolution_entries@.len(),
            final(coll).font_resolution_entries@.subrange(
                0,
                old(coll).font_resolution_entries@.len() as int,
            ) == old(coll).font_resolution_entries@,
            styled_paragraphs_entries_ok(
                final(coll).font_resolution_entries@.subrange(
                    old(coll).font_resolution_entries@.len() as int,
                    final(coll).font_resolution_entries@.len() as int,
                ),
                text_body.paragraphs@,
                old(coll).current_slide_index + 1,
                font_scheme,
                *text_ctx,
                opt_str_view(font_ref_font),
                hex_of(font_ref_color),
                autofit_font_scale(
                    spec_text_auto_fit(*text_body, deref(layout_match), deref(master_match)),
                ),
            ),
    {
        reveal(spec_text_body_html);
        let opening = Self::text_body_open(
            shape,
            text_body,
            layout_match,
            master_match,
            text_ctx,
            box_width,
            insets,
        );
        push_str(html, opening.as_str());
        let auto_fit = Self::resolve_text_auto_fit(text_body, layout_match, master_match);
        let (font_scale, reduction) = match auto_fit {
            AutoFit::Normal { font_scale, line_spacing_reduction } => (
                font_scale,
                line_spacing_reduction,
            ),
            _ => (None, None),
        };
        Self::render_text_paragraphs(
            &text_body.paragraphs,
            ctx,
            font_scheme,
            coll,
            text_ctx,
            font_ref_font,
            font_ref_color,
            font_scale,
            reduction,
            html,
        );
        push_str(html, "</div>\n");
    }
}

// ---------------------------------------------------------------------------
// Provenance of a shape
// ---------------------------------------------------------------------------

/// The provenance record of a shape rendered on slide number `slide_number`: its name
/// when it has one, where its fill and border came from (a style reference counting when
/// the shape has a fill or line reference), and the most specific list style of its text.
pub open spec fn shape_entry_ok(
    e: RenderedProvenanceEntry,
    shape: Shape,
    layout_match: Option<Shape>,
    master_match: Option<Shape>,
    tctx: TextStyleCtx,
    slide_number: int,
) -> bool {
    &&& e.slide_index == slide_number
    &&& e.subject == ProvenanceSubject::Shape
    &&& (if shape.name@.len() == 0 {
        e.shape_name is None
    } else {
        e.shape_name matches Some(n) && n@ == shape.name@
    })
    &&& e.fill_source == spec_shape_fill_source(
        shape,
        layout_match,
        master_match,
        shape.style_ref matches Some(sr) && sr.fill_ref is Some,
    )
    &&& e.border_source == spec_border_source(
        shape,
        layout_match,
        master_match,
        shape.style_ref matches Some(sr) && sr.ln_ref is Some,
    )
    &&& e.text_source == spec_primary_source(tctx)
    &&& e.background_source is None
}

/// The provenance record of a shape on slide `slide_number` (see `shape_entry_ok`), as
/// plain values.
pub open spec fn shape_entry(
    shape: Shape,
    layout_match: Option<Shape>,
    master_match: Option<Shape>,
    tctx: TextStyleCtx,
    slide_number: nat,
) -> ProvenanceRecord {
    ProvenanceRecord {
        slide_index: slide_number,
        subject: ProvenanceSubject::Shape,
        shape_name: if shape.name@.len() == 0 {
            None
        } else {
            Some(shape.name@)
        },
        fill_source: spec_shape_fill_source(
            shape,
            layout_match,
            master_match,
            shape.style_ref matches Some(sr) && sr.fill_ref is Some,
        ),
        border_source: spec_border_source(
            shape,
            layout_match,
            master_match,
            shape.style_ref matches Some(sr) && sr.ln_ref is Some,
        ),
        text_source: spec_primary_source(tctx),
        background_source: None,
    }
}

/// A record that meets `shape_entry_ok` is `shape_entry` as plain values.
pub(crate) proof fn lemma_shape_entry_view(
    e: RenderedProvenanceEntry,
    shape: Shape,
    layout_match: Option<Shape>,
    master_match: Option<Shape>,
    tctx: TextStyleCtx,
    slide_number: int,
)
    requires
        shape_entry_ok(e, shape, layout_match, master_match, tctx, slide_number),
    ensures
        e@ == shape_entry(shape, layout_match, master_match, tctx, slide_number as nat),
{
}

impl HtmlRenderer {
    /// Records where a shape's fill, border and text came from, for the current slide.
    pub fn push_shape_provenance(
        shape: &Shape,
        layout_match: Option<&Shape>,
        master_match: Option<&Shape>,
        text_ctx: &TextStyleCtx<'_>,
        coll: &mut RenderCollector,
    )
        requires
            old(coll).current_slide_index < usize::MAX,
        ensures
            final(coll).provenance_entries@.len() == old(coll).provenance_entries@.len() + 1,
            final(coll).provenance_entries@.drop_last() == old(coll).provenance_entries@,
            shape_entry_ok(
                final(coll).provenance_entries@.last(),
                *shape,
                deref(layout_match),
                deref(master_match),
                *text_ctx,
                old(coll).current_slide_index + 1,
            ),
            final(coll).external_assets@ == old(coll).external_assets@,
            final(coll).font_resolution_entries@ == old(coll).font_resolution_entries@,
            final(coll).gradient_counter == old(coll).gradient_counter,
            final(coll).marker_counter == old(coll).marker_counter,
            final(coll).asset_counter == old(coll).asset_counter,
            final(coll).current_slide_index == old(coll).current_slide_index,
            final(coll).counter == old(coll).counter,
            final(coll).elements@ == old(coll).elements@,
    {
        let has_fill_ref = match &shape.style_ref {
            Some(sr) => sr.fill_ref.is_some(),
            None => false,
        };
        let has_ln_ref = match &shape.style_ref {
            Some(sr) => sr.ln_ref.is_some(),
            None => false,
        };
        let shape_name = if shape.name.as_str().is_empty() {
            None
        } else {
            Some(shape.name.clone())
        };
        let entry = RenderedProvenanceEntry {
            slide_index: coll.current_slide_index + 1,
            subject: ProvenanceSubject::Shape,
            shape_name,
            fill_source: shape_fill_source(shape, layout_match, master_match, has_fill_ref),
            border_source: border_source(shape, layout_match, master_match, has_ln_ref),
            text_source: text_ctx.primary_source(),
            background_source: None,
        };
        let ghost before = coll.provenance_entries@;
        coll.push_provenance(entry);
        proof {
            assert(coll.provenance_entries@.drop_last() =~= before);
        }
    }
}

} // verus!
