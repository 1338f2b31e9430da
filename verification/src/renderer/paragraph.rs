//! Rendering of paragraphs: paragraph style, bullets with their numbering counters, and
//! the paragraph's runs.
use vstd::prelude::*;

use crate::model::color::{Color, ResolvedColor};
use crate::model::hierarchy::FontScheme;
use crate::model::shape::ParagraphDefaults;
use crate::model::text::{spec_alignment_css, Bullet, SpacingValue, TextParagraph, TextRun};
use crate::renderer::context::{spec_color_to_css, RenderCollector, RenderCtx};
use crate::renderer::fill_css::HtmlRenderer;
use crate::renderer::html::{escape_html, spec_escape_html};
use crate::renderer::numbering::{format_auto_num, spec_format_auto_num};
use crate::renderer::run::{
    defaults_view, first_of, font_entry_ok, opt_str_view, same_but_fonts, spec_run_html,
    RunDefaultsSpec, RunRenderDefaults,
};
use crate::renderer::text_body::{lemma_plain_entries, lemma_plain_paragraphs};
use crate::renderer::text_style::{deref, spec_level_defaults, TextStyleCtx};
use crate::strings::{fmt_fixed, push_fixed, push_str};
use crate::text_metrics::{
    fonts_view, is_unicode_whitespace, is_unicode_whitespace_char, lemma_fonts_view_joined, FontResolutionEntry,
};

verus! {

// ---------------------------------------------------------------------------
// Paragraph style
// ---------------------------------------------------------------------------

/// The list level a paragraph's defaults are looked up at: its level, at most 8.
pub open spec fn clamped_level(para: TextParagraph) -> int {
    if para.level > 8 {
        8
    } else {
        para.level as int
    }
}

pub open spec fn inherited_line_spacing(inh: Option<ParagraphDefaults>) -> Option<SpacingValue> {
    match inh {
        Some(d) => d.line_spacing,
        None => None,
    }
}

pub open spec fn inherited_space_before(inh: Option<ParagraphDefaults>) -> Option<SpacingValue> {
    match inh {
        Some(d) => d.space_before,
        None => None,
    }
}

pub open spec fn inherited_space_after(inh: Option<ParagraphDefaults>) -> Option<SpacingValue> {
    match inh {
        Some(d) => d.space_after,
        None => None,
    }
}

pub open spec fn inherited_margin_left(inh: Option<ParagraphDefaults>) -> Option<i64> {
    match inh {
        Some(d) => d.margin_left,
        None => None,
    }
}

pub open spec fn inherited_indent(inh: Option<ParagraphDefaults>) -> Option<i64> {
    match inh {
        Some(d) => d.indent,
        None => None,
    }
}

pub open spec fn inherited_bullet(inh: Option<ParagraphDefaults>) -> Option<Bullet> {
    match inh {
        Some(d) => d.bullet,
        None => None,
    }
}

/// The line-height declaration: the paragraph's (else the inherited) line spacing, scaled
/// by one minus the auto-fit line-spacing reduction (thousandths of a percent); with a
/// reduction and no spacing, the reduced single line.
pub open spec fn spec_line_height(
    para: TextParagraph,
    inh: Option<ParagraphDefaults>,
    reduction: Option<i32>,
) -> Seq<char> {
    let factor: int = match reduction {
        Some(r) => 100000 - r,
        None => 100000,
    };
    match first_of(para.line_spacing, inherited_line_spacing(inh)) {
        Some(SpacingValue::Percent(p)) => "; line-height: "@ + fmt_fixed(
            p * factor,
            10000000000,
            2,
        ),
        Some(SpacingValue::Points(pt)) => "; line-height: "@ + fmt_fixed(pt * factor, 10000000, 1)
            + "pt"@,
        None => match reduction {
            Some(_) => "; line-height: "@ + fmt_fixed(factor, 100000, 2),
            None => Seq::empty(),
        },
    }
}

/// A paragraph-spacing declaration (`margin-top` or `margin-bottom`): a percentage as
/// `em`, points as `pt`.
pub open spec fn spec_spacing_margin(prop: Seq<char>, v: Option<SpacingValue>) -> Seq<char> {
    match v {
        Some(SpacingValue::Percent(p)) => "; "@ + prop + ": "@ + fmt_fixed(p as int, 100000, 1)
            + "em"@,
        Some(SpacingValue::Points(pt)) => "; "@ + prop + ": "@ + fmt_fixed(pt as int, 100, 1)
            + "pt"@,
        None => Seq::empty(),
    }
}

/// The left padding: the paragraph's (else the inherited) margin, else 36pt per level.
pub open spec fn spec_padding_left(para: TextParagraph, inh: Option<ParagraphDefaults>) -> Seq<char> {
    match first_of(para.margin_left, inherited_margin_left(inh)) {
        Some(ml) => "; padding-left: "@ + fmt_fixed(ml as int, 12700, 1) + "pt"@,
        None => if para.level > 0 {
            "; padding-left: "@ + fmt_fixed(para.level * 36, 1, 1) + "pt"@
        } else {
            Seq::empty()
        },
    }
}

/// The first-line indent: the paragraph's, else the inherited one.
pub open spec fn spec_text_indent(para: TextParagraph, inh: Option<ParagraphDefaults>) -> Seq<char> {
    match first_of(para.indent, inherited_indent(inh)) {
        Some(ind) => "; text-indent: "@ + fmt_fixed(ind as int, 12700, 1) + "pt"@,
        None => Seq::empty(),
    }
}

/// The style attribute of a paragraph: alignment, right-to-left direction, line height,
/// spacing before and after, left padding and first-line indent; the paragraph's own
/// values win over inherited ones.
pub open spec fn spec_paragraph_style(
    para: TextParagraph,
    inh: Option<ParagraphDefaults>,
    reduction: Option<i32>,
) -> Seq<char> {
    "text-align: "@ + spec_alignment_css(para.alignment) + (if para.rtl {
        "; direction: rtl; unicode-bidi: bidi-override"@
    } else {
        Seq::empty()
    }) + spec_line_height(para, inh, reduction) + spec_spacing_margin(
        "margin-top"@,
        first_of(para.space_before, inherited_space_before(inh)),
    ) + spec_spacing_margin("margin-bottom"@, first_of(para.space_after, inherited_space_after(inh)))
        + spec_padding_left(para, inh) + spec_text_indent(para, inh)
}

// ---------------------------------------------------------------------------
// Bullets and numbering
// ---------------------------------------------------------------------------

/// All characters of `s` are white space.
pub open spec fn all_whitespace(s: Seq<char>) -> bool {
    forall|i: int| 0 <= i < s.len() ==> is_unicode_whitespace(#[trigger] s[i])
}

/// A paragraph has visible text when some run that is not a break holds a character
/// other than white space.
pub open spec fn has_visible_text(runs: Seq<TextRun>) -> bool {
    exists|i: int| 0 <= i < runs.len() && !(#[trigger] runs[i]).is_break && !all_whitespace(runs[i].text@)
}

/// The bullet a paragraph shows: its own, else the inherited one; none for a paragraph
/// without visible text.
pub open spec fn spec_paragraph_bullet(para: TextParagraph, inh: Option<ParagraphDefaults>) -> Option<
    Bullet,
> {
    if has_visible_text(para.runs@) {
        first_of(para.bullet, inherited_bullet(inh))
    } else {
        None
    }
}

/// The first number of an auto-numbered bullet (1 unless given).
pub open spec fn start_of(start_at: Option<i32>) -> int {
    match start_at {
        Some(s) => s as int,
        None => 1,
    }
}

/// Counter `i` after a paragraph at `level` with `bullet`: counters below the level
/// are kept; an auto-numbered bullet counts its level up by one and clears the deeper
/// levels; any other paragraph clears its level and the deeper ones.
pub open spec fn counter_after(c: Seq<i32>, level: int, bullet: Option<Bullet>, i: int) -> int {
    if i < level {
        c[i] as int
    } else if bullet matches Some(Bullet::AutoNum(_)) && i == level {
        c[i] + 1
    } else {
        0
    }
}

/// The numbering counters admit the paragraph's bullet: an auto-numbered bullet's
/// counter and number stay within `i32`.
pub open spec fn bullet_fits(bullet: Option<Bullet>, counter: i32) -> bool {
    match bullet {
        Some(Bullet::AutoNum(an)) => counter < i32::MAX && i32::MIN <= start_of(an.start_at) + counter
            <= i32::MAX,
        _ => true,
    }
}

/// The font part of a bullet's style.
pub open spec fn spec_bullet_font(font: Option<String>) -> Seq<char> {
    match font {
        Some(f) => "font-family: '"@ + spec_escape_html(f@) + "'; "@,
        None => Seq::empty(),
    }
}

/// The color part of a bullet's style, when the color resolves.
pub open spec fn spec_bullet_color(ctx: RenderCtx, color: Option<Color>) -> Seq<char> {
    match color {
        Some(c) => match spec_color_to_css(ctx, c) {
            Some(x) => "color: "@ + x + "; "@,
            None => Seq::empty(),
        },
        None => Seq::empty(),
    }
}

/// The size part of a bullet's style: absolute points for a negative value, else a
/// percentage of the text size unless within one percent of it.
pub open spec fn spec_bullet_size(size_pct: Option<i32>) -> Seq<char> {
    match size_pct {
        Some(v) => if v < 0 {
            "font-size: "@ + fmt_fixed(-v, 100000, 1) + "pt; "@
        } else if v - 100000 >= 1000 || 100000 - v >= 1000 {
            "font-size: "@ + fmt_fixed(v as int, 1000, 0) + "%; "@
        } else {
            Seq::empty()
        },
        None => Seq::empty(),
    }
}

/// The style attribute of a bullet: its font, its color and its size.
pub open spec fn spec_bullet_style(
    ctx: RenderCtx,
    font: Option<String>,
    color: Option<Color>,
    size_pct: Option<i32>,
) -> Seq<char> {
    spec_bullet_font(font) + spec_bullet_color(ctx, color) + spec_bullet_size(size_pct)
}

/// HTML of the bullet shown before a paragraph's runs; `counter` is the numbering
/// counter of the paragraph's level before the paragraph.
pub open spec fn spec_bullet_html(ctx: RenderCtx, bullet: Option<Bullet>, counter: int) -> Seq<char> {
    match bullet {
        Some(Bullet::Char(bc)) => "<span class=\"bullet\" style=\""@ + spec_bullet_style(
            ctx,
            bc.font,
            bc.color,
            bc.size_pct,
        ) + "\">"@ + spec_escape_html(bc.char@) + " </span>"@,
        Some(Bullet::AutoNum(an)) => "<span class=\"bullet\" style=\""@ + spec_bullet_style(
            ctx,
            an.font,
            an.color,
            an.size_pct,
        ) + "\">"@ + spec_escape_html(
            spec_format_auto_num(an.num_type@, start_of(an.start_at) + counter),
        ) + " </span>"@,
        _ => Seq::empty(),
    }
}

// ---------------------------------------------------------------------------
// Runs of a paragraph
// ---------------------------------------------------------------------------

/// HTML of a sequence of runs.
pub open spec fn runs_html(
    ctx: RenderCtx,
    runs: Seq<TextRun>,
    d: RunDefaultsSpec,
    fs: Option<&FontScheme>,
) -> Seq<char>
    decreases runs.len(),
{
    if runs.len() == 0 {
        Seq::empty()
    } else {
        runs_html(ctx, runs.drop_last(), d, fs) + spec_run_html(ctx, runs.last(), d, fs)
    }
}

/// `entries` are the typeface records of `runs`: one per run that is not a line break,
/// in order.
pub open spec fn run_entries_ok(
    entries: Seq<crate::text_metrics::FontResolutionEntry>,
    runs: Seq<TextRun>,
    slide_number: int,
    d: RunDefaultsSpec,
    fs: Option<&FontScheme>,
) -> bool
    decreases runs.len(),
{
    if runs.len() == 0 {
        entries.len() == 0
    } else if runs.last().is_break {
        run_entries_ok(entries, runs.drop_last(), slide_number, d, fs)
    } else {
        &&& entries.len() > 0
        &&& font_entry_ok(entries.last(), slide_number, runs.last(), d, fs)
        &&& run_entries_ok(entries.drop_last(), runs.drop_last(), slide_number, d, fs)
    }
}

/// The values of the defaults a paragraph's runs are rendered with: the paragraph's own
/// run defaults and those of its inherited level defaults.
pub open spec fn paragraph_run_defaults(
    para: TextParagraph,
    inh: Option<ParagraphDefaults>,
    font_ref_font: Option<Seq<char>>,
    font_ref_color: Option<Seq<char>>,
    font_scale: Option<i32>,
) -> RunDefaultsSpec {
    (
        para.def_rpr,
        match inh {
            Some(d) => d.def_run_props,
            None => None,
        },
        font_ref_font,
        font_ref_color,
        font_scale,
    )
}


/// The hex digits of an optional resolved color.
pub open spec fn hex_of(c: Option<&ResolvedColor>) -> Option<Seq<char>> {
    match c {
        Some(rc) => Some(rc.hex@),
        None => None,
    }
}

/// HTML of a paragraph: a `<p>` with the paragraph style, the bullet (numbered with the
/// counter of its level before the paragraph), the runs, and a non-breaking space for a
/// paragraph without runs.
pub open spec fn spec_paragraph_html(
    ctx: RenderCtx,
    para: TextParagraph,
    inh: Option<ParagraphDefaults>,
    counter: int,
    reduction: Option<i32>,
    d: RunDefaultsSpec,
    fs: Option<&FontScheme>,
) -> Seq<char> {
    "<p class=\"paragraph\" style=\""@ + spec_paragraph_style(para, inh, reduction) + "\">"@
        + spec_bullet_html(ctx, spec_paragraph_bullet(para, inh), counter) + runs_html(
        ctx,
        para.runs@,
        d,
        fs,
    ) + (if para.runs@.len() == 0 {
        "&nbsp;"@
    } else {
        Seq::empty()
    }) + "</p>\n"@
}

/// The typeface records a rendering pass appended: `new` extends `old` by records that
/// `run_entries_ok` accepts for `runs`.
pub open spec fn appended_run_entries(
    old_entries: Seq<crate::text_metrics::FontResolutionEntry>,
    new_entries: Seq<crate::text_metrics::FontResolutionEntry>,
    runs: Seq<TextRun>,
    slide_number: int,
    d: RunDefaultsSpec,
    fs: Option<&FontScheme>,
) -> bool {
    &&& old_entries.len() <= new_entries.len()
    &&& new_entries.subrange(0, old_entries.len() as int) == old_entries
    &&& run_entries_ok(
        new_entries.subrange(old_entries.len() as int, new_entries.len() as int),
        runs,
        slide_number,
        d,
        fs,
    )
}


/// The numbering counters after a paragraph that inherits nothing.
pub open spec fn next_counters(c: Seq<i32>, p: TextParagraph) -> Seq<i32> {
    Seq::new(
        9,
        |i: int| counter_after(c, clamped_level(p), spec_paragraph_bullet(p, None), i) as i32,
    )
}

/// The numbering counters after rendering `paras` from fresh counters.
pub open spec fn counters_after(paras: Seq<TextParagraph>) -> Seq<i32>
    decreases paras.len(),
{
    if paras.len() == 0 {
        Seq::new(9, |i: int| 0i32)
    } else {
        next_counters(counters_after(paras.drop_last()), paras.last())
    }
}

/// HTML of paragraphs that inherit nothing, numbered from fresh counters.
pub open spec fn paragraphs_html(ctx: RenderCtx, paras: Seq<TextParagraph>, fs: Option<&FontScheme>) -> Seq<
    char,
>
    decreases paras.len(),
{
    if paras.len() == 0 {
        Seq::empty()
    } else {
        let p = paras.last();
        paragraphs_html(ctx, paras.drop_last(), fs) + spec_paragraph_html(
            ctx,
            p,
            None,
            counters_after(paras.drop_last())[clamped_level(p)] as int,
            None,
            paragraph_run_defaults(p, None, None, None, None),
            fs,
        )
    }
}

/// Number of runs that are not line breaks.
pub open spec fn non_break_count(runs: Seq<TextRun>) -> nat
    decreases runs.len(),
{
    if runs.len() == 0 {
        0
    } else if runs.last().is_break {
        non_break_count(runs.drop_last())
    } else {
        non_break_count(runs.drop_last()) + 1
    }
}

/// `entries` are the typeface records of the runs of `paras`, paragraph by paragraph.
pub open spec fn paragraphs_entries_ok(
    entries: Seq<crate::text_metrics::FontResolutionEntry>,
    paras: Seq<TextParagraph>,
    slide_number: int,
    fs: Option<&FontScheme>,
) -> bool
    decreases paras.len(),
{
    if paras.len() == 0 {
        entries.len() == 0
    } else {
        let p = paras.last();
        let n = non_break_count(p.runs@);
        &&& entries.len() >= n
        &&& run_entries_ok(
            entries.subrange(entries.len() - n, entries.len() as int),
            p.runs@,
            slide_number,
            paragraph_run_defaults(p, None, None, None, None),
            fs,
        )
        &&& paragraphs_entries_ok(
            entries.subrange(0, entries.len() - n),
            paras.drop_last(),
            slide_number,
            fs,
        )
    }
}

/// Typeface records of one run that both meet `font_entry_ok` have the same plain values.
pub(crate) proof fn lemma_font_entry_unique(
    a: FontResolutionEntry,
    b: FontResolutionEntry,
    slide_number: int,
    run: TextRun,
    d: RunDefaultsSpec,
    fs: Option<&FontScheme>,
)
    requires
        font_entry_ok(a, slide_number, run, d, fs),
        font_entry_ok(b, slide_number, run, d, fs),
    ensures
        a@ == b@,
{
}

/// The typeface records of a list of runs are determined by the runs.
pub(crate) proof fn lemma_run_entries_unique(
    a: Seq<FontResolutionEntry>,
    b: Seq<FontResolutionEntry>,
    runs: Seq<TextRun>,
    slide_number: int,
    d: RunDefaultsSpec,
    fs: Option<&FontScheme>,
)
    requires
        run_entries_ok(a, runs, slide_number, d, fs),
        run_entries_ok(b, runs, slide_number, d, fs),
    ensures
        fonts_view(a) == fonts_view(b),
    decreases runs.len(),
{
    if runs.len() == 0 {
        assert(fonts_view(a) =~= fonts_view(b));
    } else if runs.last().is_break {
        lemma_run_entries_unique(a, b, runs.drop_last(), slide_number, d, fs);
    } else {
        lemma_run_entries_unique(a.drop_last(), b.drop_last(), runs.drop_last(), slide_number, d, fs);
        lemma_font_entry_unique(a.last(), b.last(), slide_number, runs.last(), d, fs);
        assert(a.subrange(0, a.len() - 1) =~= a.drop_last());
        assert(b.subrange(0, b.len() - 1) =~= b.drop_last());
        assert(fonts_view(a.subrange(a.len() - 1, a.len() as int)) =~= seq![a.last()@]);
        assert(fonts_view(b.subrange(b.len() - 1, b.len() as int)) =~= seq![b.last()@]);
        lemma_fonts_view_joined(a, b, a.len() - 1, b.len() - 1);
    }
}

/// The typeface records of paragraphs that inherit nothing are determined by them.
pub(crate) proof fn lemma_paragraphs_entries_unique(
    a: Seq<FontResolutionEntry>,
    b: Seq<FontResolutionEntry>,
    paras: Seq<TextParagraph>,
    slide_number: int,
    fs: Option<&FontScheme>,
)
    requires
        paragraphs_entries_ok(a, paras, slide_number, fs),
        paragraphs_entries_ok(b, paras, slide_number, fs),
    ensures
        fonts_view(a) == fonts_view(b),
    decreases paras.len(),
{
    if paras.len() == 0 {
        assert(fonts_view(a) =~= fonts_view(b));
    } else {
        let p = paras.last();
        let n = non_break_count(p.runs@) as int;
        lemma_run_entries_unique(
            a.subrange(a.len() - n, a.len() as int),
            b.subrange(b.len() - n, b.len() as int),
            p.runs@,
            slide_number,
            paragraph_run_defaults(p, None, None, None, None),
            fs,
        );
        lemma_paragraphs_entries_unique(
            a.subrange(0, a.len() - n),
            b.subrange(0, b.len() - n),
            paras.drop_last(),
            slide_number,
            fs,
        );
        lemma_fonts_view_joined(a, b, a.len() - n, b.len() - n);
    }
}

/// The bullets of `paras` fit the numbering counters: every auto-numbered bullet's
/// counter, and its first number plus that counter, stay within `i32` as the paragraphs
/// are numbered in turn from fresh counters.
pub open spec fn paragraphs_bullets_fit(paras: Seq<TextParagraph>) -> bool {
    forall|j: int|
        0 <= j < paras.len() ==> bullet_fits(
            spec_paragraph_bullet(#[trigger] paras[j], None),
            counters_after(paras.take(j))[clamped_level(paras[j])],
        )
}

pub(crate) proof fn lemma_run_entries_len(
    entries: Seq<crate::text_metrics::FontResolutionEntry>,
    runs: Seq<TextRun>,
    slide_number: int,
    d: RunDefaultsSpec,
    fs: Option<&FontScheme>,
)
    requires
        run_entries_ok(entries, runs, slide_number, d, fs),
    ensures
        entries.len() == non_break_count(runs),
    decreases runs.len(),
{
    if runs.len() > 0 {
        if runs.last().is_break {
            lemma_run_entries_len(entries, runs.drop_last(), slide_number, d, fs);
        } else {
            lemma_run_entries_len(entries.drop_last(), runs.drop_last(), slide_number, d, fs);
        }
    }
}



// ---------------------------------------------------------------------------
// Laws of bullet numbering
// ---------------------------------------------------------------------------

/// Auto-numbered paragraphs that follow one another at the same level are numbered
/// consecutively: the paragraph at position `k` shows its first number plus `k`.
pub proof fn auto_numbering_counts_up(paras: Seq<TextParagraph>, level: int)
    requires
        0 <= level < 9,
        paras.len() < i32::MAX,
        forall|j: int|
            0 <= j < paras.len() ==> clamped_level(#[trigger] paras[j]) == level
                && spec_paragraph_bullet(paras[j], None) matches Some(Bullet::AutoNum(_)),
    ensures
        forall|k: int| 0 <= k <= paras.len() ==> #[trigger] counters_after(paras.take(k))[level] == k,
{
    assert forall|k: int| 0 <= k <= paras.len() implies #[trigger] counters_after(paras.take(k))[level]
        == k by {
        lemma_counts_up_prefix(paras, level, k);
    }
}

proof fn lemma_counts_up_prefix(paras: Seq<TextParagraph>, level: int, k: int)
    requires
        0 <= level < 9,
        0 <= k <= paras.len(),
        paras.len() < i32::MAX,
        forall|j: int|
            0 <= j < paras.len() ==> clamped_level(#[trigger] paras[j]) == level
                && spec_paragraph_bullet(paras[j], None) matches Some(Bullet::AutoNum(_)),
    ensures
        counters_after(paras.take(k))[level] == k,
    decreases k,
{
    if k == 0 {
        assert(paras.take(0) =~= Seq::<TextParagraph>::empty());
    } else {
        lemma_counts_up_prefix(paras, level, k - 1);
        let t = paras.take(k);
        assert(t.drop_last() =~= paras.take(k - 1));
        assert(t.last() == paras[k - 1]);
        let p = paras[k - 1];
        assert(clamped_level(p) == level);
        let c = counters_after(paras.take(k - 1));
        let v = counter_after(c, level, spec_paragraph_bullet(p, None), level);
        assert(v == k);
        assert(counters_after(t)[level] == v as i32);
    }
}

/// A paragraph without an auto-numbered bullet (a character bullet, a suppressed
/// bullet, no bullet, or no visible text) restarts numbering at its level and every
/// deeper level, so the next auto-numbered paragraph there shows its first number.
pub proof fn plain_paragraph_restarts_numbering(
    prefix: Seq<TextParagraph>,
    p: TextParagraph,
    level: int,
)
    requires
        clamped_level(p) <= level < 9,
        !(spec_paragraph_bullet(p, None) matches Some(Bullet::AutoNum(_))),
    ensures
        counters_after(prefix.push(p))[level] == 0,
{
    assert(prefix.push(p).drop_last() =~= prefix);
}

/// A paragraph at a deeper level leaves the numbering of the outer levels unchanged,
/// so an outer list continues its count after a nested list.
pub proof fn nested_paragraph_keeps_outer_numbering(
    prefix: Seq<TextParagraph>,
    p: TextParagraph,
    level: int,
)
    requires
        0 <= level < clamped_level(p),
    ensures
        counters_after(prefix.push(p))[level] == counters_after(prefix)[level],
{
    assert(prefix.push(p).drop_last() =~= prefix);
}

// ---------------------------------------------------------------------------
// Executable pieces
// ---------------------------------------------------------------------------

fn push_line_height(
    buf: &mut String,
    para: &TextParagraph,
    inherited: Option<&ParagraphDefaults>,
    reduction: Option<i32>,
)
    ensures
        final(buf)@ == old(buf)@ + spec_line_height(*para, deref(inherited), reduction),
{
    let factor: i128 = match reduction {
        Some(r) => 100000 - (r as i128),
        None => 100000,
    };
    let ls: Option<SpacingValue> = if para.line_spacing.is_some() {
        para.line_spacing
    } else {
        match inherited {
            Some(d) => d.line_spacing,
            None => None,
        }
    };
    match ls {
        Some(SpacingValue::Percent(p)) => {
            let pw: i128 = p as i128;
            assert(-0x1_0000_0000_0000_0000 <= pw * factor <= 0x1_0000_0000_0000_0000) by (nonlinear_arith)
                requires
                    -0x8000_0000 <= pw < 0x8000_0000,
                    -0x8000_0000 <= factor <= 0x1_0000_0000,
            ;
            push_str(buf, "; line-height: ");
            push_fixed(buf, pw * factor, 10000000000, 2);
        },
        Some(SpacingValue::Points(pt)) => {
            let pw: i128 = pt as i128;
            assert(-0x1_0000_0000_0000_0000 <= pw * factor <= 0x1_0000_0000_0000_0000) by (nonlinear_arith)
                requires
                    -0x8000_0000 <= pw < 0x8000_0000,
                    -0x8000_0000 <= factor <= 0x1_0000_0000,
            ;
            push_str(buf, "; line-height: ");
            push_fixed(buf, pw * factor, 10000000, 1);
            push_str(buf, "pt");
        },
        None => {
            if reduction.is_some() {
                push_str(buf, "; line-height: ");
                push_fixed(buf, factor, 100000, 2);
            }
        },
    }
    proof {
        assert(buf@ =~= old(buf)@ + spec_line_height(*para, deref(inherited), reduction));
    }
}

fn push_spacing_margin(buf: &mut String, prop: &str, v: Option<SpacingValue>)
    ensures
        final(buf)@ == old(buf)@ + spec_spacing_margin(prop@, v),
{
    match v {
        Some(SpacingValue::Percent(p)) => {
            push_str(buf, "; ");
            push_str(buf, prop);
            push_str(buf, ": ");
            push_fixed(buf, p as i128, 100000, 1);
            push_str(buf, "em");
        },
        Some(SpacingValue::Points(pt)) => {
            push_str(buf, "; ");
            push_str(buf, prop);
            push_str(buf, ": ");
            push_fixed(buf, pt as i128, 100, 1);
            push_str(buf, "pt");
        },
        None => {},
    }
    proof {
        assert(buf@ =~= old(buf)@ + spec_spacing_margin(prop@, v));
    }
}

fn first_spacing(a: Option<SpacingValue>, b: Option<SpacingValue>) -> (r: Option<SpacingValue>)
    ensures
        r == first_of(a, b),
{
    if a.is_some() {
        a
    } else {
        b
    }
}

fn first_i64(a: Option<i64>, b: Option<i64>) -> (r: Option<i64>)
    ensures
        r == first_of(a, b),
{
    if a.is_some() {
        a
    } else {
        b
    }
}

fn push_padding_left(buf: &mut String, para: &TextParagraph, inherited: Option<&ParagraphDefaults>)
    ensures
        final(buf)@ == old(buf)@ + spec_padding_left(*para, deref(inherited)),
{
    let inh_ml = match inherited {
        Some(d) => d.margin_left,
        None => None,
    };
    match first_i64(para.margin_left, inh_ml) {
        Some(ml) => {
            push_str(buf, "; padding-left: ");
            push_fixed(buf, ml as i128, 12700, 1);
            push_str(buf, "pt");
        },
        None => {
            if para.level > 0 {
                push_str(buf, "; padding-left: ");
                push_fixed(buf, (para.level as i128) * 36, 1, 1);
                push_str(buf, "pt");
            }
        },
    }
    proof {
        assert(buf@ =~= old(buf)@ + spec_padding_left(*para, deref(inherited)));
    }
}

fn push_text_indent(buf: &mut String, para: &TextParagraph, inherited: Option<&ParagraphDefaults>)
    ensures
        final(buf)@ == old(buf)@ + spec_text_indent(*para, deref(inherited)),
{
    let inh_indent = match inherited {
        Some(d) => d.indent,
        None => None,
    };
    match first_i64(para.indent, inh_indent) {
        Some(ind) => {
            push_str(buf, "; text-indent: ");
            push_fixed(buf, ind as i128, 12700, 1);
            push_str(buf, "pt");
        },
        None => {},
    }
    proof {
        assert(buf@ =~= old(buf)@ + spec_text_indent(*para, deref(inherited)));
    }
}

/// The style attribute of a paragraph.
fn paragraph_style(
    para: &TextParagraph,
    inherited: Option<&ParagraphDefaults>,
    reduction: Option<i32>,
) -> (r: String)
    ensures
        r@ == spec_paragraph_style(*para, deref(inherited), reduction),
{
    let mut st = String::new();
    push_str(&mut st, "text-align: ");
    push_str(&mut st, para.alignment.to_css());
    let ghost a = st@;
    if para.rtl {
        push_str(&mut st, "; direction: rtl; unicode-bidi: bidi-override");
    }
    let ghost b = st@;
    push_line_height(&mut st, para, inherited, reduction);
    let ghost c = st@;
    let (inh_before, inh_after) = match inherited {
        Some(d) => (d.space_before, d.space_after),
        None => (None, None),
    };
    push_spacing_margin(&mut st, "margin-top", first_spacing(para.space_before, inh_before));
    let ghost d1 = st@;
    push_spacing_margin(&mut st, "margin-bottom", first_spacing(para.space_after, inh_after));
    let ghost e = st@;
    push_padding_left(&mut st, para, inherited);
    let ghost f = st@;
    push_text_indent(&mut st, para, inherited);
    proof {
        reveal_strlit("margin-top");
        reveal_strlit("margin-bottom");
        let inh = deref(inherited);
        let rtl_part: Seq<char> = if para.rtl {
            "; direction: rtl; unicode-bidi: bidi-override"@
        } else {
            Seq::empty()
        };
        assert(b =~= a + rtl_part);
        assert(st@ =~= "text-align: "@ + spec_alignment_css(para.alignment) + rtl_part
            + spec_line_height(*para, inh, reduction) + spec_spacing_margin(
            "margin-top"@,
            first_of(para.space_before, inherited_space_before(inh)),
        ) + spec_spacing_margin(
            "margin-bottom"@,
            first_of(para.space_after, inherited_space_after(inh)),
        ) + spec_padding_left(*para, inh) + spec_text_indent(*para, inh));
    }
    st
}

fn is_all_whitespace(s: &str) -> (r: bool)
    ensures
        r == all_whitespace(s@),
{
    let mut all = true;
    for ch in it: s.chars()
        invariant
            it.seq() == s@,
            all == all_whitespace(s@.take(it.index() as int)),
    {
        proof {
            let k = it.index() as int;
            let t = s@.take(k);
            let t1 = s@.take(k + 1);
            assert(t1.drop_last() == t);
            assert(t1.last() == ch);
            if all_whitespace(t) && is_unicode_whitespace(ch) {
                assert forall|i: int| 0 <= i < t1.len() implies is_unicode_whitespace(
                    #[trigger] t1[i],
                ) by {
                    if i < k {
                        assert(t1[i] == t[i]);
                    }
                }
            }
            if !all_whitespace(t) {
                let i = choose|i: int| 0 <= i < t.len() && !is_unicode_whitespace(#[trigger] t[i]);
                assert(t1[i] == t[i]);
            }
            if !is_unicode_whitespace(ch) {
                assert(t1[k] == ch);
            }
        }
        if !is_unicode_whitespace_char(ch) {
            all = false;
        }
    }
    proof {
        assert(s@.take(s@.len() as int) == s@);
    }
    all
}

fn runs_have_visible_text(runs: &Vec<TextRun>) -> (r: bool)
    ensures
        r == has_visible_text(runs@),
{
    let mut i: usize = 0;
    while i < runs.len()
        invariant
            i <= runs@.len(),
            forall|j: int| 0 <= j < i ==> (#[trigger] runs@[j]).is_break || all_whitespace(runs@[j].text@),
        decreases runs@.len() - i,
    {
        let run = &runs[i];
        if !run.is_break && !is_all_whitespace(run.text.as_str()) {
            return true;
        }
        i = i + 1;
    }
    false
}

/// The bullet a paragraph shows.
fn paragraph_bullet<'a>(para: &'a TextParagraph, inherited: Option<&'a ParagraphDefaults>) -> (r: Option<
    &'a Bullet,
>)
    ensures
        deref(r) == spec_paragraph_bullet(*para, deref(inherited)),
{
    if !runs_have_visible_text(&para.runs) {
        return None;
    }
    match &para.bullet {
        Some(b) => Some(b),
        None => match inherited {
            Some(d) => match &d.bullet {
                Some(b) => Some(b),
                None => None,
            },
            None => None,
        },
    }
}

/// Updates the numbering counters for a paragraph at `level` that shows `bullet`.
fn advance_counters(counters: &mut [i32; 9], level: usize, bullet: Option<&Bullet>)
    requires
        level < 9,
        bullet_fits(deref(bullet), old(counters)@[level as int]),
    ensures
        forall|i: int|
            0 <= i < 9 ==> #[trigger] final(counters)@[i] == counter_after(
                old(counters)@,
                level as int,
                deref(bullet),
                i,
            ),
{
    let numbered = match bullet {
        Some(Bullet::AutoNum(_)) => true,
        _ => false,
    };
    let mut i: usize = level;
    while i < 9
        invariant
            level <= i <= 9,
            counters@.len() == 9,
            numbered == (deref(bullet) matches Some(Bullet::AutoNum(_))),
            bullet_fits(deref(bullet), old(counters)@[level as int]),
            forall|j: int|
                0 <= j < 9 ==> #[trigger] counters@[j] == if j < i {
                    counter_after(old(counters)@, level as int, deref(bullet), j)
                } else {
                    old(counters)@[j] as int
                },
        decreases 9 - i,
    {
        if numbered && i == level {
            counters[i] = counters[i] + 1;
        } else {
            counters[i] = 0;
        }
        i = i + 1;
    }
}

fn push_bullet_size(buf: &mut String, size_pct: Option<i32>)
    ensures
        final(buf)@ == old(buf)@ + spec_bullet_size(size_pct),
{
    if let Some(v) = size_pct {
        if v < 0 {
            push_str(buf, "font-size: ");
            push_fixed(buf, -(v as i128), 100000, 1);
            push_str(buf, "pt; ");
        } else if v - 100000 >= 1000 || 100000 - v >= 1000 {
            push_str(buf, "font-size: ");
            push_fixed(buf, v as i128, 1000, 0);
            push_str(buf, "%; ");
        }
    }
    proof {
        assert(buf@ =~= old(buf)@ + spec_bullet_size(size_pct));
    }
}

fn push_bullet_style(
    buf: &mut String,
    ctx: &RenderCtx,
    font: &Option<String>,
    color: &Option<Color>,
    size_pct: Option<i32>,
)
    ensures
        final(buf)@ == old(buf)@ + spec_bullet_style(*ctx, *font, *color, size_pct),
{
    if let Some(f) = font {
        push_str(buf, "font-family: '");
        push_str(buf, escape_html(f.as_str()).as_str());
        push_str(buf, "'; ");
    }
    let ghost a = buf@;
    if let Some(c) = color {
        if let Some(css) = ctx.color_to_css(c) {
            push_str(buf, "color: ");
            push_str(buf, css.as_str());
            push_str(buf, "; ");
        }
    }
    let ghost b = buf@;
    push_bullet_size(buf, size_pct);
    proof {
        assert(a =~= old(buf)@ + spec_bullet_font(*font));
        assert(b =~= a + spec_bullet_color(*ctx, *color));
        assert(buf@ =~= old(buf)@ + spec_bullet_style(*ctx, *font, *color, size_pct));
    }
}

fn push_bullet(html: &mut String, ctx: &RenderCtx, bullet: Option<&Bullet>, counter: i32)
    requires
        bullet_fits(deref(bullet), counter),
    ensures
        final(html)@ == old(html)@ + spec_bullet_html(*ctx, deref(bullet), counter as int),
{
    match bullet {
        Some(Bullet::Char(bc)) => {
            push_str(html, "<span class=\"bullet\" style=\"");
            push_bullet_style(html, ctx, &bc.font, &bc.color, bc.size_pct);
            push_str(html, "\">");
            push_str(html, escape_html(bc.char.as_str()).as_str());
            push_str(html, " </span>");
        },
        Some(Bullet::AutoNum(an)) => {
            let start: i32 = match an.start_at {
                Some(s) => s,
                None => 1,
            };
            let label = format_auto_num(an.num_type.as_str(), start + counter);
            push_str(html, "<span class=\"bullet\" style=\"");
            push_bullet_style(html, ctx, &an.font, &an.color, an.size_pct);
            push_str(html, "\">");
            push_str(html, escape_html(label.as_str()).as_str());
            push_str(html, " </span>");
        },
        _ => {},
    }
    proof {
        assert(html@ =~= old(html)@ + spec_bullet_html(*ctx, deref(bullet), counter as int));
    }
}


proof fn lemma_appended_none(
    entries: Seq<crate::text_metrics::FontResolutionEntry>,
    runs: Seq<TextRun>,
    slide_number: int,
    d: RunDefaultsSpec,
    fs: Option<&FontScheme>,
)
    ensures
        appended_run_entries(entries, entries, runs.take(0), slide_number, d, fs),
{
    assert(entries.subrange(0, entries.len() as int) =~= entries);
    assert(runs.take(0) =~= Seq::<TextRun>::empty());
    assert(entries.subrange(entries.len() as int, entries.len() as int) =~= Seq::<
        crate::text_metrics::FontResolutionEntry,
    >::empty());
}

proof fn lemma_appended_step(
    old_entries: Seq<crate::text_metrics::FontResolutionEntry>,
    before: Seq<crate::text_metrics::FontResolutionEntry>,
    after: Seq<crate::text_metrics::FontResolutionEntry>,
    runs: Seq<TextRun>,
    i: int,
    slide_number: int,
    d: RunDefaultsSpec,
    fs: Option<&FontScheme>,
)
    requires
        0 <= i < runs.len(),
        appended_run_entries(old_entries, before, runs.take(i), slide_number, d, fs),
        runs[i].is_break ==> after == before,
        !runs[i].is_break ==> {
            &&& after.len() == before.len() + 1
            &&& after.drop_last() == before
            &&& font_entry_ok(after.last(), slide_number, runs[i], d, fs)
        },
    ensures
        appended_run_entries(old_entries, after, runs.take(i + 1), slide_number, d, fs),
{
    let t1 = runs.take(i + 1);
    assert(t1.drop_last() =~= runs.take(i));
    assert(t1.last() == runs[i]);
    let added_before = before.subrange(old_entries.len() as int, before.len() as int);
    let added = after.subrange(old_entries.len() as int, after.len() as int);
    if runs[i].is_break {
        assert(added =~= added_before);
    } else {
        assert(added.drop_last() =~= added_before);
        assert(added.last() == after.last());
        assert(after.subrange(0, old_entries.len() as int) =~= before.subrange(
            0,
            old_entries.len() as int,
        ));
    }
}

impl HtmlRenderer {
    /// Render a paragraph with the defaults it inherits from its list level (`text_ctx`)
    /// and from the shape's fontRef and auto-fit (font scale and line-spacing reduction,
    /// thousandths of a percent). The paragraph's own spacing, indent and bullet win over
    /// the inherited ones. A bullet is shown only for a paragraph with visible text; an
    /// auto-numbered bullet counts its level up by one and restarts the deeper levels,
    /// and any other paragraph restarts its level and the deeper ones.
    #[verifier::rlimit(60)]
    pub fn render_paragraph_with_defaults(
        para: &TextParagraph,
        ctx: &RenderCtx<'_>,
        font_scheme: Option<&FontScheme>,
        coll: &mut RenderCollector,
        auto_num_counters: &mut [i32; 9],
        text_ctx: &TextStyleCtx<'_>,
        font_ref_font: Option<&str>,
        font_ref_color: Option<&ResolvedColor>,
        font_scale: Option<i32>,
        ln_spc_reduction: Option<i32>,
        html: &mut String,
    )
        requires
            old(coll).current_slide_index < usize::MAX,
            bullet_fits(
                spec_paragraph_bullet(*para, spec_level_defaults(*text_ctx, clamped_level(*para))),
                old(auto_num_counters)@[clamped_level(*para)],
            ),
        ensures
            final(html)@ == old(html)@ + spec_paragraph_html(
                *ctx,
                *para,
                spec_level_defaults(*text_ctx, clamped_level(*para)),
                old(auto_num_counters)@[clamped_level(*para)] as int,
                ln_spc_reduction,
                paragraph_run_defaults(
                    *para,
                    spec_level_defaults(*text_ctx, clamped_level(*para)),
                    opt_str_view(font_ref_font),
                    hex_of(font_ref_color),
                    font_scale,
                ),
                font_scheme,
            ),
            forall|i: int|
                0 <= i < 9 ==> #[trigger] final(auto_num_counters)@[i] == counter_after(
                    old(auto_num_counters)@,
                    clamped_level(*para),
                    spec_paragraph_bullet(
                        *para,
                        spec_level_defaults(*text_ctx, clamped_level(*para)),
                    ),
                    i,
                ),
            same_but_fonts(*old(coll), *final(coll)),
            appended_run_entries(
                old(coll).font_resolution_entries@,
                final(coll).font_resolution_entries@,
                para.runs@,
                old(coll).current_slide_index + 1,
                paragraph_run_defaults(
                    *para,
                    spec_level_defaults(*text_ctx, clamped_level(*para)),
                    opt_str_view(font_ref_font),
                    hex_of(font_ref_color),
                    font_scale,
                ),
                font_scheme,
            ),
    {
        let level: usize = if para.level > 8 {
            8
        } else {
            para.level as usize
        };
        let inherited = text_ctx.get_level_defaults(level);
        let ghost inh = deref(inherited);
        assert(level as int == clamped_level(*para));
        assert(inh == spec_level_defaults(*text_ctx, clamped_level(*para)));
        let style = paragraph_style(para, inherited, ln_spc_reduction);
        push_str(html, "<p class=\"paragraph\" style=\"");
        push_str(html, style.as_str());
        push_str(html, "\">");
        let ghost after_open = html@;
        assert(after_open =~= old(html)@ + ("<p class=\"paragraph\" style=\""@ + style@ + "\">"@));

        let bullet = paragraph_bullet(para, inherited);
        let counter_before = auto_num_counters[level];
        advance_counters(auto_num_counters, level, bullet);
        push_bullet(html, ctx, bullet, counter_before);
        let ghost after_bullet = html@;

        let defaults = RunRenderDefaults {
            para_def_rpr: match &para.def_rpr {
                Some(x) => Some(x),
                None => None,
            },
            run_defaults: match inherited {
                Some(d) => match &d.def_run_props {
                    Some(x) => Some(x),
                    None => None,
                },
                None => None,
            },
            font_ref_font,
            font_ref_color,
            font_scale,
        };
        let ghost dv = paragraph_run_defaults(
            *para,
            inh,
            opt_str_view(font_ref_font),
            hex_of(font_ref_color),
            font_scale,
        );
        assert(defaults_view(defaults) == dv);
        Self::render_runs(&para.runs, ctx, font_scheme, defaults, coll, html);
        let ghost after_runs = html@;
        if para.runs.len() == 0 {
            push_str(html, "&nbsp;");
        }
        push_str(html, "</p>\n");
        proof {
            let open_part = "<p class=\"paragraph\" style=\""@ + style@ + "\">"@;
            let bullet_part = spec_bullet_html(*ctx, deref(bullet), counter_before as int);
            let runs_part = runs_html(*ctx, para.runs@, dv, font_scheme);
            let tail: Seq<char> = (if para.runs@.len() == 0 {
                "&nbsp;"@
            } else {
                Seq::empty()
            }) + "</p>\n"@;
            assert(html@ =~= after_runs + tail);
            assert(after_bullet == after_open + bullet_part);
            assert(after_runs == after_bullet + runs_part);
            assert(html@ =~= old(html)@ + (open_part + bullet_part + runs_part + tail));
        }
    }

    /// Render runs in order with the same defaults.
    fn render_runs(
        runs: &Vec<TextRun>,
        ctx: &RenderCtx<'_>,
        font_scheme: Option<&FontScheme>,
        defaults: RunRenderDefaults<'_>,
        coll: &mut RenderCollector,
        html: &mut String,
    )
        requires
            old(coll).current_slide_index < usize::MAX,
        ensures
            final(html)@ == old(html)@ + runs_html(*ctx, runs@, defaults_view(defaults), font_scheme),
            same_but_fonts(*old(coll), *final(coll)),
            appended_run_entries(
                old(coll).font_resolution_entries@,
                final(coll).font_resolution_entries@,
                runs@,
                old(coll).current_slide_index + 1,
                defaults_view(defaults),
                font_scheme,
            ),
    {
        let ghost dv = defaults_view(defaults);
        let ghost old_entries = old(coll).font_resolution_entries@;
        let ghost slide_number = old(coll).current_slide_index + 1;
        proof {
            lemma_appended_none(old_entries, runs@, slide_number, dv, font_scheme);
            assert(runs@.take(0) =~= Seq::<TextRun>::empty());
        }
        let mut i: usize = 0;
        while i < runs.len()
            invariant
                i <= runs@.len(),
                html@ == old(html)@ + runs_html(*ctx, runs@.take(i as int), dv, font_scheme),
                same_but_fonts(*old(coll), *coll),
                old(coll).current_slide_index < usize::MAX,
                dv == defaults_view(defaults),
                slide_number == old(coll).current_slide_index + 1,
                old_entries == old(coll).font_resolution_entries@,
                appended_run_entries(
                    old_entries,
                    coll.font_resolution_entries@,
                    runs@.take(i as int),
                    slide_number,
                    dv,
                    font_scheme,
                ),
            decreases runs@.len() - i,
        {
            let ghost before_entries = coll.font_resolution_entries@;
            let run = &runs[i];
            assert(*run == runs@[i as int]);
            Self::render_run_with_defaults(run, ctx, font_scheme, defaults, coll, html);
            proof {
                lemma_appended_step(
                    old_entries,
                    before_entries,
                    coll.font_resolution_entries@,
                    runs@,
                    i as int,
                    slide_number,
                    dv,
                    font_scheme,
                );
                assert(runs@.take(i as int + 1).drop_last() =~= runs@.take(i as int));
                assert(runs@.take(i as int + 1).last() == runs@[i as int]);
            }
            i = i + 1;
        }
        proof {
            assert(runs@.take(runs@.len() as int) =~= runs@);
        }
    }

    /// Render paragraphs that inherit nothing, in order, numbering their bullets from
    /// fresh counters.
    pub(crate) fn render_paragraphs(
        paras: &Vec<TextParagraph>,
        ctx: &RenderCtx<'_>,
        font_scheme: Option<&FontScheme>,
        coll: &mut RenderCollector,
        html: &mut String,
    )
        requires
            old(coll).current_slide_index < usize::MAX,
            paragraphs_bullets_fit(paras@),
        ensures
            final(html)@ == old(html)@ + paragraphs_html(*ctx, paras@, font_scheme),
            same_but_fonts(*old(coll), *final(coll)),
            old(coll).font_resolution_entries@.len() <= final(coll).font_resolution_entries@.len(),
            final(coll).font_resolution_entries@.subrange(
                0,
                old(coll).font_resolution_entries@.len() as int,
            ) == old(coll).font_resolution_entries@,
            paragraphs_entries_ok(
                final(coll).font_resolution_entries@.subrange(
                    old(coll).font_resolution_entries@.len() as int,
                    final(coll).font_resolution_entries@.len() as int,
                ),
                paras@,
                old(coll).current_slide_index + 1,
                font_scheme,
            ),
    {
        let text_ctx = TextStyleCtx {
            slide_list_style: None,
            layout_list_style: None,
            master_placeholder_list_style: None,
            master_list_style: None,
            default_list_style: None,
        };
        proof {
            lemma_plain_paragraphs(*ctx, paras@, font_scheme);
        }
        Self::render_text_paragraphs(paras, ctx, font_scheme, coll, &text_ctx, None, None, None, None, html);
        proof {
            lemma_plain_entries(
                coll.font_resolution_entries@.subrange(
                    old(coll).font_resolution_entries@.len() as int,
                    coll.font_resolution_entries@.len() as int,
                ),
                paras@,
                old(coll).current_slide_index + 1,
                font_scheme,
            );
        }
    }

    /// Render a paragraph that inherits nothing: no list-level defaults, fontRef or
    /// auto-fit.
    pub fn render_paragraph(
        para: &TextParagraph,
        ctx: &RenderCtx<'_>,
        font_scheme: Option<&FontScheme>,
        coll: &mut RenderCollector,
        auto_num_counters: &mut [i32; 9],
        html: &mut String,
    )
        requires
            old(coll).current_slide_index < usize::MAX,
            bullet_fits(
                spec_paragraph_bullet(*para, None),
                old(auto_num_counters)@[clamped_level(*para)],
            ),
        ensures
            final(html)@ == old(html)@ + spec_paragraph_html(
                *ctx,
                *para,
                None,
                old(auto_num_counters)@[clamped_level(*para)] as int,
                None,
                paragraph_run_defaults(*para, None, None, None, None),
                font_scheme,
            ),
            forall|i: int|
                0 <= i < 9 ==> #[trigger] final(auto_num_counters)@[i] == counter_after(
                    old(auto_num_counters)@,
                    clamped_level(*para),
                    spec_paragraph_bullet(*para, None),
                    i,
                ),
            same_but_fonts(*old(coll), *final(coll)),
            appended_run_entries(
                old(coll).font_resolution_entries@,
                final(coll).font_resolution_entries@,
                para.runs@,
                old(coll).current_slide_index + 1,
                paragraph_run_defaults(*para, None, None, None, None),
                font_scheme,
            ),
    {
        let text_ctx = TextStyleCtx {
            slide_list_style: None,
            layout_list_style: None,
            master_placeholder_list_style: None,
            master_list_style: None,
            default_list_style: None,
        };
        Self::render_paragraph_with_defaults(
            para,
            ctx,
            font_scheme,
            coll,
            auto_num_counters,
            &text_ctx,
            None,
            None,
            None,
            None,
            html,
        );
    }
}

} // verus!
