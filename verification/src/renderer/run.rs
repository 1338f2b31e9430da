//! Rendering of text runs: the typeface chain, the character style and the script
//! segments of a run.
use vstd::prelude::*;

use crate::model::color::ResolvedColor;
use crate::model::hierarchy::{spec_resolve_typeface, FontScheme};
use crate::model::text::{RunDefaults, TextRun};
use crate::renderer::context::{spec_color_to_css, RenderCollector, RenderCtx};
use crate::renderer::fill_css::HtmlRenderer;
use crate::renderer::html::{escape_html, push_sep, spec_escape_html};
use crate::renderer::text_style::deref;
use crate::strings::{fmt_fixed, push_fixed, push_str};
use crate::text_metrics::{
    classify_script_category, segment_by_script, segments_view, spec_classify_script_category,
    spec_segment_by_script, FontResolutionEntry, FontResolutionSource, ScriptCategory,
};

verus! {

// ---------------------------------------------------------------------------
// Typeface choice
// ---------------------------------------------------------------------------

/// The characters of an optional string.
pub open spec fn opt_view(o: Option<String>) -> Option<Seq<char>> {
    match o {
        Some(s) => Some(s@),
        None => None,
    }
}

/// The characters of an optional string slice.
pub open spec fn opt_str_view(o: Option<&str>) -> Option<Seq<char>> {
    match o {
        Some(s) => Some(s@),
        None => None,
    }
}

/// `a` if present, else `b`.
pub open spec fn first_of<T>(a: Option<T>, b: Option<T>) -> Option<T> {
    if a is Some {
        a
    } else {
        b
    }
}

/// The typeface for a script family from a Latin / East Asian / complex-script triple:
/// the family's own typeface first, then the others (complex script and emoji: complex,
/// Latin, East Asian; East Asian: East Asian, Latin, complex; Latin: Latin, East Asian,
/// complex).
pub open spec fn spec_choose_font(
    cat: ScriptCategory,
    latin: Option<Seq<char>>,
    east_asian: Option<Seq<char>>,
    complex_script: Option<Seq<char>>,
) -> Option<Seq<char>> {
    match cat {
        ScriptCategory::Complex | ScriptCategory::Emoji => first_of(
            complex_script,
            first_of(latin, east_asian),
        ),
        ScriptCategory::EastAsian => first_of(east_asian, first_of(latin, complex_script)),
        ScriptCategory::LatinLike => first_of(latin, first_of(east_asian, complex_script)),
    }
}

/// The defaults a run is rendered with: the paragraph's own run defaults, the inherited
/// list-level run defaults, the shape's fontRef typeface and color, and the auto-fit
/// font scale (thousandths of a percent).
#[derive(Clone, Copy)]
pub struct RunRenderDefaults<'a> {
    pub para_def_rpr: Option<&'a RunDefaults>,
    pub run_defaults: Option<&'a RunDefaults>,
    pub font_ref_font: Option<&'a str>,
    pub font_ref_color: Option<&'a ResolvedColor>,
    pub font_scale: Option<i32>,
}

/// The values of run-rendering defaults: the paragraph's run defaults, the inherited run
/// defaults, the fontRef typeface, the fontRef color (hex digits) and the font scale.
pub type RunDefaultsSpec = (
    Option<RunDefaults>,
    Option<RunDefaults>,
    Option<Seq<char>>,
    Option<Seq<char>>,
    Option<i32>,
);

/// The values that run-rendering defaults hold.
pub open spec fn defaults_view(d: RunRenderDefaults) -> RunDefaultsSpec {
    (
        deref(d.para_def_rpr),
        deref(d.run_defaults),
        opt_str_view(d.font_ref_font),
        match d.font_ref_color {
            Some(c) => Some(c.hex@),
            None => None,
        },
        d.font_scale,
    )
}

/// The run's own typeface for a script family.
pub open spec fn run_font_choice(run: TextRun, cat: ScriptCategory) -> Option<Seq<char>> {
    spec_choose_font(
        cat,
        opt_view(run.font.latin),
        opt_view(run.font.east_asian),
        opt_view(run.font.complex_script),
    )
}

/// The typeface that run defaults give a script family.
pub open spec fn defaults_font_choice(d: Option<RunDefaults>, cat: ScriptCategory) -> Option<
    Seq<char>,
> {
    match d {
        Some(x) => spec_choose_font(
            cat,
            opt_view(x.font_latin),
            opt_view(x.font_ea),
            opt_view(x.font_cs),
        ),
        None => None,
    }
}

/// The typeface a run asks for, chosen for the script of its whole text, and where it
/// comes from: the run itself, the paragraph's run defaults, the inherited defaults, or
/// the shape's fontRef.
pub open spec fn spec_requested_font(run: TextRun, d: RunDefaultsSpec) -> Option<
    (Seq<char>, FontResolutionSource),
> {
    let cat = spec_classify_script_category(run.text@);
    if run_font_choice(run, cat) is Some {
        Some((run_font_choice(run, cat).unwrap(), FontResolutionSource::ExplicitRun))
    } else if defaults_font_choice(d.0, cat) is Some {
        Some(
            (
                defaults_font_choice(d.0, cat).unwrap(),
                FontResolutionSource::ParagraphDefaults,
            ),
        )
    } else if defaults_font_choice(d.1, cat) is Some {
        Some(
            (
                defaults_font_choice(d.1, cat).unwrap(),
                FontResolutionSource::InheritedDefaults,
            ),
        )
    } else {
        match d.2 {
            Some(f) => Some((f, FontResolutionSource::FontRef)),
            None => None,
        }
    }
}

/// The typeface a name stands for: a theme reference (`+...`) through the font scheme,
/// no typeface for an empty name, and any other name itself.
pub open spec fn spec_resolve_font_name(name: Seq<char>, fs: Option<&FontScheme>) -> Option<
    Seq<char>,
> {
    if name.len() > 0 && name[0] == '+' {
        match fs {
            Some(f) => spec_resolve_typeface(*f, name),
            None => None,
        }
    } else if name.len() == 0 {
        None
    } else {
        Some(name)
    }
}

/// The record of how a run's typeface was resolved, for the slide with 1-based number
/// `slide_number`.
pub open spec fn font_entry_ok(
    e: FontResolutionEntry,
    slide_number: int,
    run: TextRun,
    d: RunDefaultsSpec,
    fs: Option<&FontScheme>,
) -> bool {
    let req = spec_requested_font(run, d);
    let resolved = match req {
        Some((n, _)) => spec_resolve_font_name(n, fs),
        None => None,
    };
    &&& e.slide_index == slide_number
    &&& e.shape_name is None
    &&& e.run_text@ == run.text@
    &&& opt_view(e.requested_typeface) == (match req {
        Some((n, _)) => Some(n),
        None => None,
    })
    &&& opt_view(e.resolved_typeface) == resolved
    &&& e.source == (match req {
        Some((_, s)) => Some(s),
        None => None,
    })
    &&& e.fallback_used == (match (req, resolved) {
        (Some((n, _)), Some(r)) => n != r,
        _ => false,
    })
}

/// The typeface requested for one script segment: the run's, the paragraph defaults',
/// the inherited defaults' choice for the segment's script, then the fontRef typeface.
pub open spec fn spec_segment_font(cat: ScriptCategory, run: TextRun, d: RunDefaultsSpec) -> Option<
    Seq<char>,
> {
    first_of(
        run_font_choice(run, cat),
        first_of(
            defaults_font_choice(d.0, cat),
            first_of(defaults_font_choice(d.1, cat), d.2),
        ),
    )
}

/// HTML of one script segment: a span with the resolved typeface, if any.
pub open spec fn segment_html(
    cat: ScriptCategory,
    text: Seq<char>,
    run: TextRun,
    d: RunDefaultsSpec,
    fs: Option<&FontScheme>,
) -> Seq<char> {
    let resolved = match spec_segment_font(cat, run, d) {
        Some(n) => spec_resolve_font_name(n, fs),
        None => None,
    };
    match resolved {
        Some(f) => "<span class=\"run-segment\" style=\"font-family: '"@ + spec_escape_html(f)
            + "'\">"@ + spec_escape_html(text) + "</span>"@,
        None => "<span class=\"run-segment\">"@ + spec_escape_html(text) + "</span>"@,
    }
}

/// HTML of a list of script segments, in order.
pub open spec fn segments_html(
    segs: Seq<(ScriptCategory, Seq<char>)>,
    run: TextRun,
    d: RunDefaultsSpec,
    fs: Option<&FontScheme>,
) -> Seq<char>
    decreases segs.len(),
{
    if segs.len() == 0 {
        Seq::empty()
    } else {
        segments_html(segs.drop_last(), run, d, fs) + segment_html(
            segs.last().0,
            segs.last().1,
            run,
            d,
            fs,
        )
    }
}

// ---------------------------------------------------------------------------
// Character style
// ---------------------------------------------------------------------------

/// `buf` with a declaration appended, after `"; "` when `buf` already holds one.
pub open spec fn sep_push(buf: Seq<char>, decl: Seq<char>) -> Seq<char> {
    if buf.len() == 0 {
        decl
    } else {
        buf + seq![';', ' '] + decl
    }
}

/// `buf` with an optional declaration appended.
pub open spec fn with_decl(buf: Seq<char>, decl: Option<Seq<char>>) -> Seq<char> {
    match decl {
        Some(x) => sep_push(buf, x),
        None => buf,
    }
}

pub open spec fn size_of(d: Option<RunDefaults>) -> Option<i32> {
    match d {
        Some(x) => x.font_size,
        None => None,
    }
}

pub open spec fn bold_of(d: Option<RunDefaults>) -> Option<bool> {
    match d {
        Some(x) => x.bold,
        None => None,
    }
}

pub open spec fn italic_of(d: Option<RunDefaults>) -> Option<bool> {
    match d {
        Some(x) => x.italic,
        None => None,
    }
}

pub open spec fn baseline_of(d: Option<RunDefaults>) -> Option<i32> {
    match d {
        Some(x) => x.baseline,
        None => None,
    }
}

pub open spec fn spacing_of(d: Option<RunDefaults>) -> Option<i32> {
    match d {
        Some(x) => x.letter_spacing,
        None => None,
    }
}

/// CSS of the color that run defaults give, if it resolves.
pub open spec fn defaults_color_css(ctx: RenderCtx, d: Option<RunDefaults>) -> Option<Seq<char>> {
    match d {
        Some(x) => match x.color {
            Some(c) => spec_color_to_css(ctx, c),
            None => None,
        },
        None => None,
    }
}

/// The run's font size in hundredths of a point (18pt when no level sets one), times
/// the auto-fit scale in thousandths of a percent (100000 when there is none).
pub open spec fn spec_scaled_font_size(run: TextRun, d: RunDefaultsSpec) -> int {
    let sz = match first_of(run.style.font_size, first_of(size_of(d.0), size_of(d.1))) {
        Some(s) => s as int,
        None => 1800,
    };
    let scale = match d.4 {
        Some(s) => s as int,
        None => 100000,
    };
    sz * scale
}

/// Whether the run is bold: set on the run, else the paragraph defaults' value, else the
/// inherited defaults' value.
pub open spec fn spec_run_bold(run: TextRun, d: RunDefaultsSpec) -> bool {
    run.style.bold || match bold_of(d.0) {
        Some(b) => b,
        None => bold_of(d.1) == Some(true),
    }
}

/// Whether the run is italic, with the same precedence as bold.
pub open spec fn spec_run_italic(run: TextRun, d: RunDefaultsSpec) -> bool {
    run.style.italic || match italic_of(d.0) {
        Some(b) => b,
        None => italic_of(d.1) == Some(true),
    }
}

/// The run's CSS color: its own color when it has one; otherwise the first that resolves
/// of the paragraph defaults', the inherited defaults' and the fontRef color.
pub open spec fn spec_run_color(ctx: RenderCtx, run: TextRun, d: RunDefaultsSpec) -> Option<
    Seq<char>,
> {
    if !(run.style.color.kind is Unset) {
        spec_color_to_css(ctx, run.style.color)
    } else {
        first_of(
            defaults_color_css(ctx, d.0),
            first_of(
                defaults_color_css(ctx, d.1),
                match d.3 {
                    Some(hex) => Some(seq!['#'] + hex),
                    None => None,
                },
            ),
        )
    }
}

/// Superscript or subscript: the baseline shift in percent, and a font size scaled down
/// by the shift, to at least half.
pub open spec fn spec_baseline_decl(run: TextRun, d: RunDefaultsSpec) -> Option<Seq<char>> {
    match first_of(run.style.baseline, first_of(baseline_of(d.0), baseline_of(d.1))) {
        Some(b) => if b != 0 {
            let mag: int = if b < 0 {
                -b
            } else {
                b as int
            };
            let scale: int = if 100000 - mag > 50000 {
                100000 - mag
            } else {
                50000
            };
            Some(
                "vertical-align: "@ + fmt_fixed(b as int, 1000, 1) + "%; font-size: "@
                    + fmt_fixed(scale, 100000, 2) + "em"@,
            )
        } else {
            None
        },
        None => None,
    }
}

/// The letter-spacing declaration, in points with two decimals.
pub open spec fn spec_spacing_decl(run: TextRun, d: RunDefaultsSpec) -> Option<Seq<char>> {
    match first_of(run.style.letter_spacing, first_of(spacing_of(d.0), spacing_of(d.1))) {
        Some(s) => Some("letter-spacing: "@ + fmt_fixed(s as int, 100, 2) + "pt"@),
        None => None,
    }
}

/// The highlight declaration, when the highlight color resolves.
pub open spec fn spec_highlight_decl(ctx: RenderCtx, run: TextRun) -> Option<Seq<char>> {
    match run.style.highlight {
        Some(h) => match spec_color_to_css(ctx, h) {
            Some(c) => Some("background-color: "@ + c),
            None => None,
        },
        None => None,
    }
}

/// The text-shadow declaration: offsets and blur in points, and the shadow color or a
/// translucent black.
pub open spec fn spec_shadow_decl(ctx: RenderCtx, run: TextRun) -> Option<Seq<char>> {
    match run.style.shadow {
        Some(sh) => Some(
            "text-shadow: "@ + fmt_fixed(sh.offset_x as int, 12700, 1) + "pt "@ + fmt_fixed(
                sh.offset_y as int,
                12700,
                1,
            ) + "pt "@ + fmt_fixed(sh.blur_radius as int, 12700, 1) + "pt "@ + match spec_color_to_css(
                ctx,
                sh.color,
            ) {
                Some(c) => c,
                None => "rgba(0,0,0,0.5)"@,
            },
        ),
        None => None,
    }
}

/// The style attribute of a run: font size, weight, style, color, baseline shift,
/// letter spacing, highlight and shadow, in that order, joined with `"; "`.
pub open spec fn spec_run_style(ctx: RenderCtx, run: TextRun, d: RunDefaultsSpec) -> Seq<char> {
    let s1 = "font-size: "@ + fmt_fixed(spec_scaled_font_size(run, d), 10000000, 1) + "pt"@;
    let s2 = with_decl(
        s1,
        if spec_run_bold(run, d) {
            Some("font-weight: bold"@)
        } else {
            None
        },
    );
    let s3 = with_decl(
        s2,
        if spec_run_italic(run, d) {
            Some("font-style: italic"@)
        } else {
            None
        },
    );
    let s4 = with_decl(
        s3,
        match spec_run_color(ctx, run, d) {
            Some(c) => Some("color: "@ + c),
            None => None,
        },
    );
    let s5 = with_decl(s4, spec_baseline_decl(run, d));
    let s6 = with_decl(s5, spec_spacing_decl(run, d));
    let s7 = with_decl(s6, spec_highlight_decl(ctx, run));
    with_decl(s7, spec_shadow_decl(ctx, run))
}

/// HTML of a run: a line break, or a span (a link when the run has a hyperlink) with the
/// run's style around its script segments.
pub open spec fn spec_run_html(
    ctx: RenderCtx,
    run: TextRun,
    d: RunDefaultsSpec,
    fs: Option<&FontScheme>,
) -> Seq<char> {
    if run.is_break {
        "<br/>"@
    } else {
        let style = spec_run_style(ctx, run, d);
        let segs = segments_html(spec_segment_by_script(run.text@), run, d, fs);
        match run.hyperlink {
            Some(h) => "<a class=\"run\" href=\""@ + spec_escape_html(h@) + "\" style=\""@ + style
                + "\">"@ + segs + "</a>"@,
            None => "<span class=\"run\" style=\""@ + style + "\">"@ + segs + "</span>"@,
        }
    }
}

/// Everything in the collector but the typeface records is unchanged.
pub open spec fn same_but_fonts(a: RenderCollector, b: RenderCollector) -> bool {
    &&& a.external_assets@ == b.external_assets@
    &&& a.provenance_entries@ == b.provenance_entries@
    &&& a.current_slide_index == b.current_slide_index
    &&& a.gradient_counter == b.gradient_counter
    &&& a.marker_counter == b.marker_counter
    &&& a.asset_counter == b.asset_counter
    &&& a.counter == b.counter
    &&& a.elements@ == b.elements@
}

// ---------------------------------------------------------------------------
// Executable pieces
// ---------------------------------------------------------------------------

fn opt_str<'a>(o: &'a Option<String>) -> (r: Option<&'a str>)
    ensures
        opt_str_view(r) == opt_view(*o),
{
    match o {
        Some(s) => Some(s.as_str()),
        None => None,
    }
}

/// The typeface for a script family from a Latin / East Asian / complex-script triple.
pub fn choose_script_font_for_category<'a>(
    category: ScriptCategory,
    latin: Option<&'a str>,
    east_asian: Option<&'a str>,
    complex_script: Option<&'a str>,
) -> (r: Option<&'a str>)
    ensures
        opt_str_view(r) == spec_choose_font(
            category,
            opt_str_view(latin),
            opt_str_view(east_asian),
            opt_str_view(complex_script),
        ),
{
    let (a, b, c) = match category {
        ScriptCategory::Complex | ScriptCategory::Emoji => (complex_script, latin, east_asian),
        ScriptCategory::EastAsian => (east_asian, latin, complex_script),
        ScriptCategory::LatinLike => (latin, east_asian, complex_script),
    };
    if a.is_some() {
        a
    } else if b.is_some() {
        b
    } else {
        c
    }
}

/// The typeface for the script of a whole text from a triple.
pub fn choose_script_font<'a>(
    text: &str,
    latin: Option<&'a str>,
    east_asian: Option<&'a str>,
    complex_script: Option<&'a str>,
) -> (r: Option<&'a str>)
    ensures
        opt_str_view(r) == spec_choose_font(
            spec_classify_script_category(text@),
            opt_str_view(latin),
            opt_str_view(east_asian),
            opt_str_view(complex_script),
        ),
{
    choose_script_font_for_category(classify_script_category(text), latin, east_asian, complex_script)
}

fn run_choice<'a>(run: &'a TextRun, cat: ScriptCategory) -> (r: Option<&'a str>)
    ensures
        opt_str_view(r) == run_font_choice(*run, cat),
{
    choose_script_font_for_category(
        cat,
        opt_str(&run.font.latin),
        opt_str(&run.font.east_asian),
        opt_str(&run.font.complex_script),
    )
}

fn defaults_choice<'a>(d: Option<&'a RunDefaults>, cat: ScriptCategory) -> (r: Option<&'a str>)
    ensures
        opt_str_view(r) == defaults_font_choice(deref(d), cat),
{
    match d {
        Some(x) => choose_script_font_for_category(
            cat,
            opt_str(&x.font_latin),
            opt_str(&x.font_ea),
            opt_str(&x.font_cs),
        ),
        None => None,
    }
}

fn starts_with_plus(s: &str) -> (r: bool)
    ensures
        r == (s@.len() > 0 && s@[0] == '+'),
{
    let mut first = true;
    let mut r = false;
    for ch in it: s.chars()
        invariant
            it.seq() == s@,
            first == (it.index() == 0),
            !first ==> r == (s@[0] == '+'),
            first ==> !r,
    {
        if first {
            r = ch == '+';
            first = false;
        }
    }
    r
}

/// The typeface a name stands for: theme references through the font scheme, none for
/// an empty name, any other name itself.
pub fn resolve_font_name(name: &str, font_scheme: Option<&FontScheme>) -> (r: Option<String>)
    ensures
        opt_view(r) == spec_resolve_font_name(name@, font_scheme),
{
    if starts_with_plus(name) {
        match font_scheme {
            Some(fs) => match fs.resolve_typeface(name) {
                Some(t) => Some(t.clone()),
                None => None,
            },
            None => None,
        }
    } else if name.is_empty() {
        None
    } else {
        Some(name.to_owned())
    }
}

fn requested_font<'a>(run: &'a TextRun, d: &RunRenderDefaults<'a>) -> (r: Option<
    (&'a str, FontResolutionSource),
>)
    ensures
        match spec_requested_font(*run, defaults_view(*d)) {
            Some((n, s)) => r matches Some(x) && x.0@ == n && x.1 == s,
            None => r is None,
        },
{
    let cat = classify_script_category(run.text.as_str());
    if let Some(f) = run_choice(run, cat) {
        return Some((f, FontResolutionSource::ExplicitRun));
    }
    if let Some(f) = defaults_choice(d.para_def_rpr, cat) {
        return Some((f, FontResolutionSource::ParagraphDefaults));
    }
    if let Some(f) = defaults_choice(d.run_defaults, cat) {
        return Some((f, FontResolutionSource::InheritedDefaults));
    }
    match d.font_ref_font {
        Some(f) => Some((f, FontResolutionSource::FontRef)),
        None => None,
    }
}

fn segment_font<'a>(cat: ScriptCategory, run: &'a TextRun, d: &RunRenderDefaults<'a>) -> (r: Option<
    &'a str,
>)
    ensures
        opt_str_view(r) == spec_segment_font(cat, *run, defaults_view(*d)),
{
    if let Some(f) = run_choice(run, cat) {
        return Some(f);
    }
    if let Some(f) = defaults_choice(d.para_def_rpr, cat) {
        return Some(f);
    }
    if let Some(f) = defaults_choice(d.run_defaults, cat) {
        return Some(f);
    }
    d.font_ref_font
}

/// The record of how a run's typeface was resolved.
fn font_entry(
    run: &TextRun,
    d: &RunRenderDefaults,
    font_scheme: Option<&FontScheme>,
    slide_number: usize,
) -> (e: FontResolutionEntry)
    ensures
        font_entry_ok(e, slide_number as int, *run, defaults_view(*d), font_scheme),
{
    let (requested, source, resolved) = match requested_font(run, d) {
        Some((name, src)) => (Some(name.to_owned()), Some(src), resolve_font_name(name, font_scheme)),
        None => (None, None, None),
    };
    let fallback_used = match (&requested, &resolved) {
        (Some(a), Some(b)) => !(*a == *b),
        _ => false,
    };
    FontResolutionEntry {
        slide_index: slide_number,
        shape_name: None,
        run_text: run.text.clone(),
        requested_typeface: requested,
        resolved_typeface: resolved,
        source,
        fallback_used,
    }
}

fn add_decl(buf: &mut String, decl: &str)
    ensures
        final(buf)@ == sep_push(old(buf)@, decl@),
{
    push_sep(buf);
    push_str(buf, decl);
}

fn first_i32(a: Option<i32>, b: Option<i32>) -> (r: Option<i32>)
    ensures
        r == first_of(a, b),
{
    if a.is_some() {
        a
    } else {
        b
    }
}

fn defaults_size(d: Option<&RunDefaults>) -> (r: Option<i32>)
    ensures
        r == size_of(deref(d)),
{
    match d {
        Some(x) => x.font_size,
        None => None,
    }
}

fn defaults_baseline(d: Option<&RunDefaults>) -> (r: Option<i32>)
    ensures
        r == baseline_of(deref(d)),
{
    match d {
        Some(x) => x.baseline,
        None => None,
    }
}

fn defaults_spacing(d: Option<&RunDefaults>) -> (r: Option<i32>)
    ensures
        r == spacing_of(deref(d)),
{
    match d {
        Some(x) => x.letter_spacing,
        None => None,
    }
}

fn defaults_color(ctx: &RenderCtx, d: Option<&RunDefaults>) -> (r: Option<String>)
    ensures
        opt_view(r) == defaults_color_css(*ctx, deref(d)),
{
    match d {
        Some(x) => match &x.color {
            Some(c) => ctx.color_to_css(c),
            None => None,
        },
        None => None,
    }
}

fn run_color(ctx: &RenderCtx, run: &TextRun, d: &RunRenderDefaults) -> (r: Option<String>)
    ensures
        opt_view(r) == spec_run_color(*ctx, *run, defaults_view(*d)),
{
    if !run.style.color.is_none() {
        ctx.color_to_css(&run.style.color)
    } else {
        let from_pd = defaults_color(ctx, d.para_def_rpr);
        if from_pd.is_some() {
            return from_pd;
        }
        let from_rd = defaults_color(ctx, d.run_defaults);
        if from_rd.is_some() {
            return from_rd;
        }
        match d.font_ref_color {
            Some(rc) => Some(rc.to_css()),
            None => None,
        }
    }
}

fn run_bold(run: &TextRun, d: &RunRenderDefaults) -> (r: bool)
    ensures
        r == spec_run_bold(*run, defaults_view(*d)),
{
    if run.style.bold {
        return true;
    }
    if let Some(pd) = d.para_def_rpr {
        if let Some(b) = pd.bold {
            return b;
        }
    }
    match d.run_defaults {
        Some(rd) => match rd.bold {
            Some(b) => b,
            None => false,
        },
        None => false,
    }
}

fn run_italic(run: &TextRun, d: &RunRenderDefaults) -> (r: bool)
    ensures
        r == spec_run_italic(*run, defaults_view(*d)),
{
    if run.style.italic {
        return true;
    }
    if let Some(pd) = d.para_def_rpr {
        if let Some(b) = pd.italic {
            return b;
        }
    }
    match d.run_defaults {
        Some(rd) => match rd.italic {
            Some(b) => b,
            None => false,
        },
        None => false,
    }
}

fn baseline_decl(run: &TextRun, d: &RunRenderDefaults) -> (r: Option<String>)
    ensures
        opt_view(r) == spec_baseline_decl(*run, defaults_view(*d)),
{
    let b = first_i32(
        run.style.baseline,
        first_i32(defaults_baseline(d.para_def_rpr), defaults_baseline(d.run_defaults)),
    );
    match b {
        Some(b) => {
            if b != 0 {
                let mag: i64 = if b < 0 {
                    -(b as i64)
                } else {
                    b as i64
                };
                let scale: i64 = if 100000 - mag > 50000 {
                    100000 - mag
                } else {
                    50000
                };
                let mut s = String::new();
                push_str(&mut s, "vertical-align: ");
                push_fixed(&mut s, b as i128, 1000, 1);
                push_str(&mut s, "%; font-size: ");
                push_fixed(&mut s, scale as i128, 100000, 2);
                push_str(&mut s, "em");
                Some(s)
            } else {
                None
            }
        },
        None => None,
    }
}

fn spacing_decl(run: &TextRun, d: &RunRenderDefaults) -> (r: Option<String>)
    ensures
        opt_view(r) == spec_spacing_decl(*run, defaults_view(*d)),
{
    match first_i32(
        run.style.letter_spacing,
        first_i32(defaults_spacing(d.para_def_rpr), defaults_spacing(d.run_defaults)),
    ) {
        Some(sp) => {
            let mut s = String::new();
            push_str(&mut s, "letter-spacing: ");
            push_fixed(&mut s, sp as i128, 100, 2);
            push_str(&mut s, "pt");
            Some(s)
        },
        None => None,
    }
}

fn highlight_decl(ctx: &RenderCtx, run: &TextRun) -> (r: Option<String>)
    ensures
        opt_view(r) == spec_highlight_decl(*ctx, *run),
{
    match &run.style.highlight {
        Some(h) => match ctx.color_to_css(h) {
            Some(c) => {
                let mut s = String::new();
                push_str(&mut s, "background-color: ");
                push_str(&mut s, c.as_str());
                Some(s)
            },
            None => None,
        },
        None => None,
    }
}

fn shadow_decl(ctx: &RenderCtx, run: &TextRun) -> (r: Option<String>)
    ensures
        opt_view(r) == spec_shadow_decl(*ctx, *run),
{
    match &run.style.shadow {
        Some(sh) => {
            let mut s = String::new();
            push_str(&mut s, "text-shadow: ");
            push_fixed(&mut s, sh.offset_x as i128, 12700, 1);
            push_str(&mut s, "pt ");
            push_fixed(&mut s, sh.offset_y as i128, 12700, 1);
            push_str(&mut s, "pt ");
            push_fixed(&mut s, sh.blur_radius as i128, 12700, 1);
            push_str(&mut s, "pt ");
            match ctx.color_to_css(&sh.color) {
                Some(c) => push_str(&mut s, c.as_str()),
                None => push_str(&mut s, "rgba(0,0,0,0.5)"),
            }
            Some(s)
        },
        None => None,
    }
}

fn add_opt_decl(buf: &mut String, decl: Option<String>)
    ensures
        final(buf)@ == with_decl(old(buf)@, opt_view(decl)),
{
    if let Some(x) = decl {
        add_decl(buf, x.as_str());
    }
}

/// The style attribute value of a run.
fn run_style(ctx: &RenderCtx, run: &TextRun, d: &RunRenderDefaults) -> (r: String)
    ensures
        r@ == spec_run_style(*ctx, *run, defaults_view(*d)),
{
    let sz: i32 = match first_i32(
        run.style.font_size,
        first_i32(defaults_size(d.para_def_rpr), defaults_size(d.run_defaults)),
    ) {
        Some(s) => s,
        None => 1800,
    };
    let scale: i32 = match d.font_scale {
        Some(s) => s,
        None => 100000,
    };
    let mut st = String::new();
    push_str(&mut st, "font-size: ");
    let szw: i128 = sz as i128;
    let scw: i128 = scale as i128;
    assert(-0x4000_0000_0000_0000 <= szw * scw <= 0x4000_0000_0000_0000) by (nonlinear_arith)
        requires
            -0x8000_0000 <= szw < 0x8000_0000,
            -0x8000_0000 <= scw < 0x8000_0000,
    ;
    push_fixed(&mut st, szw * scw, 10000000, 1);
    push_str(&mut st, "pt");
    proof {
        reveal_strlit("font-weight: bold");
        reveal_strlit("font-style: italic");
    }
    add_opt_decl(
        &mut st,
        if run_bold(run, d) {
            Some("font-weight: bold".to_owned())
        } else {
            None
        },
    );
    add_opt_decl(
        &mut st,
        if run_italic(run, d) {
            Some("font-style: italic".to_owned())
        } else {
            None
        },
    );
    let color = match run_color(ctx, run, d) {
        Some(c) => {
            let mut s = String::new();
            push_str(&mut s, "color: ");
            push_str(&mut s, c.as_str());
            Some(s)
        },
        None => None,
    };
    add_opt_decl(&mut st, color);
    add_opt_decl(&mut st, baseline_decl(run, d));
    add_opt_decl(&mut st, spacing_decl(run, d));
    add_opt_decl(&mut st, highlight_decl(ctx, run));
    add_opt_decl(&mut st, shadow_decl(ctx, run));
    st
}

fn push_segment(
    inner: &mut String,
    cat: ScriptCategory,
    text: &str,
    run: &TextRun,
    d: &RunRenderDefaults,
    font_scheme: Option<&FontScheme>,
)
    ensures
        final(inner)@ == old(inner)@ + segment_html(cat, text@, *run, defaults_view(*d), font_scheme),
{
    let resolved = match segment_font(cat, run, d) {
        Some(name) => resolve_font_name(name, font_scheme),
        None => None,
    };
    match resolved {
        Some(f) => {
            push_str(inner, "<span class=\"run-segment\" style=\"font-family: '");
            push_str(inner, escape_html(f.as_str()).as_str());
            push_str(inner, "'\">");
        },
        None => {
            push_str(inner, "<span class=\"run-segment\">");
        },
    }
    push_str(inner, escape_html(text).as_str());
    push_str(inner, "</span>");
    proof {
        assert(inner@ =~= old(inner)@ + segment_html(cat, text@, *run, defaults_view(*d), font_scheme));
    }
}

impl HtmlRenderer {
    /// Render a run with the defaults it inherits: a line break as `<br/>`; any other run
    /// as a span (a link for a hyperlink) whose style holds the font size (scaled by the
    /// auto-fit scale), weight, style, color, baseline shift, letter spacing, highlight
    /// and shadow that the run, the paragraph defaults, the inherited defaults and the
    /// fontRef give, in that precedence, and whose text is split into script segments,
    /// each with the typeface chosen for its script. A rendered run records in the
    /// collector how its typeface was resolved.
    pub fn render_run_with_defaults(
        run: &TextRun,
        ctx: &RenderCtx<'_>,
        font_scheme: Option<&FontScheme>,
        defaults: RunRenderDefaults<'_>,
        coll: &mut RenderCollector,
        html: &mut String,
    )
        requires
            old(coll).current_slide_index < usize::MAX,
        ensures
            final(html)@ == old(html)@ + spec_run_html(*ctx, *run, defaults_view(defaults), font_scheme),
            same_but_fonts(*old(coll), *final(coll)),
            run.is_break ==> final(coll).font_resolution_entries@
                == old(coll).font_resolution_entries@,
            !run.is_break ==> {
                &&& final(coll).font_resolution_entries@.len()
                    == old(coll).font_resolution_entries@.len() + 1
                &&& final(coll).font_resolution_entries@.drop_last()
                    == old(coll).font_resolution_entries@
                &&& font_entry_ok(
                    final(coll).font_resolution_entries@.last(),
                    old(coll).current_slide_index + 1,
                    *run,
                    defaults_view(defaults),
                    font_scheme,
                )
            },
    {
        if run.is_break {
            push_str(html, "<br/>");
            return;
        }
        let style = run_style(ctx, run, &defaults);
        let entry = font_entry(run, &defaults, font_scheme, coll.current_slide_index + 1);
        coll.push_font_resolution(entry);

        let segments = segment_by_script(run.text.as_str());
        let ghost segs = segments_view(segments@);
        let mut inner = String::new();
        let mut i: usize = 0;
        while i < segments.len()
            invariant
                i <= segments@.len(),
                segs == segments_view(segments@),
                segs == spec_segment_by_script(run.text@),
                inner@ == segments_html(segs.take(i as int), *run, defaults_view(defaults), font_scheme),
            decreases segments@.len() - i,
        {
            let seg = &segments[i];
            push_segment(&mut inner, seg.category, seg.text.as_str(), run, &defaults, font_scheme);
            proof {
                assert(segs.take(i as int + 1).drop_last() =~= segs.take(i as int));
                assert(segs.take(i as int + 1).last() == segs[i as int]);
            }
            i = i + 1;
        }
        proof {
            assert(segs.take(segments@.len() as int) =~= segs);
        }
        match &run.hyperlink {
            Some(href) => {
                push_str(html, "<a class=\"run\" href=\"");
                push_str(html, escape_html(href.as_str()).as_str());
                push_str(html, "\" style=\"");
                push_str(html, style.as_str());
                push_str(html, "\">");
                push_str(html, inner.as_str());
                push_str(html, "</a>");
            },
            None => {
                push_str(html, "<span class=\"run\" style=\"");
                push_str(html, style.as_str());
                push_str(html, "\">");
                push_str(html, inner.as_str());
                push_str(html, "</span>");
            },
        }
        proof {
            assert(html@ =~= old(html)@ + spec_run_html(*ctx, *run, defaults_view(defaults), font_scheme));
        }
    }
}

} // verus!
