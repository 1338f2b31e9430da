//! Rendering context: theme colors in effect, the per-document counters for SVG ids and
//! exported images, and CSS for fills.
use vstd::prelude::*;

use base64::Engine;

use crate::model::color::{
    opt_deref, spec_resolve, ClrMap, Color, ColorKind, ColorScheme, ResolvedColor,
};
use crate::model::hierarchy::Theme;
use crate::model::shape::{Position, Size, UnresolvedType};
use crate::provenance::RenderedProvenanceEntry;
use crate::strings::{
    decimal_digits, lemma_decimal_digits_are_digits, lemma_decimal_digits_injective, push_char,
    push_decimal_u64, push_str, str_equal,
};
use crate::text_metrics::FontResolutionEntry;

verus! {

// ---------------------------------------------------------------------------
// Base64
// ---------------------------------------------------------------------------

/// The character of a six-bit value in the standard base64 alphabet.
pub open spec fn base64_char(v: int) -> char {
    "ABCDEFGHIJKLMNOPQRSTUVWXYZabcdefghijklmnopqrstuvwxyz0123456789+/"@[v]
}

/// The padded standard (RFC 4648) base64 text of a byte string: each group of three
/// bytes becomes four characters of six bits each; a last group of one or two bytes is
/// padded with `=` to four characters.
pub open spec fn base64_standard(data: Seq<u8>) -> Seq<char>
    decreases data.len(),
{
    if data.len() == 0 {
        Seq::empty()
    } else if data.len() == 1 {
        let b0 = data[0] as int;
        seq![base64_char(b0 / 4), base64_char((b0 % 4) * 16), '=', '=']
    } else if data.len() == 2 {
        let b0 = data[0] as int;
        let b1 = data[1] as int;
        seq![base64_char(b0 / 4), base64_char((b0 % 4) * 16 + b1 / 16), base64_char((b1 % 16) * 4), '=']
    } else {
        let b0 = data[0] as int;
        let b1 = data[1] as int;
        let b2 = data[2] as int;
        seq![
            base64_char(b0 / 4),
            base64_char((b0 % 4) * 16 + b1 / 16),
            base64_char((b1 % 16) * 4 + b2 / 64),
            base64_char(b2 % 64),
        ] + base64_standard(data.subrange(3, data.len() as int))
    }
}

/// Encoding `n` bytes does not overflow the output length computation.
pub open spec fn base64_encodable(n: nat) -> bool {
    (n + 2) / 3 * 4 <= usize::MAX
}

/// `base64::engine::general_purpose::STANDARD.encode`.
/// Trusted: the result is the padded standard base64 text of `data` (`base64_standard`:
/// the standard alphabet with padding, which `STANDARD` configures), `4 * ceil(n / 3)`
/// characters long, as `encoded_len` in the crate's source computes it. The call panics when that length overflows `usize`, which
/// `requires` rules out.
#[verifier::external_body]
fn base64_encode(data: &[u8]) -> (r: String)
    requires
        base64_encodable(data@.len()),
    ensures
        r@ == base64_standard(data@),
        r@.len() == (data@.len() + 2) / 3 * 4,
{
    base64::engine::general_purpose::STANDARD.encode(data)
}

/// The `data:` URL of an embedded image.
pub open spec fn spec_data_url(mime: Seq<char>, data: Seq<u8>) -> Seq<char> {
    "data:"@ + mime + ";base64,"@ + base64_standard(data)
}

/// The `data:` URL of an image whose base64 text is `encoded`:
/// `data:{mime};base64,{encoded}`.
pub fn data_url_from_base64(mime: &str, encoded: &str) -> (r: String)
    ensures
        r@ == "data:"@ + mime@ + ";base64,"@ + encoded@,
{
    let mut s = String::new();
    push_str(&mut s, "data:");
    push_str(&mut s, mime);
    push_str(&mut s, ";base64,");
    push_str(&mut s, encoded);
    proof {
        assert(s@ =~= "data:"@ + mime@ + ";base64,"@ + encoded@);
    }
    s
}

/// The `data:` URL of an embedded image: `data:{mime};base64,{base64 of data}`.
pub fn data_url(mime: &str, data: &[u8]) -> (r: String)
    requires
        base64_encodable(data@.len()),
    ensures
        r@ == spec_data_url(mime@, data@),
{
    let b64 = base64_encode(data);
    data_url_from_base64(mime, b64.as_str())
}

// ---------------------------------------------------------------------------
// Collected output of a rendering pass
// ---------------------------------------------------------------------------

/// An image written next to the HTML instead of being embedded.
#[derive(Debug, Clone, PartialEq, Eq)]
pub struct ExternalAsset {
    pub relative_path: String,
    pub content_type: String,
    pub data: Vec<u8>,
}

/// An element the renderer could not draw, marked in the HTML by a placeholder with the
/// id `placeholder_id`, with what is needed to resolve it later. Position and size are
/// recorded when they are not all zero.
#[derive(Debug, Clone, PartialEq, Eq)]
pub struct UnresolvedElement {
    pub slide_index: usize,
    pub element_type: UnresolvedType,
    pub placeholder_id: String,
    pub position: Option<Position>,
    pub size: Option<Size>,
    pub raw_xml: Option<String>,
}

/// An unresolved element as plain values: its slide index, kind, placeholder id, position,
/// size and raw XML.
pub struct UnresolvedRecord {
    pub slide_index: nat,
    pub element_type: UnresolvedType,
    pub placeholder_id: Seq<char>,
    pub position: Option<Position>,
    pub size: Option<Size>,
    pub raw_xml: Option<Seq<char>>,
}

impl View for UnresolvedElement {
    type V = UnresolvedRecord;

    open spec fn view(&self) -> UnresolvedRecord {
        UnresolvedRecord {
            slide_index: self.slide_index as nat,
            element_type: self.element_type,
            placeholder_id: self.placeholder_id@,
            position: self.position,
            size: self.size,
            raw_xml: match self.raw_xml {
                Some(x) => Some(x@),
                None => None,
            },
        }
    }
}

/// The unresolved elements of a list, as plain values.
pub open spec fn elements_view(s: Seq<UnresolvedElement>) -> Seq<UnresolvedRecord> {
    s.map_values(|e: UnresolvedElement| e@)
}

/// What a rendering pass collects besides the HTML, and its id counters.
#[derive(Debug, Default)]
pub struct RenderCollector {
    pub elements: Vec<UnresolvedElement>,
    pub external_assets: Vec<ExternalAsset>,
    pub font_resolution_entries: Vec<FontResolutionEntry>,
    pub provenance_entries: Vec<RenderedProvenanceEntry>,
    pub counter: usize,
    pub current_slide_index: usize,
    pub gradient_counter: usize,
    pub marker_counter: usize,
    pub asset_counter: usize,
}

/// File extension for an image media type; unknown types are written as PNG.
pub open spec fn spec_image_extension(mime: Seq<char>) -> Seq<char> {
    if mime == "image/jpeg"@ {
        "jpg"@
    } else if mime == "image/gif"@ {
        "gif"@
    } else if mime == "image/svg+xml"@ {
        "svg"@
    } else if mime == "image/webp"@ {
        "webp"@
    } else {
        "png"@
    }
}

fn image_extension(mime: &str) -> (r: &'static str)
    ensures
        r@ == spec_image_extension(mime@),
{
    if str_equal(mime, "image/jpeg") {
        "jpg"
    } else if str_equal(mime, "image/gif") {
        "gif"
    } else if str_equal(mime, "image/svg+xml") {
        "svg"
    } else if str_equal(mime, "image/webp") {
        "webp"
    } else {
        "png"
    }
}

/// Relative path of an exported image: `images/slide-{slide}/{prefix}-{n}.{ext}`.
pub open spec fn spec_asset_path(slide_number: nat, prefix: Seq<char>, n: nat, mime: Seq<char>) -> Seq<
    char,
> {
    "images/slide-"@ + decimal_digits(slide_number) + seq!['/'] + prefix + seq!['-']
        + decimal_digits(n) + seq!['.'] + spec_image_extension(mime)
}

/// Images exported from one slide under one prefix receive distinct paths: their asset
/// numbers tell them apart, whatever their media types.
pub proof fn distinct_asset_numbers_give_distinct_paths(
    slide_number: nat,
    prefix: Seq<char>,
    n1: nat,
    n2: nat,
    mime1: Seq<char>,
    mime2: Seq<char>,
)
    requires
        n1 != n2,
    ensures
        spec_asset_path(slide_number, prefix, n1, mime1) != spec_asset_path(
            slide_number,
            prefix,
            n2,
            mime2,
        ),
{
    let a = "images/slide-"@ + decimal_digits(slide_number) + seq!['/'] + prefix + seq!['-'];
    let d1 = decimal_digits(n1);
    let d2 = decimal_digits(n2);
    let p1 = spec_asset_path(slide_number, prefix, n1, mime1);
    let p2 = spec_asset_path(slide_number, prefix, n2, mime2);
    assert(p1 =~= a + d1 + seq!['.'] + spec_image_extension(mime1));
    assert(p2 =~= a + d2 + seq!['.'] + spec_image_extension(mime2));
    lemma_decimal_digits_are_digits(n1);
    lemma_decimal_digits_are_digits(n2);
    if p1 == p2 {
        let k: int = a.len() as int;
        if d1.len() < d2.len() {
            assert(p1[k + d1.len() as int] == '.');
            assert(p2[k + d1.len() as int] == d2[d1.len() as int]);
        } else if d2.len() < d1.len() {
            assert(p2[k + d2.len() as int] == '.');
            assert(p1[k + d2.len() as int] == d1[d2.len() as int]);
        } else {
            assert forall|i: int| 0 <= i < d1.len() implies d1[i] == d2[i] by {
                assert(p1[k + i] == d1[i]);
                assert(p2[k + i] == d2[i]);
            }
            assert(d1 =~= d2);
            lemma_decimal_digits_injective(n1, n2);
        }
    }
}

/// Nothing but the named counter and list changed.
pub open spec fn same_but_assets(a: RenderCollector, b: RenderCollector) -> bool {
    &&& a.font_resolution_entries == b.font_resolution_entries
    &&& a.provenance_entries == b.provenance_entries
    &&& a.current_slide_index == b.current_slide_index
    &&& a.gradient_counter == b.gradient_counter
    &&& a.marker_counter == b.marker_counter
    &&& a.counter == b.counter
    &&& a.elements@ == b.elements@
}

impl RenderCollector {
    /// A fresh id for an SVG gradient: `grad{n}` with `n` counting up from 0.
    pub fn next_gradient_id(&mut self) -> (r: String)
        requires
            old(self).gradient_counter < usize::MAX,
        ensures
            r@ == "grad"@ + decimal_digits(old(self).gradient_counter as nat),
            final(self).gradient_counter == old(self).gradient_counter + 1,
            final(self).marker_counter == old(self).marker_counter,
            final(self).asset_counter == old(self).asset_counter,
            final(self).current_slide_index == old(self).current_slide_index,
            final(self).counter == old(self).counter,
            final(self).elements@ == old(self).elements@,
            final(self).external_assets@ == old(self).external_assets@,
            final(self).font_resolution_entries@ == old(self).font_resolution_entries@,
            final(self).provenance_entries@ == old(self).provenance_entries@,
    {
        let id = self.gradient_counter;
        self.gradient_counter = self.gradient_counter + 1;
        let mut s = String::new();
        push_str(&mut s, "grad");
        push_decimal_u64(&mut s, id as u64);
        proof {
            assert(s@ =~= "grad"@ + decimal_digits(id as nat));
        }
        s
    }

    /// A fresh id for an SVG marker: `marker-{suffix}-{n}` with `n` counting up from 0.
    pub fn next_marker_id(&mut self, suffix: &str) -> (r: String)
        requires
            old(self).marker_counter < usize::MAX,
        ensures
            r@ == "marker-"@ + suffix@ + seq!['-'] + decimal_digits(
                old(self).marker_counter as nat,
            ),
            final(self).marker_counter == old(self).marker_counter + 1,
            final(self).gradient_counter == old(self).gradient_counter,
            final(self).asset_counter == old(self).asset_counter,
            final(self).current_slide_index == old(self).current_slide_index,
            final(self).counter == old(self).counter,
            final(self).elements@ == old(self).elements@,
            final(self).external_assets@ == old(self).external_assets@,
            final(self).font_resolution_entries@ == old(self).font_resolution_entries@,
            final(self).provenance_entries@ == old(self).provenance_entries@,
    {
        let id = self.marker_counter;
        self.marker_counter = self.marker_counter + 1;
        let mut s = String::new();
        push_str(&mut s, "marker-");
        push_str(&mut s, suffix);
        push_char(&mut s, '-');
        push_decimal_u64(&mut s, id as u64);
        proof {
            assert(s@ =~= "marker-"@ + suffix@ + seq!['-'] + decimal_digits(id as nat));
        }
        s
    }

    /// Record an image to be written next to the HTML and return its relative path,
    /// `images/slide-{current slide + 1}/{prefix}-{n}.{ext}` with `n` counting up from 0.
    pub fn register_external_asset(&mut self, prefix: &str, mime: &str, data: &[u8]) -> (r: String)
        requires
            old(self).current_slide_index < usize::MAX,
            old(self).asset_counter < usize::MAX,
        ensures
            r@ == spec_asset_path(
                (old(self).current_slide_index + 1) as nat,
                prefix@,
                old(self).asset_counter as nat,
                mime@,
            ),
            final(self).asset_counter == old(self).asset_counter + 1,
            final(self).external_assets@.len() == old(self).external_assets@.len() + 1,
            final(self).external_assets@.drop_last() == old(self).external_assets@,
            final(self).external_assets@.last().relative_path@ == r@,
            final(self).external_assets@.last().content_type@ == mime@,
            final(self).external_assets@.last().data@ == data@,
            final(self).gradient_counter == old(self).gradient_counter,
            final(self).marker_counter == old(self).marker_counter,
            final(self).current_slide_index == old(self).current_slide_index,
            final(self).counter == old(self).counter,
            final(self).elements@ == old(self).elements@,
            final(self).font_resolution_entries@ == old(self).font_resolution_entries@,
            final(self).provenance_entries@ == old(self).provenance_entries@,
    {
        let slide_number = self.current_slide_index + 1;
        let asset_number = self.asset_counter;
        self.asset_counter = self.asset_counter + 1;
        let ext = image_extension(mime);
        let mut path = String::new();
        push_str(&mut path, "images/slide-");
        push_decimal_u64(&mut path, slide_number as u64);
        push_char(&mut path, '/');
        push_str(&mut path, prefix);
        push_char(&mut path, '-');
        push_decimal_u64(&mut path, asset_number as u64);
        push_char(&mut path, '.');
        push_str(&mut path, ext);
        proof {
            assert(path@ =~= spec_asset_path(slide_number as nat, prefix@, asset_number as nat, mime@));
        }
        let ghost before = self.external_assets@;
        self.external_assets.push(
            ExternalAsset {
                relative_path: path.clone(),
                content_type: mime.to_string(),
                data: vstd::slice::slice_to_vec(data),
            },
        );
        proof {
            assert(self.external_assets@.drop_last() =~= before);
        }
        path
    }

    /// Record where the properties of a rendered element came from.
    pub fn push_provenance(&mut self, entry: RenderedProvenanceEntry)
        ensures
            final(self).provenance_entries@ == old(self).provenance_entries@.push(entry),
            final(self).external_assets@ == old(self).external_assets@,
            final(self).font_resolution_entries@ == old(self).font_resolution_entries@,
            final(self).gradient_counter == old(self).gradient_counter,
            final(self).marker_counter == old(self).marker_counter,
            final(self).asset_counter == old(self).asset_counter,
            final(self).current_slide_index == old(self).current_slide_index,
            final(self).counter == old(self).counter,
            final(self).elements@ == old(self).elements@,
    {
        self.provenance_entries.push(entry);
    }

    /// Record how the typeface of a run was resolved.
    pub fn push_font_resolution(&mut self, entry: FontResolutionEntry)
        ensures
            final(self).font_resolution_entries@ == old(self).font_resolution_entries@.push(
                entry,
            ),
            final(self).external_assets@ == old(self).external_assets@,
            final(self).provenance_entries@ == old(self).provenance_entries@,
            final(self).gradient_counter == old(self).gradient_counter,
            final(self).marker_counter == old(self).marker_counter,
            final(self).asset_counter == old(self).asset_counter,
            final(self).current_slide_index == old(self).current_slide_index,
            final(self).counter == old(self).counter,
            final(self).elements@ == old(self).elements@,
    {
        self.font_resolution_entries.push(entry);
    }
}

// ---------------------------------------------------------------------------
// Theme colors in effect
// ---------------------------------------------------------------------------

/// The color scheme and color map in effect, and whether images are embedded.
#[derive(Debug, Clone, Copy)]
pub struct RenderCtx<'a> {
    pub scheme: Option<&'a ColorScheme>,
    pub clr_map: Option<&'a ClrMap>,
    pub embed_images: bool,
}

/// CSS text of a color as written: `#hex` for an RGB color, nothing otherwise.
pub open spec fn spec_color_css_fallback(c: Color) -> Option<Seq<char>> {
    match c.kind {
        ColorKind::Rgb(h) => Some(seq!['#'] + h@),
        _ => None,
    }
}

/// CSS text of a color in a context: `#` and the resolved hex, else the color as written.
pub open spec fn spec_color_to_css(ctx: RenderCtx, c: Color) -> Option<Seq<char>> {
    match spec_resolve(c, opt_deref(ctx.scheme), opt_deref(ctx.clr_map)) {
        Some(h) => Some(seq!['#'] + h),
        None => spec_color_css_fallback(c),
    }
}

impl Color {
    /// CSS text of the color as written: `#hex` for an RGB color.
    pub fn to_css(&self) -> (r: Option<String>)
        ensures
            match spec_color_css_fallback(*self) {
                Some(s) => r matches Some(x) && x@ == s,
                None => r is None,
            },
    {
        match &self.kind {
            ColorKind::Rgb(h) => {
                let mut s = String::new();
                push_char(&mut s, '#');
                push_str(&mut s, h.as_str());
                Some(s)
            },
            _ => None,
        }
    }
}

impl<'a> RenderCtx<'a> {
    /// Resolve a color with the scheme and map in effect.
    pub fn resolve_color(&self, color: &Color) -> (r: Option<ResolvedColor>)
        ensures
            match spec_resolve(*color, opt_deref(self.scheme), opt_deref(self.clr_map)) {
                Some(h) => r matches Some(rc) && rc.hex@ == h,
                None => r is None,
            },
    {
        color.resolve(self.scheme, self.clr_map)
    }

    /// CSS text of a color in this context.
    pub fn color_to_css(&self, color: &Color) -> (r: Option<String>)
        ensures
            match spec_color_to_css(*self, *color) {
                Some(s) => r matches Some(x) && x@ == s,
                None => r is None,
            },
    {
        match self.resolve_color(color) {
            Some(c) => Some(c.to_css()),
            None => color.to_css(),
        }
    }

    /// The context for one slide: its resolved color map and its master's theme, each
    /// falling back to this context's.
    pub fn for_slide(
        &self,
        themes: &'a [Theme],
        slide_clr_map: Option<&'a ClrMap>,
        master_theme_idx: Option<usize>,
    ) -> (r: RenderCtx<'a>)
        ensures
            r.scheme == (match master_theme_idx {
                Some(i) => if i < themes@.len() {
                    Some(&themes@[i as int].color_scheme)
                } else {
                    self.scheme
                },
                None => self.scheme,
            }),
            r.clr_map == (match slide_clr_map {
                Some(m) => Some(m),
                None => self.clr_map,
            }),
            r.embed_images == self.embed_images,
    {
        let scheme: Option<&'a ColorScheme> = match master_theme_idx {
            Some(idx) => if idx < themes.len() {
                Some(&themes[idx].color_scheme)
            } else {
                self.scheme
            },
            None => self.scheme,
        };
        let clr_map = match slide_clr_map {
            Some(m) => Some(m),
            None => self.clr_map,
        };
        RenderCtx { scheme, clr_map, embed_images: self.embed_images }
    }
}

} // verus!
