//! Character classes used for text layout: line-break opportunities, glyph width
//! estimates and the split of text into runs of one script.
use vstd::prelude::*;

use crate::model::text::{TextParagraph, TextRun};
use crate::strings::push_char;

verus! {

/// Where the typeface of a rendered run came from.
#[derive(Debug, Clone, Copy, PartialEq, Eq, Structural)]
pub enum FontResolutionSource {
    ExplicitRun,
    ParagraphDefaults,
    InheritedDefaults,
    FontRef,
}

/// One record of how the typeface of a run was resolved.
#[derive(Debug, Clone, PartialEq, Eq)]
pub struct FontResolutionEntry {
    pub slide_index: usize,
    pub shape_name: Option<String>,
    pub run_text: String,
    pub requested_typeface: Option<String>,
    pub resolved_typeface: Option<String>,
    pub source: Option<FontResolutionSource>,
    pub fallback_used: bool,
}

/// A typeface record as plain values.
pub struct FontRecord {
    pub slide_index: nat,
    pub shape_name: Option<Seq<char>>,
    pub run_text: Seq<char>,
    pub requested_typeface: Option<Seq<char>>,
    pub resolved_typeface: Option<Seq<char>>,
    pub source: Option<FontResolutionSource>,
    pub fallback_used: bool,
}

/// The characters of an optional string, if any.
pub open spec fn opt_chars(o: Option<String>) -> Option<Seq<char>> {
    match o {
        Some(s) => Some(s@),
        None => None,
    }
}

impl View for FontResolutionEntry {
    type V = FontRecord;

    open spec fn view(&self) -> FontRecord {
        FontRecord {
            slide_index: self.slide_index as nat,
            shape_name: opt_chars(self.shape_name),
            run_text: self.run_text@,
            requested_typeface: opt_chars(self.requested_typeface),
            resolved_typeface: opt_chars(self.resolved_typeface),
            source: self.source,
            fallback_used: self.fallback_used,
        }
    }
}

/// The typeface records of a list, as plain values.
pub open spec fn fonts_view(s: Seq<FontResolutionEntry>) -> Seq<FontRecord> {
    s.map_values(|e: FontResolutionEntry| e@)
}

/// Two lists whose parts before and from their split points have the same plain values
/// have the same plain values.
pub(crate) proof fn lemma_fonts_view_joined(
    a: Seq<FontResolutionEntry>,
    b: Seq<FontResolutionEntry>,
    ka: int,
    kb: int,
)
    requires
        0 <= ka <= a.len(),
        0 <= kb <= b.len(),
        fonts_view(a.subrange(0, ka)) == fonts_view(b.subrange(0, kb)),
        fonts_view(a.subrange(ka, a.len() as int)) == fonts_view(b.subrange(kb, b.len() as int)),
    ensures
        fonts_view(a) == fonts_view(b),
{
    assert(fonts_view(a) =~= fonts_view(a.subrange(0, ka)) + fonts_view(a.subrange(ka, a.len() as int)));
    assert(fonts_view(b) =~= fonts_view(b.subrange(0, kb)) + fonts_view(b.subrange(kb, b.len() as int)));
}

/// How aggressively a text body may break words.
#[derive(Debug, Clone, Copy, PartialEq, Eq, Structural)]
pub enum TextWrapPolicy {
    Normal,
    Emergency,
}

/// The script family of a piece of text.
#[derive(Debug, Clone, Copy, PartialEq, Eq, Structural)]
pub enum ScriptCategory {
    LatinLike,
    EastAsian,
    Complex,
    Emoji,
}

/// A maximal piece of text rendered with one script family.
#[derive(Debug, Clone, PartialEq, Eq)]
pub struct ScriptSegment {
    pub category: ScriptCategory,
    pub text: String,
}

// ---------------------------------------------------------------------------
// Character classes
// ---------------------------------------------------------------------------

/// `c` lies in the closed code point range `[lo, hi]`.
pub open spec fn in_range(c: char, lo: u32, hi: u32) -> bool {
    lo <= c as u32 && c as u32 <= hi
}

/// The Unicode `White_Space` property (the set that `char::is_whitespace` tests).
pub open spec fn is_unicode_whitespace(c: char) -> bool {
    ||| in_range(c, 0x0009, 0x000D)
    ||| c as u32 == 0x0020
    ||| c as u32 == 0x0085
    ||| c as u32 == 0x00A0
    ||| c as u32 == 0x1680
    ||| in_range(c, 0x2000, 0x200A)
    ||| c as u32 == 0x2028
    ||| c as u32 == 0x2029
    ||| c as u32 == 0x202F
    ||| c as u32 == 0x205F
    ||| c as u32 == 0x3000
}

pub open spec fn spec_is_breaking_whitespace(c: char) -> bool {
    is_unicode_whitespace(c) && c as u32 != 0x00A0
}

pub open spec fn spec_is_nonstarter_punctuation(c: char) -> bool {
    let u = c as u32;
    ||| u == 0x3001
    ||| u == 0x3002
    ||| u == 0xFF0C
    ||| u == 0xFF0E
    ||| u == 0xFF01
    ||| u == 0xFF1F
    ||| u == 0xFF1A
    ||| u == 0xFF1B
    ||| u == 0x300D
    ||| u == 0x300F
    ||| u == 0x3011
    ||| u == 0xFF09
    ||| u == 0xFF3D
    ||| u == 0xFF5D
}

pub open spec fn spec_is_cluster_joiner(c: char) -> bool {
    let u = c as u32;
    ||| u == 0x200D
    ||| u == 0xFE0E
    ||| u == 0xFE0F
    ||| in_range(c, 0x0300, 0x036F)
    ||| in_range(c, 0x1AB0, 0x1AFF)
    ||| in_range(c, 0x1DC0, 0x1DFF)
    ||| in_range(c, 0x20D0, 0x20FF)
    ||| in_range(c, 0xFE20, 0xFE2F)
    ||| u == 0x093C
    ||| u == 0x094D
    ||| u == 0x09BC
    ||| u == 0x0A3C
    ||| u == 0x0ABC
    ||| u == 0x0B3C
    ||| u == 0x0CBC
    ||| u == 0x0D4D
    ||| u == 0x0E31
    ||| in_range(c, 0x0E34, 0x0E3A)
    ||| in_range(c, 0x0E47, 0x0E4E)
    ||| u == 0x0EB1
    ||| in_range(c, 0x0EC8, 0x0ECD)
}

pub open spec fn spec_is_emoji_char(c: char) -> bool {
    ||| in_range(c, 0x1F300, 0x1FAFF)
    ||| in_range(c, 0x2600, 0x26FF)
    ||| in_range(c, 0x2700, 0x27BF)
}

pub open spec fn spec_is_east_asian_char(c: char) -> bool {
    ||| in_range(c, 0x4E00, 0x9FFF)
    ||| in_range(c, 0x3400, 0x4DBF)
    ||| in_range(c, 0x3040, 0x30FF)
    ||| in_range(c, 0x3000, 0x303F)
    ||| in_range(c, 0xAC00, 0xD7A3)
    ||| in_range(c, 0xFF01, 0xFF60)
    ||| in_range(c, 0xFFE0, 0xFFE6)
}

pub open spec fn spec_is_complex_script_char(c: char) -> bool {
    ||| in_range(c, 0x0590, 0x05FF)
    ||| in_range(c, 0x0600, 0x06FF)
    ||| in_range(c, 0x0750, 0x077F)
    ||| in_range(c, 0x0900, 0x097F)
    ||| in_range(c, 0x0980, 0x09FF)
    ||| in_range(c, 0x0A00, 0x0A7F)
    ||| in_range(c, 0x0A80, 0x0AFF)
    ||| in_range(c, 0x0B00, 0x0B7F)
    ||| in_range(c, 0x0B80, 0x0BFF)
    ||| in_range(c, 0x0C00, 0x0C7F)
    ||| in_range(c, 0x0C80, 0x0CFF)
    ||| in_range(c, 0x0D00, 0x0D7F)
    ||| in_range(c, 0x0D80, 0x0DFF)
    ||| in_range(c, 0x0E00, 0x0E7F)
    ||| in_range(c, 0x0E80, 0x0EFF)
    ||| in_range(c, 0x0F00, 0x0FFF)
    ||| in_range(c, 0x1000, 0x109F)
    ||| in_range(c, 0x1780, 0x17FF)
    ||| in_range(c, 0x08A0, 0x08FF)
    ||| in_range(c, 0xFB50, 0xFDFF)
    ||| in_range(c, 0xFE70, 0xFEFF)
}

/// The complex scripts are exactly the characters of these Unicode blocks: Hebrew and
/// Arabic (U+0590..U+06FF), Arabic Supplement (U+0750..U+077F), Arabic Extended-A through
/// Myanmar, which takes in every Indic block (U+08A0..U+109F), Khmer (U+1780..U+17FF),
/// and the Arabic presentation forms (U+FB50..U+FDFF, U+FE70..U+FEFF). Such a character
/// opens a complex-script segment.
pub proof fn complex_scripts_are_their_blocks(c: char)
    ensures
        spec_is_complex_script_char(c) <==> {
            let u = c as u32;
            ||| 0x0590 <= u <= 0x06FF
            ||| 0x0750 <= u <= 0x077F
            ||| 0x08A0 <= u <= 0x109F
            ||| 0x1780 <= u <= 0x17FF
            ||| 0xFB50 <= u <= 0xFDFF
            ||| 0xFE70 <= u <= 0xFEFF
        },
        spec_is_complex_script_char(c) ==> char_category(c) == ScriptCategory::Complex,
{
}

/// Emoji are exactly the characters of Miscellaneous Symbols and Pictographs through
/// Symbols and Pictographs Extended-A (U+1F300..U+1FAFF), Miscellaneous Symbols
/// (U+2600..U+26FF) and Dingbats (U+2700..U+27BF). East Asian characters are exactly
/// those of the CJK ideographs (U+4E00..U+9FFF) and Extension A (U+3400..U+4DBF),
/// CJK punctuation, Hiragana and Katakana (U+3000..U+30FF), Hangul syllables
/// (U+AC00..U+D7A3) and the full-width forms (U+FF01..U+FF60, U+FFE0..U+FFE6). A
/// character opens a segment of its class, emoji taking precedence.
pub proof fn emoji_and_east_asian_are_their_blocks(c: char)
    ensures
        spec_is_emoji_char(c) <==> {
            let u = c as u32;
            ||| 0x1F300 <= u <= 0x1FAFF
            ||| 0x2600 <= u <= 0x27BF
        },
        spec_is_east_asian_char(c) <==> {
            let u = c as u32;
            ||| 0x4E00 <= u <= 0x9FFF
            ||| 0x3400 <= u <= 0x4DBF
            ||| 0x3000 <= u <= 0x30FF
            ||| 0xAC00 <= u <= 0xD7A3
            ||| 0xFF01 <= u <= 0xFF60
            ||| 0xFFE0 <= u <= 0xFFE6
        },
        spec_is_emoji_char(c) ==> char_category(c) == ScriptCategory::Emoji,
        (spec_is_east_asian_char(c) && !spec_is_complex_script_char(c)) ==> char_category(c)
            == ScriptCategory::EastAsian,
{
}

/// A text with a character of a complex script (see `complex_scripts_are_their_blocks`),
/// an Indic one such as Bengali among them, is classified as complex.
pub proof fn text_with_complex_char_is_complex(s: Seq<char>, i: int)
    requires
        0 <= i < s.len(),
        0x0590 <= s[i] as u32 <= 0x06FF || 0x0750 <= s[i] as u32 <= 0x077F || 0x08A0 <= s[i] as u32
            <= 0x109F || 0x1780 <= s[i] as u32 <= 0x17FF || 0xFB50 <= s[i] as u32 <= 0xFDFF || 0xFE70
            <= s[i] as u32 <= 0xFEFF,
    ensures
        spec_classify_script_category(s) == ScriptCategory::Complex,
{
    complex_scripts_are_their_blocks(s[i]);
    let f = |c: char| spec_is_complex_script_char(c);
    assert(f(s[i]));
    assert(has_char_where(s, f));
}

/// Estimated advance width of a glyph, in hundredths of an em.
pub open spec fn spec_glyph_em_width_hundredths(c: char) -> u32 {
    if spec_is_east_asian_char(c) {
        100
    } else if in_range(c, 0x0590, 0x05FF) || in_range(c, 0x0600, 0x06FF) || in_range(
        c,
        0x0750,
        0x077F,
    ) {
        75
    } else if c as u32 == 0x00A0 {
        33
    } else if c as u32 == 0x00AD {
        0
    } else if in_range(c, 0x41, 0x5A) || in_range(c, 0x30, 0x39) {
        62
    } else if in_range(c, 0x61, 0x7A) {
        56
    } else if c == '-' || c == '_' || c == '/' || c == '\\' || c == '.' || c == ',' || c == ':'
        || c == ';' {
        35
    } else if is_unicode_whitespace(c) {
        0
    } else {
        60
    }
}

fn in_range_exec(c: char, lo: u32, hi: u32) -> (r: bool)
    ensures
        r == in_range(c, lo, hi),
{
    let u = c as u32;
    lo <= u && u <= hi
}

/// `char::is_whitespace`: the Unicode `White_Space` property.
pub fn is_unicode_whitespace_char(c: char) -> (r: bool)
    ensures
        r == is_unicode_whitespace(c),
{
    let u = c as u32;
    (0x0009 <= u && u <= 0x000D) || u == 0x0020 || u == 0x0085 || u == 0x00A0 || u == 0x1680 || (
    0x2000 <= u && u <= 0x200A) || u == 0x2028 || u == 0x2029 || u == 0x202F || u == 0x205F || u
        == 0x3000
}

/// Whitespace at which a line may wrap (every Unicode space but the no-break space).
pub fn is_breaking_whitespace(ch: char) -> (r: bool)
    ensures
        r == spec_is_breaking_whitespace(ch),
{
    is_unicode_whitespace_char(ch) && ch != '\u{00A0}'
}

/// The soft hyphen U+00AD.
pub fn is_soft_hyphen(ch: char) -> (r: bool)
    ensures
        r == (ch == '\u{00AD}'),
{
    ch == '\u{00AD}'
}

/// A visible character after which a line may wrap (`/`).
pub fn is_visible_wrap_break(ch: char) -> (r: bool)
    ensures
        r == (ch == '/'),
{
    ch == '/'
}

/// East Asian punctuation that may not start a line.
pub fn is_east_asian_nonstarter_punctuation(ch: char) -> (r: bool)
    ensures
        r == spec_is_nonstarter_punctuation(ch),
{
    let u = ch as u32;
    u == 0x3001 || u == 0x3002 || u == 0xFF0C || u == 0xFF0E || u == 0xFF01 || u == 0xFF1F || u
        == 0xFF1A || u == 0xFF1B || u == 0x300D || u == 0x300F || u == 0x3011 || u == 0xFF09 || u
        == 0xFF3D || u == 0xFF5D
}

/// Combining marks and joiners that belong to the preceding character's cluster.
pub fn is_cluster_joiner(ch: char) -> (r: bool)
    ensures
        r == spec_is_cluster_joiner(ch),
{
    let u = ch as u32;
    u == 0x200D || u == 0xFE0E || u == 0xFE0F || in_range_exec(ch, 0x0300, 0x036F)
        || in_range_exec(ch, 0x1AB0, 0x1AFF) || in_range_exec(ch, 0x1DC0, 0x1DFF)
        || in_range_exec(ch, 0x20D0, 0x20FF) || in_range_exec(ch, 0xFE20, 0xFE2F) || u == 0x093C
        || u == 0x094D || u == 0x09BC || u == 0x0A3C || u == 0x0ABC || u == 0x0B3C || u == 0x0CBC
        || u == 0x0D4D || u == 0x0E31 || in_range_exec(ch, 0x0E34, 0x0E3A) || in_range_exec(
        ch,
        0x0E47,
        0x0E4E,
    ) || u == 0x0EB1 || in_range_exec(ch, 0x0EC8, 0x0ECD)
}

/// Pictographic emoji blocks.
pub fn is_emoji_char(ch: char) -> (r: bool)
    ensures
        r == spec_is_emoji_char(ch),
{
    in_range_exec(ch, 0x1F300, 0x1FAFF) || in_range_exec(ch, 0x2600, 0x26FF) || in_range_exec(
        ch,
        0x2700,
        0x27BF,
    )
}

/// CJK ideographs, kana, Hangul syllables and full-width forms.
pub fn is_east_asian_char(ch: char) -> (r: bool)
    ensures
        r == spec_is_east_asian_char(ch),
{
    in_range_exec(ch, 0x4E00, 0x9FFF) || in_range_exec(ch, 0x3400, 0x4DBF) || in_range_exec(
        ch,
        0x3040,
        0x30FF,
    ) || in_range_exec(ch, 0x3000, 0x303F) || in_range_exec(ch, 0xAC00, 0xD7A3)
        || in_range_exec(ch, 0xFF01, 0xFF60) || in_range_exec(ch, 0xFFE0, 0xFFE6)
}

/// Right-to-left and Indic/South-East Asian scripts that need complex shaping.
pub fn is_complex_script_char(ch: char) -> (r: bool)
    ensures
        r == spec_is_complex_script_char(ch),
{
    in_range_exec(ch, 0x0590, 0x05FF) || in_range_exec(ch, 0x0600, 0x06FF) || in_range_exec(
        ch,
        0x0750,
        0x077F,
    ) || in_range_exec(ch, 0x0900, 0x097F) || in_range_exec(ch, 0x0980, 0x09FF)
        || in_range_exec(ch, 0x0A00, 0x0A7F) || in_range_exec(ch, 0x0A80, 0x0AFF)
        || in_range_exec(ch, 0x0B00, 0x0B7F) || in_range_exec(ch, 0x0B80, 0x0BFF)
        || in_range_exec(ch, 0x0C00, 0x0C7F) || in_range_exec(ch, 0x0C80, 0x0CFF)
        || in_range_exec(ch, 0x0D00, 0x0D7F) || in_range_exec(ch, 0x0D80, 0x0DFF)
        || in_range_exec(ch, 0x0E00, 0x0E7F) || in_range_exec(ch, 0x0E80, 0x0EFF)
        || in_range_exec(ch, 0x0F00, 0x0FFF) || in_range_exec(ch, 0x1000, 0x109F)
        || in_range_exec(ch, 0x1780, 0x17FF) || in_range_exec(ch, 0x08A0, 0x08FF)
        || in_range_exec(ch, 0xFB50, 0xFDFF) || in_range_exec(ch, 0xFE70, 0xFEFF)
}

/// Estimated advance width of one glyph, in hundredths of an em
/// (full-width 100, Hebrew/Arabic 75, upper case and digits 62, lower case 56, ...).
pub fn glyph_em_width_hundredths(ch: char) -> (r: u32)
    ensures
        r == spec_glyph_em_width_hundredths(ch),
{
    if is_east_asian_char(ch) {
        100
    } else if in_range_exec(ch, 0x0590, 0x05FF) || in_range_exec(ch, 0x0600, 0x06FF)
        || in_range_exec(ch, 0x0750, 0x077F) {
        75
    } else if ch == '\u{00A0}' {
        33
    } else if ch == '\u{00AD}' {
        0
    } else if in_range_exec(ch, 0x41, 0x5A) || in_range_exec(ch, 0x30, 0x39) {
        62
    } else if in_range_exec(ch, 0x61, 0x7A) {
        56
    } else if ch == '-' || ch == '_' || ch == '/' || ch == '\\' || ch == '.' || ch == ','
        || ch == ':' || ch == ';' {
        35
    } else if is_unicode_whitespace_char(ch) {
        0
    } else {
        60
    }
}

// ---------------------------------------------------------------------------
// Script category of a whole string
// ---------------------------------------------------------------------------

pub open spec fn has_char_where(s: Seq<char>, f: spec_fn(char) -> bool) -> bool {
    exists|i: int| 0 <= i < s.len() && #[trigger] f(s[i])
}

/// Category of a whole text: any complex-script character makes it complex; otherwise any
/// emoji makes it emoji; otherwise any East Asian character makes it East Asian.
pub open spec fn spec_classify_script_category(s: Seq<char>) -> ScriptCategory {
    if has_char_where(s, |c: char| spec_is_complex_script_char(c)) {
        ScriptCategory::Complex
    } else if has_char_where(s, |c: char| spec_is_emoji_char(c)) {
        ScriptCategory::Emoji
    } else if has_char_where(s, |c: char| spec_is_east_asian_char(c)) {
        ScriptCategory::EastAsian
    } else {
        ScriptCategory::LatinLike
    }
}

pub fn classify_script_category(text: &str) -> (r: ScriptCategory)
    ensures
        r == spec_classify_script_category(text@),
{
    let mut complex = false;
    let mut emoji = false;
    let mut east_asian = false;
    for ch in it: text.chars()
        invariant
            it.seq() == text@,
            complex == has_char_where(
                text@.take(it.index() as int),
                |c: char| spec_is_complex_script_char(c),
            ),
            emoji == has_char_where(
                text@.take(it.index() as int),
                |c: char| spec_is_emoji_char(c),
            ),
            east_asian == has_char_where(
                text@.take(it.index() as int),
                |c: char| spec_is_east_asian_char(c),
            ),
    {
        let ghost i = it.index() as int;
        let ghost pre = text@.take(i);
        let ghost post = text@.take(i + 1);
        assert(post == pre.push(ch));
        if is_complex_script_char(ch) {
            complex = true;
        }
        if is_emoji_char(ch) {
            emoji = true;
        }
        if is_east_asian_char(ch) {
            east_asian = true;
        }
        proof {
            lemma_has_char_push(pre, ch, |c: char| spec_is_complex_script_char(c));
            lemma_has_char_push(pre, ch, |c: char| spec_is_emoji_char(c));
            lemma_has_char_push(pre, ch, |c: char| spec_is_east_asian_char(c));
        }
    }
    proof {
        assert(text@.take(text@.len() as int) == text@);
    }
    if complex {
        ScriptCategory::Complex
    } else if emoji {
        ScriptCategory::Emoji
    } else if east_asian {
        ScriptCategory::EastAsian
    } else {
        ScriptCategory::LatinLike
    }
}

proof fn lemma_has_char_push(s: Seq<char>, c: char, f: spec_fn(char) -> bool)
    ensures
        has_char_where(s.push(c), f) == (has_char_where(s, f) || f(c)),
{
    let t = s.push(c);
    if has_char_where(s, f) {
        let i = choose|i: int| 0 <= i < s.len() && #[trigger] f(s[i]);
        assert(t[i] == s[i]);
    }
    if f(c) {
        assert(t[s.len() as int] == c);
    }
    if has_char_where(t, f) {
        let i = choose|i: int| 0 <= i < t.len() && #[trigger] f(t[i]);
        if i < s.len() {
            assert(s[i] == t[i]);
        }
    }
}

// ---------------------------------------------------------------------------
// Splitting text into script runs
// ---------------------------------------------------------------------------

/// The category a single non-joining character starts or continues.
pub open spec fn char_category(c: char) -> ScriptCategory {
    if spec_is_emoji_char(c) {
        ScriptCategory::Emoji
    } else if spec_is_complex_script_char(c) {
        ScriptCategory::Complex
    } else if spec_is_east_asian_char(c) {
        ScriptCategory::EastAsian
    } else {
        ScriptCategory::LatinLike
    }
}

/// Finished segments, the open segment's category and text, and whether the next
/// character is glued to the open segment by a joiner.
pub type SegState = (Seq<(ScriptCategory, Seq<char>)>, Option<ScriptCategory>, Seq<char>, bool);

/// One step of the segmentation: whitespace and joiners stay in the open segment;
/// a character of another category closes it, unless a joiner glues it on.
pub open spec fn seg_step(st: SegState, c: char) -> SegState {
    let (done, cur, text, keep) = st;
    if is_unicode_whitespace(c) || spec_is_cluster_joiner(c) {
        (done, cur, text.push(c), keep || spec_is_cluster_joiner(c))
    } else {
        let cat = char_category(c);
        if keep || cur == Some(cat) || cur is None {
            (done, if cur is None { Some(cat) } else { cur }, text.push(c), false)
        } else {
            (done.push((cur.unwrap(), text)), Some(cat), seq![c], false)
        }
    }
}

/// Segmentation state after reading all of `s`.
pub open spec fn seg_state(s: Seq<char>) -> SegState
    decreases s.len(),
{
    if s.len() == 0 {
        (Seq::empty(), None, Seq::empty(), false)
    } else {
        seg_step(seg_state(s.drop_last()), s.last())
    }
}

/// The segments of `s`: the finished ones, then the open one. Text with no character that
/// has a script (only spaces and joiners) is one Latin-like segment; empty text has none.
pub open spec fn spec_segment_by_script(s: Seq<char>) -> Seq<(ScriptCategory, Seq<char>)> {
    let (done, cur, text, keep) = seg_state(s);
    match cur {
        Some(cat) => done.push((cat, text)),
        None => if s.len() > 0 {
            done.push((ScriptCategory::LatinLike, s))
        } else {
            done
        },
    }
}

/// The abstract value of a list of segments.
pub open spec fn segments_view(v: Seq<ScriptSegment>) -> Seq<(ScriptCategory, Seq<char>)> {
    v.map_values(|x: ScriptSegment| (x.category, x.text@))
}

/// The texts of the segments, one after the other.
pub open spec fn concat_texts(segs: Seq<(ScriptCategory, Seq<char>)>) -> Seq<char>
    decreases segs.len(),
{
    if segs.len() == 0 {
        Seq::empty()
    } else {
        concat_texts(segs.drop_last()) + segs.last().1
    }
}

/// Every segment has text, and neighbouring segments have different categories.
pub open spec fn well_split(segs: Seq<(ScriptCategory, Seq<char>)>) -> bool {
    &&& forall|i: int| 0 <= i < segs.len() ==> (#[trigger] segs[i]).1.len() > 0
    &&& forall|i: int| 0 <= i < segs.len() - 1 ==> (#[trigger] segs[i]).0 != segs[i + 1].0
}

/// What holds of the segmentation state after any prefix.
pub open spec fn seg_state_ok(p: Seq<char>, st: SegState) -> bool {
    let (done, cur, text, keep) = st;
    &&& concat_texts(done) + text == p
    &&& (cur is None ==> done.len() == 0)
    &&& (cur is Some ==> text.len() > 0)
    &&& well_split(done)
    &&& (done.len() > 0 && cur is Some ==> done.last().0 != cur.unwrap())
}

proof fn lemma_concat_push(segs: Seq<(ScriptCategory, Seq<char>)>, x: (ScriptCategory, Seq<char>))
    ensures
        concat_texts(segs.push(x)) == concat_texts(segs) + x.1,
{
    assert(segs.push(x).drop_last() == segs);
}

proof fn lemma_seg_state_ok(p: Seq<char>)
    ensures
        seg_state_ok(p, seg_state(p)),
    decreases p.len(),
{
    if p.len() == 0 {
        assert(concat_texts(Seq::<(ScriptCategory, Seq<char>)>::empty()) + Seq::<char>::empty()
            =~= p);
    } else {
        let q = p.drop_last();
        let c = p.last();
        lemma_seg_state_ok(q);
        let (done, cur, text, keep) = seg_state(q);
        assert(q.push(c) == p);
        if is_unicode_whitespace(c) || spec_is_cluster_joiner(c) {
            assert(concat_texts(done) + text.push(c) =~= (concat_texts(done) + text).push(c));
        } else {
            let cat = char_category(c);
            if keep || cur == Some(cat) || cur is None {
                assert(concat_texts(done) + text.push(c) =~= (concat_texts(done) + text).push(c));
            } else {
                let nd = done.push((cur.unwrap(), text));
                lemma_concat_push(done, (cur.unwrap(), text));
                assert(concat_texts(nd) + seq![c] =~= (concat_texts(done) + text).push(c));
                assert(nd.last() == (cur.unwrap(), text));
                assert forall|i: int| 0 <= i < nd.len() implies (#[trigger] nd[i]).1.len() > 0 by {
                    if i < done.len() {
                        assert(nd[i] == done[i]);
                    }
                }
                assert forall|i: int| 0 <= i < nd.len() - 1 implies (#[trigger] nd[i]).0 != nd[i
                    + 1].0 by {
                    if i < done.len() - 1 {
                        assert(nd[i] == done[i]);
                        assert(nd[i + 1] == done[i + 1]);
                    } else {
                        assert(nd[i] == done.last());
                    }
                }
            }
        }
    }
}

/// Segmentation loses and adds nothing: the segment texts, one after the other, are the
/// input text; every segment is non-empty; and no two neighbouring segments share a
/// category.
pub proof fn segment_by_script_is_lossless_split(s: Seq<char>)
    ensures
        concat_texts(spec_segment_by_script(s)) == s,
        well_split(spec_segment_by_script(s)),
{
    lemma_seg_state_ok(s);
    let (done, cur, text, keep) = seg_state(s);
    match cur {
        Some(cat) => {
            lemma_concat_push(done, (cat, text));
            let r = done.push((cat, text));
            assert forall|i: int| 0 <= i < r.len() implies (#[trigger] r[i]).1.len() > 0 by {
                if i < done.len() {
                    assert(r[i] == done[i]);
                }
            }
            assert forall|i: int| 0 <= i < r.len() - 1 implies (#[trigger] r[i]).0 != r[i + 1].0 by {
                if i < done.len() - 1 {
                    assert(r[i] == done[i]);
                    assert(r[i + 1] == done[i + 1]);
                } else {
                    assert(r[i] == done.last());
                }
            }
        },
        None => {
            if s.len() > 0 {
                let r = done.push((ScriptCategory::LatinLike, s));
                lemma_concat_push(done, (ScriptCategory::LatinLike, s));
                assert(done.len() == 0);
                assert(concat_texts(done) == Seq::<char>::empty());
                assert(Seq::<char>::empty() + s =~= s);
                assert(r[0] == (ScriptCategory::LatinLike, s));
            }
        },
    }
}

/// Splits text into runs of one script family. Spaces and combining marks stay with the run
/// they follow; a zero-width joiner or combining mark glues the next character to the
/// current run.
pub fn segment_by_script(text: &str) -> (r: Vec<ScriptSegment>)
    ensures
        segments_view(r@) == spec_segment_by_script(text@),
{
    let mut segments: Vec<ScriptSegment> = Vec::new();
    let mut current_category: Option<ScriptCategory> = None;
    let mut current_text = String::new();
    let mut keep_with_current = false;

    for ch in it: text.chars()
        invariant
            it.seq() == text@,
            seg_state(text@.take(it.index() as int)) == (
                segments_view(segments@),
                current_category,
                current_text@,
                keep_with_current,
            ),
    {
        let ghost i = it.index() as int;
        let ghost pre = text@.take(i);
        proof {
            assert(text@.take(i + 1).drop_last() == pre);
            assert(text@.take(i + 1).last() == ch);
        }
        let joiner = is_cluster_joiner(ch);
        if is_unicode_whitespace_char(ch) || joiner {
            push_char(&mut current_text, ch);
            if joiner {
                keep_with_current = true;
            }
        } else {
            let category = if is_emoji_char(ch) {
                ScriptCategory::Emoji
            } else if is_complex_script_char(ch) {
                ScriptCategory::Complex
            } else if is_east_asian_char(ch) {
                ScriptCategory::EastAsian
            } else {
                ScriptCategory::LatinLike
            };
            let same = match current_category {
                Some(c) => c == category,
                None => true,
            };
            if keep_with_current || same {
                if current_category.is_none() {
                    current_category = Some(category);
                }
                push_char(&mut current_text, ch);
                keep_with_current = false;
            } else {
                let prev_category = current_category.unwrap();
                let finished = current_text;
                let ghost old_view = segments_view(segments@);
                segments.push(ScriptSegment { category: prev_category, text: finished });
                proof {
                    assert(segments_view(segments@) =~= old_view.push((prev_category, finished@)));
                }
                current_category = Some(category);
                current_text = String::new();
                push_char(&mut current_text, ch);
                proof {
                    assert(current_text@ =~= seq![ch]);
                }
                keep_with_current = false;
            }
        }
    }
    proof {
        assert(text@.take(text@.len() as int) == text@);
    }
    match current_category {
        Some(category) => {
            let ghost old_view = segments_view(segments@);
            let ghost t = current_text@;
            segments.push(ScriptSegment { category, text: current_text });
            proof {
                assert(segments_view(segments@) =~= old_view.push((category, t)));
            }
        },
        None => {
            if !text.is_empty() {
                let ghost old_view = segments_view(segments@);
                segments.push(ScriptSegment { category: ScriptCategory::LatinLike, text: text.to_string() });
                proof {
                    assert(segments_view(segments@) =~= old_view.push(
                        (ScriptCategory::LatinLike, text@),
                    ));
                }
            }
        },
    }
    segments
}

// ---------------------------------------------------------------------------
// Emergency wrapping
// ---------------------------------------------------------------------------

/// The larger of two integers.
pub open spec fn imax(a: int, b: int) -> int {
    if a >= b {
        a
    } else {
        b
    }
}

/// Estimated width of a glyph at a font size (hundredths of a point) and auto-fit scale
/// (thousandths of a percent), in units of 1/3000000000 px: em hundredths times size
/// times scale times four (a point is 4/3 px).
pub open spec fn glyph_units(c: char, size: int, scale: int) -> int {
    spec_glyph_em_width_hundredths(c) * size * scale * 4
}

/// One character of the scan for the widest unbreakable span: the widest finished span
/// and the width of the open one. Breaking spaces end the span; a soft hyphen ends it
/// with a hyphen drawn; a slash ends it after itself; East Asian characters stand
/// alone, a closing punctuation mark staying with the character before it.
pub open spec fn span_step(st: (int, int), c: char, size: int, scale: int) -> (int, int) {
    let (widest, cur) = st;
    let w = glyph_units(c, size, scale);
    if spec_is_breaking_whitespace(c) {
        (imax(widest, cur), 0)
    } else if c == '\u{00AD}' {
        (imax(widest, cur + glyph_units('-', size, scale)), 0)
    } else if c == '/' {
        (imax(widest, cur + w), 0)
    } else if spec_is_east_asian_char(c) {
        if spec_is_nonstarter_punctuation(c) {
            (imax(widest, cur + w), 0)
        } else {
            (imax(widest, cur), w)
        }
    } else {
        (widest, cur + w)
    }
}

/// The scan state after the characters of `s`.
pub open spec fn text_span_state(st: (int, int), s: Seq<char>, size: int, scale: int) -> (int, int)
    decreases s.len(),
{
    if s.len() == 0 {
        st
    } else {
        span_step(text_span_state(st, s.drop_last(), size, scale), s.last(), size, scale)
    }
}

/// Font size of a run for the estimate: the run's, the paragraph defaults', the
/// inherited one, else 18pt (hundredths of a point).
pub open spec fn estimate_font_size(r: TextRun, para_size: Option<i32>, inherited: Option<i32>) -> int {
    match r.style.font_size {
        Some(s) => s as int,
        None => match para_size {
            Some(s) => s as int,
            None => match inherited {
                Some(s) => s as int,
                None => 1800,
            },
        },
    }
}

/// The scan state after the runs; a line break ends the span.
pub open spec fn runs_span_state(
    st: (int, int),
    runs: Seq<TextRun>,
    para_size: Option<i32>,
    inherited: Option<i32>,
    scale: int,
) -> (int, int)
    decreases runs.len(),
{
    if runs.len() == 0 {
        st
    } else {
        let prev = runs_span_state(st, runs.drop_last(), para_size, inherited, scale);
        let r = runs.last();
        if r.is_break {
            (imax(prev.0, prev.1), 0)
        } else {
            text_span_state(prev, r.text@, estimate_font_size(r, para_size, inherited), scale)
        }
    }
}

/// The paragraph's own default font size.
pub open spec fn para_font_size(p: TextParagraph) -> Option<i32> {
    match p.def_rpr {
        Some(d) => d.font_size,
        None => None,
    }
}

/// Estimated width of the widest unbreakable span of a paragraph, in units of
/// 1/3000000000 px (never below zero).
pub open spec fn spec_longest_span(p: TextParagraph, inherited: Option<i32>, scale: int) -> int {
    let st = runs_span_state((0, 0), p.runs@, para_font_size(p), inherited, scale);
    imax(st.0, st.1)
}

/// Number of characters in the runs.
pub open spec fn runs_chars(runs: Seq<TextRun>) -> nat
    decreases runs.len(),
{
    if runs.len() == 0 {
        0
    } else {
        runs_chars(runs.drop_last()) + runs.last().text@.len()
    }
}

/// The inherited font size of paragraph `i`, if the list has one.
pub open spec fn inherited_at(sizes: Seq<Option<i32>>, i: int) -> Option<i32> {
    if 0 <= i < sizes.len() {
        sizes[i]
    } else {
        None
    }
}

/// The widest unbreakable span over the first `n` paragraphs (at least zero).
pub open spec fn widest_span(paras: Seq<TextParagraph>, sizes: Seq<Option<i32>>, scale: int, n: int) -> int
    decreases n,
{
    if n <= 0 {
        0
    } else {
        imax(
            widest_span(paras, sizes, scale, n - 1),
            spec_longest_span(paras[n - 1], inherited_at(sizes, n - 1), scale),
        )
    }
}

/// Emergency wrapping is needed when some unbreakable span is wider than the available
/// width (EMU, at least one pixel).
pub open spec fn spec_wrap_policy(
    paras: Seq<TextParagraph>,
    sizes: Seq<Option<i32>>,
    available_width: int,
    scale: int,
) -> TextWrapPolicy {
    let widest = widest_span(paras, sizes, scale, paras.len() as int);
    if widest * 9525 > imax(available_width, 9525) * 3000000000 {
        TextWrapPolicy::Emergency
    } else {
        TextWrapPolicy::Normal
    }
}

/// A wider box never needs emergency wrapping where a narrower one did not: with the same
/// paragraphs, inherited sizes and scale, wrapping that is normal at width `w1` is normal
/// at any width `w2 >= w1`.
pub proof fn wider_box_keeps_normal_wrapping(
    paras: Seq<TextParagraph>,
    sizes: Seq<Option<i32>>,
    scale: int,
    w1: int,
    w2: int,
)
    requires
        w1 <= w2,
        spec_wrap_policy(paras, sizes, w1, scale) is Normal,
    ensures
        spec_wrap_policy(paras, sizes, w2, scale) is Normal,
{
    let widest = widest_span(paras, sizes, scale, paras.len() as int);
    assert(imax(w1, 9525) <= imax(w2, 9525));
    assert(imax(w1, 9525) * 3000000000 <= imax(w2, 9525) * 3000000000) by (nonlinear_arith)
        requires
            imax(w1, 9525) <= imax(w2, 9525),
    ;
}

/// Bound on the width units of one glyph.
pub open spec fn glyph_bound() -> int {
    0x80_0000_0000_0000_0000
}

proof fn lemma_glyph_bound(c: char, size: i32, scale: i32)
    ensures
        -glyph_bound() <= glyph_units(c, size as int, scale as int) <= glyph_bound(),
{
    let e = spec_glyph_em_width_hundredths(c) as int;
    assert(0 <= e <= 100);
    let s = size as int;
    let k = scale as int;
    assert(-0x8000_0000 <= s <= 0x7fff_ffff);
    assert(-0x8000_0000 <= k <= 0x7fff_ffff);
    assert(-glyph_bound() <= e * s * k * 4 <= glyph_bound()) by (nonlinear_arith)
        requires
            0 <= e <= 100,
            -0x8000_0000 <= s <= 0x7fff_ffff,
            -0x8000_0000 <= k <= 0x7fff_ffff,
    ;
}

fn glyph_width_units(c: char, size: i32, scale: i32) -> (r: i128)
    ensures
        r == glyph_units(c, size as int, scale as int),
{
    proof {
        lemma_glyph_bound(c, size, scale);
    }
    let e: i128 = glyph_em_width_hundredths(c) as i128;
    let s: i128 = size as i128;
    let k: i128 = scale as i128;
    assert(-0x100_0000_0000 <= e * s <= 0x100_0000_0000) by (nonlinear_arith)
        requires
            0 <= e <= 100,
            -0x8000_0000 <= s <= 0x7fff_ffff,
    ;
    assert(-0x80_0000_0000_0000_0000 <= e * s * k <= 0x80_0000_0000_0000_0000) by (nonlinear_arith)
        requires
            -0x100_0000_0000 <= e * s <= 0x100_0000_0000,
            -0x8000_0000 <= k <= 0x7fff_ffff,
    ;
    e * s * k * 4
}

fn i128_max(a: i128, b: i128) -> (r: i128)
    ensures
        r == imax(a as int, b as int),
{
    if a >= b {
        a
    } else {
        b
    }
}

/// One scan step on executable state; the bound `k` counts the glyphs seen.
fn scan_char(widest: &mut i128, cur: &mut i128, c: char, size: i32, scale: i32, k: Ghost<int>)
    requires
        0 <= k@ < 0x100_0000_0000,
        -k@ * glyph_bound() <= *old(widest) <= k@ * glyph_bound(),
        -k@ * glyph_bound() <= *old(cur) <= k@ * glyph_bound(),
    ensures
        (*final(widest) as int, *final(cur) as int) == span_step(
            (*old(widest) as int, *old(cur) as int),
            c,
            size as int,
            scale as int,
        ),
        -(k@ + 1) * glyph_bound() <= *final(widest) <= (k@ + 1) * glyph_bound(),
        -(k@ + 1) * glyph_bound() <= *final(cur) <= (k@ + 1) * glyph_bound(),
{
    proof {
        lemma_glyph_bound(c, size, scale);
        lemma_glyph_bound('-', size, scale);
        assert(k@ * glyph_bound() + glyph_bound() < 0x1000_0000_0000_0000_0000_0000_0000_0000)
            by (nonlinear_arith)
            requires
                0 <= k@ < 0x100_0000_0000,
        ;
    }
    let w = glyph_width_units(c, size, scale);
    if is_breaking_whitespace(c) {
        *widest = i128_max(*widest, *cur);
        *cur = 0;
    } else if is_soft_hyphen(c) {
        let h = glyph_width_units('-', size, scale);
        *widest = i128_max(*widest, *cur + h);
        *cur = 0;
    } else if is_visible_wrap_break(c) {
        *widest = i128_max(*widest, *cur + w);
        *cur = 0;
    } else if is_east_asian_char(c) {
        if is_east_asian_nonstarter_punctuation(c) {
            *widest = i128_max(*widest, *cur + w);
            *cur = 0;
        } else {
            *widest = i128_max(*widest, *cur);
            *cur = w;
        }
    } else {
        *cur = *cur + w;
    }
}

fn scan_text(widest: &mut i128, cur: &mut i128, text: &str, size: i32, scale: i32, k: Ghost<int>)
    requires
        0 <= k@,
        k@ + text@.len() <= 0x100_0000_0000,
        -k@ * glyph_bound() <= *old(widest) <= k@ * glyph_bound(),
        -k@ * glyph_bound() <= *old(cur) <= k@ * glyph_bound(),
    ensures
        (*final(widest) as int, *final(cur) as int) == text_span_state(
            (*old(widest) as int, *old(cur) as int),
            text@,
            size as int,
            scale as int,
        ),
        -(k@ + text@.len()) * glyph_bound() <= *final(widest) <= (k@ + text@.len()) * glyph_bound(),
        -(k@ + text@.len()) * glyph_bound() <= *final(cur) <= (k@ + text@.len()) * glyph_bound(),
{
    let ghost start = (*widest as int, *cur as int);
    for ch in it: text.chars()
        invariant
            it.seq() == text@,
            0 <= k@,
            k@ + text@.len() <= 0x100_0000_0000,
            (*widest as int, *cur as int) == text_span_state(
                start,
                text@.take(it.index() as int),
                size as int,
                scale as int,
            ),
            -(k@ + it.index()) * glyph_bound() <= *widest <= (k@ + it.index()) * glyph_bound(),
            -(k@ + it.index()) * glyph_bound() <= *cur <= (k@ + it.index()) * glyph_bound(),
    {
        proof {
            let i = it.index() as int;
            assert(text@.take(i + 1).drop_last() == text@.take(i));
            assert(text@.take(i + 1).last() == ch);
        }
        scan_char(widest, cur, ch, size, scale, Ghost(k@ + it.index()));
    }
    proof {
        assert(text@.take(text@.len() as int) == text@);
    }
}

proof fn lemma_text_span_monotone(st: (int, int), s: Seq<char>, size: int, scale: int)
    ensures
        text_span_state(st, s, size, scale).0 >= st.0,
    decreases s.len(),
{
    if s.len() > 0 {
        lemma_text_span_monotone(st, s.drop_last(), size, scale);
    }
}

proof fn lemma_runs_chars_prefix(runs: Seq<TextRun>, i: int)
    requires
        0 <= i < runs.len(),
    ensures
        runs_chars(runs.take(i + 1)) == runs_chars(runs.take(i)) + runs[i].text@.len(),
        runs_chars(runs.take(i + 1)) <= runs_chars(runs),
    decreases runs.len() - i,
{
    let t1 = runs.take(i + 1);
    assert(t1.drop_last() =~= runs.take(i));
    assert(t1.last() == runs[i]);
    if i + 1 < runs.len() {
        lemma_runs_chars_prefix(runs, i + 1);
    } else {
        assert(t1 =~= runs);
    }
}

/// Estimated width of the widest unbreakable span of a paragraph, in units of
/// 1/3000000000 px.
fn longest_unbreakable_span_width(paragraph: &TextParagraph, inherited: Option<i32>, scale: i32) -> (r: i128)
    requires
        runs_chars(paragraph.runs@) <= 0x100_0000_0000,
    ensures
        r == spec_longest_span(*paragraph, inherited, scale as int),
        0 <= r <= 0x100_0000_0000 * glyph_bound(),
{
    let para_size: Option<i32> = match &paragraph.def_rpr {
        Some(d) => d.font_size,
        None => None,
    };
    let mut widest: i128 = 0;
    let mut cur: i128 = 0;
    let ghost runs = paragraph.runs@;
    let mut i: usize = 0;
    proof {
        assert(runs.take(0) =~= Seq::<TextRun>::empty());
    }
    while i < paragraph.runs.len()
        invariant
            i <= runs.len(),
            runs == paragraph.runs@,
            runs_chars(runs) <= 0x100_0000_0000,
            para_size == para_font_size(*paragraph),
            (widest as int, cur as int) == runs_span_state(
                (0, 0),
                runs.take(i as int),
                para_size,
                inherited,
                scale as int,
            ),
            -runs_chars(runs.take(i as int)) * glyph_bound() <= widest <= runs_chars(runs.take(i as int)) * glyph_bound(),
            -runs_chars(runs.take(i as int)) * glyph_bound() <= cur <= runs_chars(runs.take(i as int)) * glyph_bound(),
            0 <= widest,
        decreases runs.len() - i,
    {
        let r = &paragraph.runs[i];
        proof {
            lemma_runs_chars_prefix(runs, i as int);
            let t1 = runs.take(i as int + 1);
            assert(t1.drop_last() =~= runs.take(i as int));
            assert(t1.last() == runs[i as int]);
            assert(*r == runs[i as int]);
        }
        if r.is_break {
            widest = i128_max(widest, cur);
            cur = 0;
        } else {
            let size: i32 = match r.style.font_size {
                Some(s) => s,
                None => match para_size {
                    Some(s) => s,
                    None => match inherited {
                        Some(s) => s,
                        None => 1800,
                    },
                },
            };
            let ghost before = (widest as int, cur as int);
            scan_text(&mut widest, &mut cur, r.text.as_str(), size, scale, Ghost(runs_chars(runs.take(i as int)) as int));
            proof {
                lemma_text_span_monotone(before, r.text@, size as int, scale as int);
            }
        }
        i = i + 1;
    }
    proof {
        assert(runs.take(runs.len() as int) =~= runs);
    }
    i128_max(widest, cur)
}

/// The auto-fit scale in thousandths of a percent (100000 when there is none).
pub open spec fn scale_of(font_scale: Option<i32>) -> int {
    match font_scale {
        Some(s) => s as int,
        None => 100000,
    }
}

/// Whether a text body needs emergency wrapping: some paragraph holds an unbreakable
/// span (estimated from glyph widths at the run's font size, the paragraph's default
/// size, the paragraph's inherited size or 18pt, times the auto-fit scale) wider than
/// the available width (EMU, at least one pixel). `font_scale` is in thousandths of a
/// percent; `inherited_font_sizes[i]` (hundredths of a point) belongs to paragraph `i`.
pub fn classify_wrap_policy(
    paragraphs: &[TextParagraph],
    inherited_font_sizes: &[Option<i32>],
    available_width: i64,
    font_scale: Option<i32>,
) -> (r: TextWrapPolicy)
    requires
        forall|i: int|
            0 <= i < paragraphs@.len() ==> runs_chars((#[trigger] paragraphs@[i]).runs@)
                <= 0x100_0000_0000,
    ensures
        r == spec_wrap_policy(
            paragraphs@,
            inherited_font_sizes@,
            available_width as int,
            scale_of(font_scale),
        ),
{
    let scale: i32 = match font_scale {
        Some(s) => s,
        None => 100000,
    };
    let mut widest: i128 = 0;
    let mut i: usize = 0;
    while i < paragraphs.len()
        invariant
            i <= paragraphs@.len(),
            scale as int == scale_of(font_scale),
            forall|j: int|
                0 <= j < paragraphs@.len() ==> runs_chars((#[trigger] paragraphs@[j]).runs@)
                    <= 0x100_0000_0000,
            widest as int == widest_span(paragraphs@, inherited_font_sizes@, scale as int, i as int),
            0 <= widest <= 0x100_0000_0000 * glyph_bound(),
        decreases paragraphs@.len() - i,
    {
        let inherited: Option<i32> = if i < inherited_font_sizes.len() {
            inherited_font_sizes[i]
        } else {
            None
        };
        let w = longest_unbreakable_span_width(&paragraphs[i], inherited, scale);
        widest = i128_max(widest, w);
        i = i + 1;
    }
    let avail: i128 = if (available_width as i128) > 9525 {
        available_width as i128
    } else {
        9525
    };
    assert(widest * 9525 <= 0x100_0000_0000 * glyph_bound() * 9525) by (nonlinear_arith)
        requires
            0 <= widest <= 0x100_0000_0000 * glyph_bound(),
    ;
    assert(avail * 3000000000 <= 0x8000_0000_0000_0000 * 3000000000) by (nonlinear_arith)
        requires
            9525 <= avail <= 0x8000_0000_0000_0000,
    ;
    if widest * 9525 > avail * 3000000000 {
        TextWrapPolicy::Emergency
    } else {
        TextWrapPolicy::Normal
    }
}

} // verus!
