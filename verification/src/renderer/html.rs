//! Escaping of text for HTML and the CSS/SVG keywords of line styles.
use vstd::prelude::*;

use crate::model::fill::{Border, DashStyle, LineCap, LineJoin};
use crate::strings::{
    decimal_digits, digit_char, fmt_fixed, push_decimal_u64, push_fixed, round_half_even,
    round_half_even_exec,
};
use crate::strings::{push_char, push_str};

verus! {

/// The HTML text for one character: `&`, `<`, `>` and `"` become entities.
pub open spec fn escape_char(c: char) -> Seq<char> {
    if c == '&' {
        seq!['&', 'a', 'm', 'p', ';']
    } else if c == '<' {
        seq!['&', 'l', 't', ';']
    } else if c == '>' {
        seq!['&', 'g', 't', ';']
    } else if c == '"' {
        seq!['&', 'q', 'u', 'o', 't', ';']
    } else {
        seq![c]
    }
}

/// The HTML text for a string: each character escaped, in order.
pub open spec fn spec_escape_html(s: Seq<char>) -> Seq<char>
    decreases s.len(),
{
    if s.len() == 0 {
        Seq::empty()
    } else {
        spec_escape_html(s.drop_last()) + escape_char(s.last())
    }
}

/// Escape `&`, `<`, `>` and `"` for use in HTML text and attribute values.
pub fn escape_html(s: &str) -> (r: String)
    ensures
        r@ == spec_escape_html(s@),
{
    let mut out = String::new();
    for ch in it: s.chars()
        invariant
            it.seq() == s@,
            out@ == spec_escape_html(s@.take(it.index() as int)),
    {
        let ghost before = out@;
        if ch == '&' {
            push_char(&mut out, '&');
            push_char(&mut out, 'a');
            push_char(&mut out, 'm');
            push_char(&mut out, 'p');
            push_char(&mut out, ';');
        } else if ch == '<' {
            push_char(&mut out, '&');
            push_char(&mut out, 'l');
            push_char(&mut out, 't');
            push_char(&mut out, ';');
        } else if ch == '>' {
            push_char(&mut out, '&');
            push_char(&mut out, 'g');
            push_char(&mut out, 't');
            push_char(&mut out, ';');
        } else if ch == '"' {
            push_char(&mut out, '&');
            push_char(&mut out, 'q');
            push_char(&mut out, 'u');
            push_char(&mut out, 'o');
            push_char(&mut out, 't');
            push_char(&mut out, ';');
        } else {
            push_char(&mut out, ch);
        }
        proof {
            let i = it.index() as int;
            assert(s@.take(i + 1).drop_last() == s@.take(i));
            assert(s@.take(i + 1).last() == ch);
            assert(out@ =~= before + escape_char(ch));
        }
    }
    proof {
        assert(s@.take(s@.len() as int) == s@);
    }
    out
}

/// Escaped text holds no raw `<`, `>` or `"`, and every `&` in it begins one of the
/// four entities, so it can stand in HTML text and in quoted attribute values.
pub proof fn escaped_html_has_no_markup(s: Seq<char>)
    ensures
        forall|i: int|
            0 <= i < spec_escape_html(s).len() ==> {
                let c = #[trigger] spec_escape_html(s)[i];
                c != '<' && c != '>' && c != '"'
            },
    decreases s.len(),
{
    if s.len() > 0 {
        let p = spec_escape_html(s.drop_last());
        let e = escape_char(s.last());
        escaped_html_has_no_markup(s.drop_last());
        assert forall|i: int| 0 <= i < spec_escape_html(s).len() implies {
            let c = #[trigger] spec_escape_html(s)[i];
            c != '<' && c != '>' && c != '"'
        } by {
            if i < p.len() {
                assert(spec_escape_html(s)[i] == p[i]);
            } else {
                assert(spec_escape_html(s)[i] == e[i - p.len()]);
            }
        }
    }
}

/// Append a `"; "` separator to a style buffer when the buffer is non-empty.
pub fn push_sep(buf: &mut String)
    ensures
        final(buf)@ == if old(buf)@.len() == 0 {
            old(buf)@
        } else {
            old(buf)@ + seq![';', ' ']
        },
{
    if !buf.as_str().is_empty() {
        push_char(buf, ';');
        push_char(buf, ' ');
        assert(buf@ =~= old(buf)@ + seq![';', ' ']);
    }
}

/// CSS `border-style` keyword of a dash style.
pub open spec fn spec_dash_style_to_css(style: DashStyle) -> Seq<char> {
    match style {
        DashStyle::Solid => "solid"@,
        DashStyle::Dot | DashStyle::SystemDot => "dotted"@,
        _ => "dashed"@,
    }
}

/// Convert a dash style to a CSS border-style keyword: solid, dotted for dot patterns,
/// dashed for every pattern with dashes.
pub fn dash_style_to_css(style: &DashStyle) -> (r: &'static str)
    ensures
        r@ == spec_dash_style_to_css(*style),
{
    match style {
        DashStyle::Solid => "solid",
        DashStyle::Dash | DashStyle::LongDash | DashStyle::SystemDash => "dashed",
        DashStyle::Dot | DashStyle::SystemDot => "dotted",
        DashStyle::DashDot | DashStyle::LongDashDot | DashStyle::LongDashDotDot
        | DashStyle::SystemDashDot | DashStyle::SystemDashDotDot => "dashed",
    }
}

/// SVG `stroke-linecap` attribute (with a leading space) of a line cap; empty for the
/// SVG default (flat, "butt").
pub open spec fn spec_line_cap_to_svg(cap: LineCap) -> Seq<char> {
    match cap {
        LineCap::Flat => ""@,
        LineCap::Square => " stroke-linecap=\"square\""@,
        LineCap::Round => " stroke-linecap=\"round\""@,
    }
}

pub fn line_cap_to_svg(cap: &LineCap) -> (r: &'static str)
    ensures
        r@ == spec_line_cap_to_svg(*cap),
{
    match cap {
        LineCap::Flat => "",
        LineCap::Square => " stroke-linecap=\"square\"",
        LineCap::Round => " stroke-linecap=\"round\"",
    }
}

/// SVG `stroke-linejoin` attribute (with a leading space) of a line join; empty for the
/// SVG default (miter).
pub open spec fn spec_line_join_to_svg(join: LineJoin) -> Seq<char> {
    match join {
        LineJoin::Miter => ""@,
        LineJoin::Bevel => " stroke-linejoin=\"bevel\""@,
        LineJoin::Round => " stroke-linejoin=\"round\""@,
    }
}

pub fn line_join_to_svg(join: &LineJoin) -> (r: &'static str)
    ensures
        r@ == spec_line_join_to_svg(*join),
{
    match join {
        LineJoin::Miter => "",
        LineJoin::Bevel => " stroke-linejoin=\"bevel\"",
        LineJoin::Round => " stroke-linejoin=\"round\"",
    }
}


/// `num / den` written with one decimal, as `{:.1}` writes the quotient: a `-` for a
/// negative quotient, the integer part, a point and the tenths, rounded half to even.
pub open spec fn fmt_one_decimal(num: int, den: nat) -> Seq<char> {
    let tenths = round_half_even(if num < 0 {
        (-num) as nat
    } else {
        num as nat
    }, den);
    (if num < 0 {
        seq!['-']
    } else {
        Seq::empty()
    }) + decimal_digits(tenths / 10) + seq!['.', digit_char(tenths % 10)]
}

/// SVG `stroke-miterlimit` attribute (with a leading space) of a mitered border with a
/// miter limit; the limit, in thousandths of a percent, is written as a ratio with one
/// decimal. Empty otherwise.
pub open spec fn spec_line_miter_limit_to_svg(border: Border) -> Seq<char> {
    if border.join == LineJoin::Miter && border.miter_limit is Some {
        " stroke-miterlimit=\""@ + fmt_one_decimal(border.miter_limit.unwrap() as int, 10000)
            + seq!['"']
    } else {
        Seq::empty()
    }
}

pub fn line_miter_limit_to_svg(border: &Border) -> (r: String)
    ensures
        r@ == spec_line_miter_limit_to_svg(*border),
{
    let mut s = String::new();
    if border.join == LineJoin::Miter {
        if let Some(limit) = border.miter_limit {
            push_str(&mut s, " stroke-miterlimit=\"");
            let mag: u64 = if limit < 0 {
                if limit == i32::MIN {
                    2147483648u64
                } else {
                    (-limit) as u64
                }
            } else {
                limit as u64
            };
            if limit < 0 {
                push_char(&mut s, '-');
            }
            let tenths = round_half_even_exec(mag, 10000);
            push_decimal_u64(&mut s, tenths / 10);
            push_char(&mut s, '.');
            push_decimal_u64(&mut s, tenths % 10);
            push_char(&mut s, '"');
            proof {
                assert(decimal_digits((tenths % 10) as nat) == seq![digit_char((tenths % 10) as nat)]);
                assert(s@ =~= spec_line_miter_limit_to_svg(*border));
            }
        }
    }
    s
}

/// Dash and gap lengths of a dash style, in stroke widths (empty for a solid line).
pub open spec fn dash_pattern(style: DashStyle) -> Seq<int> {
    match style {
        DashStyle::Solid => seq![],
        DashStyle::Dash => seq![8, 4],
        DashStyle::Dot => seq![2, 2],
        DashStyle::DashDot => seq![8, 4, 2, 4],
        DashStyle::LongDash => seq![12, 4],
        DashStyle::LongDashDot => seq![12, 4, 2, 4],
        DashStyle::LongDashDotDot => seq![12, 4, 2, 4, 2, 4],
        DashStyle::SystemDash => seq![6, 3],
        DashStyle::SystemDot => seq![1, 2],
        DashStyle::SystemDashDot => seq![3, 1, 1, 1],
        DashStyle::SystemDashDotDot => seq![3, 1, 1, 1, 1, 1],
    }
}

/// The lengths of a dash pattern for a stroke width, in pixels with one decimal (`per_px`
/// width units to the pixel), separated by spaces.
pub open spec fn dash_lengths(pattern: Seq<int>, width: int, per_px: nat) -> Seq<char>
    decreases pattern.len(),
{
    if pattern.len() == 0 {
        Seq::empty()
    } else if pattern.len() == 1 {
        fmt_fixed(pattern[0] * width, per_px, 1)
    } else {
        dash_lengths(pattern.drop_last(), width, per_px) + seq![' '] + fmt_fixed(
            pattern.last() * width,
            per_px,
            1,
        )
    }
}

/// SVG `stroke-dasharray` attribute (with a leading space) of a dash style for a stroke
/// width given in units of which `per_px` make a pixel (one pixel when the width is not
/// positive); empty for a solid line.
pub open spec fn spec_dash_array_svg(style: DashStyle, stroke_width: int, per_px: nat) -> Seq<char> {
    let w = if stroke_width > 0 {
        stroke_width
    } else {
        per_px as int
    };
    if style == DashStyle::Solid {
        Seq::empty()
    } else {
        " stroke-dasharray=\""@ + dash_lengths(dash_pattern(style), w, per_px) + seq!['"']
    }
}

/// SVG `stroke-dasharray` attribute (with a leading space) of a dash style for a stroke
/// width in EMU (one pixel when the width is not positive); empty for a solid line.
pub open spec fn spec_dash_style_to_svg(style: DashStyle, stroke_width: int) -> Seq<char> {
    spec_dash_array_svg(style, stroke_width, 9525)
}


proof fn lemma_dash_pattern_bounds(style: DashStyle)
    ensures
        forall|i: int|
            0 <= i < dash_pattern(style).len() ==> 1 <= #[trigger] dash_pattern(style)[i] <= 12,
{
    let p = dash_pattern(style);
    assert forall|i: int| 0 <= i < p.len() implies 1 <= #[trigger] p[i] <= 12 by {
        match style {
            DashStyle::Solid => {},
            DashStyle::Dash => {
                assert(p =~= seq![8int, 4]);
            },
            DashStyle::Dot => {
                assert(p =~= seq![2int, 2]);
            },
            DashStyle::DashDot => {
                assert(p =~= seq![8int, 4, 2, 4]);
            },
            DashStyle::LongDash => {
                assert(p =~= seq![12int, 4]);
            },
            DashStyle::LongDashDot => {
                assert(p =~= seq![12int, 4, 2, 4]);
            },
            DashStyle::LongDashDotDot => {
                assert(p =~= seq![12int, 4, 2, 4, 2, 4]);
            },
            DashStyle::SystemDash => {
                assert(p =~= seq![6int, 3]);
            },
            DashStyle::SystemDot => {
                assert(p =~= seq![1int, 2]);
            },
            DashStyle::SystemDashDot => {
                assert(p =~= seq![3int, 1, 1, 1]);
            },
            DashStyle::SystemDashDotDot => {
                assert(p =~= seq![3int, 1, 1, 1, 1, 1]);
            },
        }
    }
}

fn dash_pattern_of(style: &DashStyle) -> (r: Vec<i64>)
    ensures
        r@.len() == dash_pattern(*style).len(),
        forall|i: int| 0 <= i < r@.len() ==> r@[i] as int == #[trigger] dash_pattern(*style)[i],
{
    let r: Vec<i64> = match style {
        DashStyle::Solid => vec![],
        DashStyle::Dash => vec![8, 4],
        DashStyle::Dot => vec![2, 2],
        DashStyle::DashDot => vec![8, 4, 2, 4],
        DashStyle::LongDash => vec![12, 4],
        DashStyle::LongDashDot => vec![12, 4, 2, 4],
        DashStyle::LongDashDotDot => vec![12, 4, 2, 4, 2, 4],
        DashStyle::SystemDash => vec![6, 3],
        DashStyle::SystemDot => vec![1, 2],
        DashStyle::SystemDashDot => vec![3, 1, 1, 1],
        DashStyle::SystemDashDotDot => vec![3, 1, 1, 1, 1, 1],
    };
    r
}

/// Convert a dash style to an SVG `stroke-dasharray` attribute for a stroke width in EMU.
pub fn dash_style_to_svg(style: &DashStyle, stroke_width: i64) -> (r: String)
    ensures
        r@ == spec_dash_style_to_svg(*style, stroke_width as int),
{
    dash_array_svg(style, stroke_width as i128, 9525)
}

/// The `stroke-dasharray` attribute of a dash style for a stroke width given in units of
/// which `per_px` make a pixel (see `spec_dash_array_svg`).
pub fn dash_array_svg(style: &DashStyle, stroke_width: i128, per_px: u64) -> (r: String)
    requires
        per_px > 0,
        stroke_width < 0x1_0000_0000_0000_0000_0000,
    ensures
        r@ == spec_dash_array_svg(*style, stroke_width as int, per_px as nat),
{
    let w: i128 = if stroke_width > 0 {
        stroke_width
    } else {
        per_px as i128
    };
    let mut s = String::new();
    if *style == DashStyle::Solid {
        return s;
    }
    let pattern = dash_pattern_of(style);
    let ghost p = dash_pattern(*style);
    push_str(&mut s, " stroke-dasharray=\"");
    let ghost head = s@;
    let mut i: usize = 0;
    proof {
        assert(p.take(0) =~= Seq::<int>::empty());
        lemma_dash_pattern_bounds(*style);
    }
    while i < pattern.len()
        invariant
            i <= pattern@.len(),
            pattern@.len() == p.len(),
            forall|j: int| 0 <= j < p.len() ==> 1 <= #[trigger] p[j] <= 12,
            forall|j: int| 0 <= j < pattern@.len() ==> pattern@[j] as int == #[trigger] p[j],
            0 < w < 0x1_0000_0000_0000_0000_0000,
            per_px > 0,
            s@ == head + dash_lengths(p.take(i as int), w as int, per_px as nat),
        decreases pattern@.len() - i,
    {
        let m = pattern[i];
        assert(0 < m <= 12) by {
            assert(pattern@[i as int] as int == p[i as int]);
        }
        if i > 0 {
            push_char(&mut s, ' ');
        }
        let mi: i128 = m as i128;
        assert(0 < mi * w <= 12 * 0x1_0000_0000_0000_0000_0000) by (nonlinear_arith)
            requires
                0 < mi <= 12,
                0 < w < 0x1_0000_0000_0000_0000_0000,
        ;
        let mw: i128 = mi * w;
        push_fixed(&mut s, mw, per_px as u128, 1);
        proof {
            let t1 = p.take(i as int + 1);
            assert(t1.drop_last() =~= p.take(i as int));
            assert(t1.last() == p[i as int]);
            if i == 0 {
                assert(t1 =~= seq![p[0]]);
            }
        }
        i = i + 1;
    }
    proof {
        assert(p.take(p.len() as int) =~= p);
    }
    push_char(&mut s, '"');
    s
}

} // verus!
