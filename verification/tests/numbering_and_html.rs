use pptx2html_core::geometry::needs_evenodd_fill;
use pptx2html_core::model::fill::{Border, DashStyle, LineCap, LineJoin};
use pptx2html_core::renderer::html::{
    dash_style_to_css, escape_html, line_cap_to_svg, line_join_to_svg, line_miter_limit_to_svg, push_sep,
};
use pptx2html_core::renderer::numbering::{format_auto_num, to_alpha_lc, to_alpha_uc, to_roman_lc, to_roman_uc};

#[test]
fn alpha_numbering_is_bijective_base_26() {
    assert_eq!(to_alpha_lc(1), "a");
    assert_eq!(to_alpha_lc(2), "b");
    assert_eq!(to_alpha_lc(26), "z");
    assert_eq!(to_alpha_lc(27), "aa");
    assert_eq!(to_alpha_lc(52), "az");
    assert_eq!(to_alpha_lc(53), "ba");
    assert_eq!(to_alpha_lc(702), "zz");
    assert_eq!(to_alpha_lc(703), "aaa");
    assert_eq!(to_alpha_uc(28), "AB");
}

#[test]
fn alpha_numbering_of_non_positive_values_is_a() {
    assert_eq!(to_alpha_lc(0), "a");
    assert_eq!(to_alpha_lc(-7), "a");
    assert_eq!(to_alpha_uc(0), "A");
}

#[test]
fn alpha_numbering_round_trips_on_samples() {
    for n in 1..2000 {
        let s = to_alpha_lc(n);
        let mut v = 0i32;
        for c in s.chars() {
            v = v * 26 + (c as i32 - 96);
        }
        assert_eq!(v, n);
        assert_eq!(to_alpha_uc(n), s.to_uppercase());
    }
}

#[test]
fn roman_numerals() {
    assert_eq!(to_roman_uc(1), "I");
    assert_eq!(to_roman_uc(4), "IV");
    assert_eq!(to_roman_uc(9), "IX");
    assert_eq!(to_roman_uc(14), "XIV");
    assert_eq!(to_roman_uc(40), "XL");
    assert_eq!(to_roman_uc(90), "XC");
    assert_eq!(to_roman_uc(400), "CD");
    assert_eq!(to_roman_uc(1994), "MCMXCIV");
    assert_eq!(to_roman_uc(3999), "MMMCMXCIX");
    assert_eq!(to_roman_lc(2024), "mmxxiv");
}

#[test]
fn roman_numerals_out_of_range_fall_back_to_decimal() {
    assert_eq!(to_roman_uc(0), "0");
    assert_eq!(to_roman_uc(4000), "4000");
    assert_eq!(to_roman_uc(-3), "-3");
    assert_eq!(to_roman_lc(-12), "-12");
    assert_eq!(to_roman_uc(i32::MIN), "-2147483648");
}

#[test]
fn roman_numerals_use_only_roman_letters() {
    for n in 1..=3999 {
        assert!(to_roman_uc(n).chars().all(|c| "IVXLCDM".contains(c)));
    }
}

#[test]
fn auto_number_labels() {
    assert_eq!(format_auto_num("arabicPeriod", 3), "3.");
    assert_eq!(format_auto_num("arabicParenR", 3), "3)");
    assert_eq!(format_auto_num("arabicParenBoth", 3), "(3)");
    assert_eq!(format_auto_num("arabicPlain", 12), "12");
    assert_eq!(format_auto_num("alphaLcPeriod", 2), "b.");
    assert_eq!(format_auto_num("alphaLcParenR", 27), "aa)");
    assert_eq!(format_auto_num("alphaLcParenBoth", 1), "(a)");
    assert_eq!(format_auto_num("alphaUcPeriod", 3), "C.");
    assert_eq!(format_auto_num("alphaUcParenR", 3), "C)");
    assert_eq!(format_auto_num("alphaUcParenBoth", 3), "(C)");
    assert_eq!(format_auto_num("romanLcPeriod", 4), "iv.");
    assert_eq!(format_auto_num("romanLcParenR", 4), "iv)");
    assert_eq!(format_auto_num("romanLcParenBoth", 4), "(iv)");
    assert_eq!(format_auto_num("romanUcPeriod", 9), "IX.");
    assert_eq!(format_auto_num("romanUcParenR", 9), "IX)");
    assert_eq!(format_auto_num("romanUcParenBoth", 9), "(IX)");
}

#[test]
fn auto_number_unknown_type_numbers_like_arabic_period() {
    assert_eq!(format_auto_num("hebrew2Minus", 5), "5.");
    assert_eq!(format_auto_num("arabicPeriod", -1), "-1.");
}

#[test]
fn escape_html_replaces_markup_characters() {
    assert_eq!(escape_html("a < b & c > \"d\""), "a &lt; b &amp; c &gt; &quot;d&quot;");
    assert_eq!(escape_html("plain 'text'"), "plain 'text'");
    assert_eq!(escape_html(""), "");
    assert_eq!(escape_html("&amp;"), "&amp;amp;");
}

#[test]
fn escaped_html_has_no_markup_characters() {
    let samples = ["<script>alert(\"x\")</script>", "a>b", "\"\"", "漢字 & <b>"];
    for s in samples {
        let e = escape_html(s);
        assert!(!e.contains('<') && !e.contains('>') && !e.contains('"'));
    }
}

#[test]
fn push_sep_only_separates_nonempty_buffers() {
    let mut buf = String::new();
    push_sep(&mut buf);
    assert_eq!(buf, "");
    buf.push_str("color: red");
    push_sep(&mut buf);
    assert_eq!(buf, "color: red; ");
}

#[test]
fn dash_styles_map_to_css_keywords() {
    assert_eq!(dash_style_to_css(&DashStyle::Solid), "solid");
    assert_eq!(dash_style_to_css(&DashStyle::Dash), "dashed");
    assert_eq!(dash_style_to_css(&DashStyle::LongDash), "dashed");
    assert_eq!(dash_style_to_css(&DashStyle::SystemDash), "dashed");
    assert_eq!(dash_style_to_css(&DashStyle::Dot), "dotted");
    assert_eq!(dash_style_to_css(&DashStyle::SystemDot), "dotted");
    assert_eq!(dash_style_to_css(&DashStyle::DashDot), "dashed");
    assert_eq!(dash_style_to_css(&DashStyle::LongDashDotDot), "dashed");
    assert_eq!(dash_style_to_css(&DashStyle::SystemDashDotDot), "dashed");
}

#[test]
fn line_cap_and_join_attributes() {
    assert_eq!(line_cap_to_svg(&LineCap::Flat), "");
    assert_eq!(line_cap_to_svg(&LineCap::Square), " stroke-linecap=\"square\"");
    assert_eq!(line_cap_to_svg(&LineCap::Round), " stroke-linecap=\"round\"");
    assert_eq!(line_join_to_svg(&LineJoin::Miter), "");
    assert_eq!(line_join_to_svg(&LineJoin::Bevel), " stroke-linejoin=\"bevel\"");
    assert_eq!(line_join_to_svg(&LineJoin::Round), " stroke-linejoin=\"round\"");
}

#[test]
fn miter_limit_attribute_only_for_mitered_borders() {
    let border = Border {
        join: LineJoin::Miter,
        miter_limit: Some(800000),
        ..Default::default()
    };
    assert_eq!(line_miter_limit_to_svg(&border), " stroke-miterlimit=\"8.0\"");
    let border = Border {
        join: LineJoin::Miter,
        miter_limit: Some(123456),
        ..Default::default()
    };
    assert_eq!(line_miter_limit_to_svg(&border), " stroke-miterlimit=\"1.2\"");
    let border = Border {
        join: LineJoin::Round,
        miter_limit: Some(800000),
        ..Default::default()
    };
    assert_eq!(line_miter_limit_to_svg(&border), "");
    let border = Border {
        join: LineJoin::Miter,
        miter_limit: None,
        ..Default::default()
    };
    assert_eq!(line_miter_limit_to_svg(&border), "");
}

#[test]
fn evenodd_shapes() {
    for name in ["donut", "frame", "noSmoking", "blockArc", "bracePair", "bracketPair", "bevel", "funnel"] {
        assert!(needs_evenodd_fill(name));
    }
    for name in ["rect", "ellipse", "Donut", "", "donut "] {
        assert!(!needs_evenodd_fill(name));
    }
}
