use pptx2html_core::model::color::{Color, ColorScheme};
use pptx2html_core::model::fill::{
    Border, DashStyle, Fill, GradientFill, GradientStop, GradientType, ImageFill, LineCap, LineJoin,
};
use pptx2html_core::renderer::context::{RenderCollector, RenderCtx};
use pptx2html_core::renderer::fill_css::HtmlRenderer;
use pptx2html_core::renderer::html::{
    dash_style_to_css, dash_style_to_svg, escape_html, line_cap_to_svg, line_join_to_svg,
    line_miter_limit_to_svg,
};
use pptx2html_core::renderer::numbering::{format_auto_num, to_alpha_lc, to_alpha_uc, to_roman_lc, to_roman_uc};

const EMU_PER_PX: i64 = 9525;

fn scheme() -> ColorScheme {
    ColorScheme {
        accent1: "4472C4".to_string(),
        accent2: "ED7D31".to_string(),
        ..Default::default()
    }
}

#[test]
fn global_css_and_helper_formatters_cover_supported_variants() {
    let css = HtmlRenderer::global_css(960 * EMU_PER_PX, 540 * EMU_PER_PX);
    assert!(css.contains(".pptx-container"));
    assert!(css.contains(".slide-shell"));
    assert!(css.contains("width: 960.0px"));
    assert!(css.contains("height: 540.0px"));

    assert_eq!(format_auto_num("arabicPeriod", 3), "3.");
    assert_eq!(format_auto_num("alphaLcParenBoth", 27), "(aa)");
    assert_eq!(format_auto_num("alphaUcParenR", 2), "B)");
    assert_eq!(format_auto_num("romanLcPeriod", 14), "xiv.");
    assert_eq!(format_auto_num("romanUcParenBoth", 9), "(IX)");
    assert_eq!(format_auto_num("unknown", 5), "5.");
    assert_eq!(to_alpha_lc(0), "a");
    assert_eq!(to_alpha_uc(28), "AB");
    assert_eq!(to_roman_lc(4), "iv");
    assert_eq!(to_roman_uc(4000), "4000");
    assert_eq!(escape_html("<tag attr=\"1\">&"), "&lt;tag attr=&quot;1&quot;&gt;&amp;");
}

#[test]
fn global_css_writes_fractional_pixels_with_one_decimal() {
    let css = HtmlRenderer::global_css(12192000, 6858000);
    assert!(css.contains("width: 1280.0px;\n  height: 720.0px;"));
    let odd = HtmlRenderer::global_css(9525 * 3 + 4763, 9525 / 2);
    assert!(odd.contains("width: 3.5px;\n  height: 0.5px;"));
}

#[test]
fn dash_cap_join_miter_and_marker_helpers_cover_variants() {
    assert_eq!(dash_style_to_svg(&DashStyle::Solid, 2 * EMU_PER_PX), "");
    assert!(dash_style_to_svg(&DashStyle::Dash, 2 * EMU_PER_PX).contains("16.0 8.0"));
    assert!(dash_style_to_svg(&DashStyle::Dot, 2 * EMU_PER_PX).contains("4.0 4.0"));
    assert!(dash_style_to_svg(&DashStyle::DashDot, EMU_PER_PX).contains("8.0 4.0 2.0 4.0"));
    assert!(dash_style_to_svg(&DashStyle::LongDash, EMU_PER_PX).contains("12.0 4.0"));
    assert!(dash_style_to_svg(&DashStyle::LongDashDot, EMU_PER_PX).contains("12.0 4.0 2.0 4.0"));
    assert!(dash_style_to_svg(&DashStyle::LongDashDotDot, EMU_PER_PX).contains("12.0 4.0 2.0 4.0 2.0 4.0"));
    assert!(dash_style_to_svg(&DashStyle::SystemDash, EMU_PER_PX).contains("6.0 3.0"));
    assert!(dash_style_to_svg(&DashStyle::SystemDot, EMU_PER_PX).contains("1.0 2.0"));
    assert!(dash_style_to_svg(&DashStyle::SystemDashDot, EMU_PER_PX).contains("3.0 1.0 1.0 1.0"));
    assert!(dash_style_to_svg(&DashStyle::SystemDashDotDot, EMU_PER_PX).contains("3.0 1.0 1.0 1.0 1.0 1.0"));

    assert_eq!(dash_style_to_css(&DashStyle::Solid), "solid");
    assert_eq!(dash_style_to_css(&DashStyle::Dash), "dashed");
    assert_eq!(dash_style_to_css(&DashStyle::Dot), "dotted");
    assert_eq!(dash_style_to_css(&DashStyle::SystemDashDotDot), "dashed");

    assert_eq!(line_cap_to_svg(&LineCap::Flat), "");
    assert_eq!(line_cap_to_svg(&LineCap::Square), " stroke-linecap=\"square\"");
    assert_eq!(line_cap_to_svg(&LineCap::Round), " stroke-linecap=\"round\"");
    assert_eq!(line_join_to_svg(&LineJoin::Miter), "");
    assert_eq!(line_join_to_svg(&LineJoin::Bevel), " stroke-linejoin=\"bevel\"");
    assert_eq!(line_join_to_svg(&LineJoin::Round), " stroke-linejoin=\"round\"");

    let border = Border { join: LineJoin::Miter, miter_limit: Some(250000), ..Default::default() };
    assert_eq!(line_miter_limit_to_svg(&border), " stroke-miterlimit=\"2.5\"");
    assert_eq!(line_miter_limit_to_svg(&Border::default()), "");
}

#[test]
fn fill_helpers_cover_gradient_and_image_branches() {
    let gradient_fill = Fill::Gradient(GradientFill {
        gradient_type: GradientType::Linear,
        stops: vec![
            GradientStop { position: 0, color: Color::theme("accent1") },
            GradientStop { position: 100000, color: Color::rgb("00FF00") },
        ],
        angle: 135 * 60000,
    });
    let scheme = scheme();
    let ctx_embed = RenderCtx { scheme: Some(&scheme), clr_map: None, embed_images: true };
    let mut coll_embed = RenderCollector::default();
    let mut buf = String::new();
    HtmlRenderer::fill_to_css_buf(&gradient_fill, &ctx_embed, &mut coll_embed, &mut buf);
    assert!(buf.contains("linear-gradient(135deg"));
    assert!(HtmlRenderer::fill_to_css(&gradient_fill, &ctx_embed, &mut coll_embed).contains("linear-gradient"));

    let image_fill = Fill::Image(ImageFill { data: vec![1, 2, 3, 4], content_type: "image/png".to_string() });
    let mut embed_buf = String::new();
    HtmlRenderer::fill_to_css_buf(&image_fill, &ctx_embed, &mut coll_embed, &mut embed_buf);
    assert!(embed_buf.contains("background-image: url(data:image/png;base64,"));

    let ctx_external = RenderCtx { scheme: Some(&scheme), clr_map: None, embed_images: false };
    let mut coll_external = RenderCollector::default();
    let mut external_buf = String::new();
    HtmlRenderer::fill_to_css_buf(&image_fill, &ctx_external, &mut coll_external, &mut external_buf);
    assert!(external_buf.contains("background-image: url(images/slide-1/background-0.png)"));
    let assets = &coll_external.external_assets;
    assert_eq!(assets.len(), 1);
    assert_eq!(assets[0].relative_path, "images/slide-1/background-0.png");
}

#[test]
fn document_head_escapes_the_title_and_embeds_the_style_sheet() {
    let mut html = String::new();
    HtmlRenderer::begin_document(Some("Q&A <2024>"), 960 * EMU_PER_PX, 540 * EMU_PER_PX, &mut html);
    assert!(html.starts_with("<!DOCTYPE html>\n<html lang=\"ko\">\n<head>\n<meta charset=\"UTF-8\">\n"));
    assert!(html.contains("<title>Q&amp;A &lt;2024&gt;</title>\n<style>\n"));
    assert!(html.contains("width: 960.0px;\n  height: 540.0px;"));
    assert!(html.ends_with("</style>\n</head>\n<body>\n<div class=\"pptx-container\">\n"));

    let mut untitled = String::new();
    HtmlRenderer::begin_document(None, 0, 0, &mut untitled);
    assert!(untitled.contains("<title>Presentation</title>\n"));
}

#[test]
fn dash_array_of_a_thin_or_missing_stroke_uses_one_pixel() {
    assert_eq!(dash_style_to_svg(&DashStyle::Dash, 0), " stroke-dasharray=\"8.0 4.0\"");
    assert_eq!(dash_style_to_svg(&DashStyle::Dot, -5), " stroke-dasharray=\"2.0 2.0\"");
    // 12700 EMU is one point, 4/3 of a pixel.
    assert_eq!(dash_style_to_svg(&DashStyle::SystemDot, 12700), " stroke-dasharray=\"1.3 2.7\"");
}
