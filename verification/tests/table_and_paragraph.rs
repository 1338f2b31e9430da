use pptx2html_core::model::color::{ColorScheme, Color, ResolvedColor};
use pptx2html_core::model::fill::{Border, DashStyle, Fill, SolidFill};
use pptx2html_core::model::hierarchy::FontScheme;
use pptx2html_core::model::shape::{ListStyle, ParagraphDefaults, TextBody, VerticalAlign};
use pptx2html_core::model::table::{TableCell, TableData, TableRow};
use pptx2html_core::model::text::{
    Alignment, Bullet, BulletAutoNum, BulletChar, FontStyle, RunDefaults, SpacingValue,
    TextParagraph, TextRun, TextShadow, TextStyle,
};
use pptx2html_core::renderer::context::{RenderCollector, RenderCtx};
use pptx2html_core::renderer::fill_css::HtmlRenderer;
use pptx2html_core::renderer::run::RunRenderDefaults;
use pptx2html_core::renderer::text_style::TextStyleCtx;
use pptx2html_core::text_metrics::FontResolutionSource;

const EMU_PER_PT: i64 = 12700;
const EMU_PER_PX: i64 = 9525;

fn scheme() -> ColorScheme {
    ColorScheme {
        accent1: "4472C4".to_string(),
        accent2: "ED7D31".to_string(),
        ..Default::default()
    }
}

fn ctx(scheme: &ColorScheme) -> RenderCtx<'_> {
    RenderCtx { scheme: Some(scheme), clr_map: None, embed_images: true }
}

fn run(text: &str) -> TextRun {
    TextRun { text: text.to_string(), ..Default::default() }
}

fn no_defaults<'a>() -> RunRenderDefaults<'a> {
    RunRenderDefaults {
        para_def_rpr: None,
        run_defaults: None,
        font_ref_font: None,
        font_ref_color: None,
        font_scale: None,
    }
}

fn border(width_pt: i64, color: &str, dash_style: DashStyle) -> Border {
    Border {
        width: width_pt * EMU_PER_PT,
        color: Color::rgb(color),
        dash_style,
        ..Default::default()
    }
}

#[test]
fn render_table_and_paragraph_cover_borders_spans_and_bullets() {
    let scheme = scheme();
    let ctx = ctx(&scheme);
    let fonts = FontScheme::default();
    let mut coll = RenderCollector::default();

    let paragraph = TextParagraph {
        runs: vec![run("Cell Text")],
        bullet: Some(Bullet::AutoNum(BulletAutoNum {
            num_type: "romanUcPeriod".to_string(),
            start_at: Some(1),
            font: Some("Calibri".to_string()),
            size_pct: Some(120000),
            color: Some(Color::rgb("FF0000")),
        })),
        ..Default::default()
    };
    let char_bullet_para = TextParagraph {
        runs: vec![run("Bullet Text")],
        bullet: Some(Bullet::Char(BulletChar {
            char: "•".to_string(),
            font: Some("Symbol".to_string()),
            size_pct: Some(90000),
            color: Some(Color::theme("accent2")),
        })),
        ..Default::default()
    };
    let mut para_html = String::new();
    let mut counters = [0; 9];
    HtmlRenderer::render_paragraph(&paragraph, &ctx, Some(&fonts), &mut coll, &mut counters, &mut para_html);
    HtmlRenderer::render_paragraph(&char_bullet_para, &ctx, Some(&fonts), &mut coll, &mut counters, &mut para_html);
    assert!(para_html.contains("I."));
    assert!(para_html.contains("•"));
    assert!(para_html.contains("Cell Text"));
    assert!(para_html.contains("Bullet Text"));

    let table = TableData {
        rows: vec![TableRow {
            height: 24 * EMU_PER_PX,
            cells: vec![TableCell {
                text_body: Some(TextBody { paragraphs: vec![paragraph], ..Default::default() }),
                fill: Fill::Solid(SolidFill { color: Color::rgb("00FF00") }),
                border_left: border(1, "FF0000", DashStyle::Dash),
                border_right: border(1, "0000FF", DashStyle::Dot),
                border_top: border(1, "123456", DashStyle::Solid),
                border_bottom: border(1, "654321", DashStyle::SystemDash),
                col_span: 2,
                row_span: 3,
                v_merge: false,
                margin_left: 91440,
                margin_right: 91440,
                margin_top: 45720,
                margin_bottom: 45720,
                vertical_align: VerticalAlign::Middle,
            }],
        }],
        col_widths: vec![120 * EMU_PER_PX],
        band_row: true,
        band_col: false,
        first_row: true,
        last_row: false,
        first_col: true,
        last_col: false,
    };
    let mut html = String::new();
    HtmlRenderer::render_table(&table, &ctx, Some(&fonts), &mut coll, &mut html);
    assert!(html.contains("<table"));
    assert!(html.contains("colspan=\"2\""));
    assert!(html.contains("rowspan=\"3\""));
    assert!(html.contains("background-color: #00FF00"));
    assert!(html.contains("border-left: 1.0pt dashed #FF0000"));
    assert!(html.contains("border-right: 1.0pt dotted #0000FF"));
    assert!(html.contains("vertical-align: middle"));
}

#[test]
fn table_markup_is_exact_for_one_cell() {
    let scheme = scheme();
    let ctx = ctx(&scheme);
    let mut coll = RenderCollector::default();
    let table = TableData {
        rows: vec![TableRow {
            height: 20 * EMU_PER_PX,
            cells: vec![TableCell {
                margin_left: EMU_PER_PT,
                margin_right: 2 * EMU_PER_PT,
                margin_top: 3 * EMU_PER_PT,
                margin_bottom: 4 * EMU_PER_PT,
                ..Default::default()
            }],
        }],
        col_widths: vec![100, 300],
        ..Default::default()
    };
    let mut html = String::new();
    HtmlRenderer::render_table(&table, &ctx, None, &mut coll, &mut html);
    assert_eq!(
        html,
        "<table style=\"width:100%; height:100%; border-collapse:collapse; table-layout:fixed;\">\n<colgroup>\n\
         <col style=\"width:25.0%\"/>\n<col style=\"width:75.0%\"/>\n</colgroup>\n\
         <tr style=\"height:20.0px\">\n\
         <td style=\"padding: 3.0pt 2.0pt 4.0pt 1.0pt; vertical-align: top\">\n</td>\n\
         </tr>\n</table>\n"
    );
}

#[test]
fn table_bands_rows_after_the_header_and_emphasises_first_and_last() {
    let scheme = scheme();
    let ctx = ctx(&scheme);
    let mut coll = RenderCollector::default();
    let row = |h: i64| TableRow { height: h * EMU_PER_PX, cells: vec![TableCell::default()] };
    let table = TableData {
        rows: vec![row(10), row(11), row(12), row(13)],
        col_widths: vec![],
        band_row: true,
        first_row: true,
        last_row: true,
        ..Default::default()
    };
    let mut html = String::new();
    HtmlRenderer::render_table(&table, &ctx, None, &mut coll, &mut html);
    assert!(html.contains(
        "<tr style=\"height:10.0px; font-weight: bold; border-bottom: 2px solid rgba(0,0,0,0.2)\">"
    ));
    assert!(html.contains("<tr style=\"height:11.0px\">"));
    assert!(html.contains("<tr style=\"height:12.0px; background-color: rgba(0,0,0,0.04)\">"));
    assert!(html.contains(
        "<tr style=\"height:13.0px; font-weight: bold; border-top: 2px solid rgba(0,0,0,0.2)\">"
    ));
    // No columns: nothing between the colgroup tags.
    assert!(html.contains("<colgroup>\n</colgroup>\n"));
}

#[test]
fn table_skips_merged_cells_and_styles_columns() {
    let scheme = scheme();
    let ctx = ctx(&scheme);
    let mut coll = RenderCollector::default();
    let cell = TableCell::default();
    let merged = TableCell { v_merge: true, ..Default::default() };
    let table = TableData {
        rows: vec![TableRow {
            height: 0,
            cells: vec![cell.clone(), merged, cell.clone(), cell],
        }],
        col_widths: vec![1, 1, 1, 1],
        band_col: true,
        first_col: true,
        last_col: true,
        ..Default::default()
    };
    let mut html = String::new();
    HtmlRenderer::render_table(&table, &ctx, None, &mut coll, &mut html);
    // The merged second cell is skipped; with an emphasised first column, banding
    // shades the third column.
    let bold = "<td style=\"font-weight: bold; padding: 0.0pt 0.0pt 0.0pt 0.0pt; vertical-align: top\">";
    assert_eq!(html.matches("<td").count(), 3);
    assert_eq!(html.matches(bold).count(), 2);
    assert!(html.contains(
        "<td style=\"background-color: rgba(0,0,0,0.04); padding: 0.0pt 0.0pt 0.0pt 0.0pt; vertical-align: top\">"
    ));
    assert!(html.contains("<col style=\"width:25.0%\"/>"));
}

#[test]
fn numbering_counts_up_and_restarts_after_a_plain_paragraph() {
    let scheme = scheme();
    let ctx = ctx(&scheme);
    let mut coll = RenderCollector::default();
    let numbered = |text: &str| TextParagraph {
        runs: vec![run(text)],
        bullet: Some(Bullet::AutoNum(BulletAutoNum {
            num_type: "arabicPeriod".to_string(),
            start_at: Some(3),
            ..Default::default()
        })),
        ..Default::default()
    };
    let plain = TextParagraph { runs: vec![run("plain")], ..Default::default() };
    let nested = TextParagraph {
        level: 1,
        runs: vec![run("nested")],
        bullet: Some(Bullet::AutoNum(BulletAutoNum {
            num_type: "alphaLcParenR".to_string(),
            ..Default::default()
        })),
        ..Default::default()
    };
    let mut counters = [0; 9];
    let mut html = String::new();
    for p in [numbered("a"), numbered("b"), nested.clone(), nested, numbered("c"), plain, numbered("d")] {
        HtmlRenderer::render_paragraph(&p, &ctx, None, &mut coll, &mut counters, &mut html);
    }
    let labels: Vec<&str> = html
        .split("<span class=\"bullet\" style=\"\">")
        .skip(1)
        .map(|s| s.split(' ').next().unwrap())
        .collect();
    assert_eq!(labels, vec!["3.", "4.", "a)", "b)", "5.", "3."]);
    assert_eq!(counters, [1, 0, 0, 0, 0, 0, 0, 0, 0]);
}

#[test]
fn paragraph_without_visible_text_shows_no_bullet() {
    let scheme = scheme();
    let ctx = ctx(&scheme);
    let mut coll = RenderCollector::default();
    let p = TextParagraph {
        runs: vec![run("  \t"), TextRun { is_break: true, ..Default::default() }],
        bullet: Some(Bullet::Char(BulletChar { char: "-".to_string(), ..Default::default() })),
        ..Default::default()
    };
    let mut counters = [5; 9];
    let mut html = String::new();
    HtmlRenderer::render_paragraph(&p, &ctx, None, &mut coll, &mut counters, &mut html);
    assert!(!html.contains("bullet"));
    assert!(html.contains("<br/>"));
    assert_eq!(counters, [0; 9]);
    // One typeface record for the text run, none for the break.
    assert_eq!(coll.font_resolution_entries.len(), 1);
}

#[test]
fn empty_paragraph_holds_a_non_breaking_space() {
    let scheme = scheme();
    let ctx = ctx(&scheme);
    let mut coll = RenderCollector::default();
    let mut counters = [0; 9];
    let mut html = String::new();
    HtmlRenderer::render_paragraph(&TextParagraph::default(), &ctx, None, &mut coll, &mut counters, &mut html);
    assert_eq!(html, "<p class=\"paragraph\" style=\"text-align: left\">&nbsp;</p>\n");
}

#[test]
fn paragraph_style_combines_own_and_inherited_values() {
    let scheme = scheme();
    let ctx = ctx(&scheme);
    let mut coll = RenderCollector::default();
    let mut ls = ListStyle::default();
    ls.levels[2] = Some(ParagraphDefaults {
        line_spacing: Some(SpacingValue::Percent(90000)),
        space_before: Some(SpacingValue::Points(600)),
        indent: Some(-EMU_PER_PT * 18),
        bullet: Some(Bullet::Char(BulletChar { char: "*".to_string(), size_pct: Some(-1200000), ..Default::default() })),
        ..Default::default()
    });
    let text_ctx = TextStyleCtx { slide_list_style: Some(&ls), ..Default::default() };
    let p = TextParagraph {
        level: 2,
        alignment: Alignment::Center,
        rtl: true,
        space_after: Some(SpacingValue::Percent(50000)),
        runs: vec![run("x")],
        ..Default::default()
    };
    let mut counters = [0; 9];
    let mut html = String::new();
    HtmlRenderer::render_paragraph_with_defaults(
        &p, &ctx, None, &mut coll, &mut counters, &text_ctx, None, None, None, Some(10000), &mut html,
    );
    assert!(html.starts_with(
        "<p class=\"paragraph\" style=\"text-align: center; direction: rtl; unicode-bidi: bidi-override; \
         line-height: 0.81; margin-top: 6.0pt; margin-bottom: 0.5em; padding-left: 72.0pt; text-indent: -18.0pt\">"
    ));
    assert!(html.contains("<span class=\"bullet\" style=\"font-size: 12.0pt; \">* </span>"));
}

#[test]
fn line_height_of_a_reduced_single_line() {
    let scheme = scheme();
    let ctx = ctx(&scheme);
    let mut coll = RenderCollector::default();
    let text_ctx = TextStyleCtx::default();
    let mut counters = [0; 9];
    let mut html = String::new();
    let p = TextParagraph { runs: vec![run("x")], ..Default::default() };
    HtmlRenderer::render_paragraph_with_defaults(
        &p, &ctx, None, &mut coll, &mut counters, &text_ctx, None, None, None, Some(20000), &mut html,
    );
    assert!(html.starts_with("<p class=\"paragraph\" style=\"text-align: left; line-height: 0.80\">"));
}

#[test]
fn run_markup_is_exact_with_defaults() {
    let scheme = scheme();
    let ctx = ctx(&scheme);
    let mut coll = RenderCollector::default();
    let mut html = String::new();
    HtmlRenderer::render_run_with_defaults(&run("Hi"), &ctx, None, no_defaults(), &mut coll, &mut html);
    assert_eq!(
        html,
        "<span class=\"run\" style=\"font-size: 18.0pt\"><span class=\"run-segment\">Hi</span></span>"
    );
    let e = &coll.font_resolution_entries[0];
    assert_eq!(e.slide_index, 1);
    assert_eq!(e.run_text, "Hi");
    assert_eq!(e.requested_typeface, None);
    assert_eq!(e.source, None);
    assert!(!e.fallback_used);
}

#[test]
fn run_style_takes_each_property_from_the_most_specific_level() {
    let scheme = scheme();
    let ctx = ctx(&scheme);
    let mut coll = RenderCollector::default();
    let para_defaults = RunDefaults {
        font_size: Some(2400),
        italic: Some(true),
        baseline: Some(30000),
        ..Default::default()
    };
    let inherited = RunDefaults {
        bold: Some(true),
        color: Some(Color::theme("accent1")),
        letter_spacing: Some(150),
        font_latin: Some("Inherited Sans".to_string()),
        ..Default::default()
    };
    let d = RunRenderDefaults {
        para_def_rpr: Some(&para_defaults),
        run_defaults: Some(&inherited),
        font_ref_font: Some("Ref Font"),
        font_ref_color: None,
        font_scale: Some(50000),
    };
    let r = TextRun {
        text: "x<y".to_string(),
        style: TextStyle {
            highlight: Some(Color::rgb("FFFF00")),
            shadow: Some(TextShadow {
                offset_x: 2 * EMU_PER_PT,
                offset_y: -EMU_PER_PT,
                blur_radius: 3 * EMU_PER_PT,
                color: Color::none(),
            }),
            ..Default::default()
        },
        hyperlink: Some("https://example.com/?a=1&b=2".to_string()),
        ..Default::default()
    };
    let mut html = String::new();
    HtmlRenderer::render_run_with_defaults(&r, &ctx, None, d, &mut coll, &mut html);
    assert_eq!(
        html,
        "<a class=\"run\" href=\"https://example.com/?a=1&amp;b=2\" style=\"font-size: 12.0pt; \
         font-weight: bold; font-style: italic; color: #4472C4; vertical-align: 30.0%; font-size: 0.70em; \
         letter-spacing: 1.50pt; background-color: #FFFF00; text-shadow: 2.0pt -1.0pt 3.0pt rgba(0,0,0,0.5)\">\
         <span class=\"run-segment\" style=\"font-family: 'Inherited Sans'\">x&lt;y</span></a>"
    );
    let e = &coll.font_resolution_entries[0];
    assert_eq!(e.requested_typeface.as_deref(), Some("Inherited Sans"));
    assert_eq!(e.resolved_typeface.as_deref(), Some("Inherited Sans"));
    assert_eq!(e.source, Some(FontResolutionSource::InheritedDefaults));
}

#[test]
fn run_color_falls_back_to_the_font_ref_color() {
    let scheme = scheme();
    let ctx = ctx(&scheme);
    let mut coll = RenderCollector::default();
    let rc = ResolvedColor { hex: "ABCDEF".to_string() };
    let d = RunRenderDefaults { font_ref_color: Some(&rc), ..no_defaults() };
    let mut html = String::new();
    HtmlRenderer::render_run_with_defaults(&run("t"), &ctx, None, d, &mut coll, &mut html);
    assert!(html.contains("color: #ABCDEF"));
}

#[test]
fn theme_font_references_resolve_through_the_font_scheme() {
    let scheme = scheme();
    let ctx = ctx(&scheme);
    let fonts = FontScheme {
        minor_latin: "Calibri".to_string(),
        major_east_asian: "Yu Gothic".to_string(),
        ..Default::default()
    };
    let mut coll = RenderCollector::default();
    let r = TextRun {
        text: "A日本".to_string(),
        font: FontStyle {
            latin: Some("+mn-lt".to_string()),
            east_asian: Some("+mj-ea".to_string()),
            complex_script: None,
        },
        ..Default::default()
    };
    let mut html = String::new();
    HtmlRenderer::render_run_with_defaults(&r, &ctx, Some(&fonts), no_defaults(), &mut coll, &mut html);
    assert!(html.contains("<span class=\"run-segment\" style=\"font-family: 'Calibri'\">A</span>"));
    assert!(html.contains("<span class=\"run-segment\" style=\"font-family: 'Yu Gothic'\">日本</span>"));
    let e = &coll.font_resolution_entries[0];
    assert_eq!(e.requested_typeface.as_deref(), Some("+mj-ea"));
    assert_eq!(e.resolved_typeface.as_deref(), Some("Yu Gothic"));
    assert_eq!(e.source, Some(FontResolutionSource::ExplicitRun));
    assert!(e.fallback_used);
}

#[test]
fn unresolved_theme_font_reference_gives_no_typeface() {
    let scheme = scheme();
    let ctx = ctx(&scheme);
    let mut coll = RenderCollector::default();
    let r = TextRun {
        text: "abc".to_string(),
        font: FontStyle { latin: Some("+mj-lt".to_string()), ..Default::default() },
        ..Default::default()
    };
    let mut html = String::new();
    HtmlRenderer::render_run_with_defaults(&r, &ctx, Some(&FontScheme::default()), no_defaults(), &mut coll, &mut html);
    assert!(html.contains("<span class=\"run-segment\">abc</span>"));
    let e = &coll.font_resolution_entries[0];
    assert_eq!(e.requested_typeface.as_deref(), Some("+mj-lt"));
    assert_eq!(e.resolved_typeface, None);
    assert!(!e.fallback_used);
}

#[test]
fn line_break_run_renders_br_and_records_nothing() {
    let scheme = scheme();
    let ctx = ctx(&scheme);
    let mut coll = RenderCollector::default();
    let mut html = String::new();
    let r = TextRun { is_break: true, text: "ignored".to_string(), ..Default::default() };
    HtmlRenderer::render_run_with_defaults(&r, &ctx, None, no_defaults(), &mut coll, &mut html);
    assert_eq!(html, "<br/>");
    assert!(coll.font_resolution_entries.is_empty());
}

#[test]
fn subscript_font_size_never_drops_below_half() {
    let scheme = scheme();
    let ctx = ctx(&scheme);
    let mut coll = RenderCollector::default();
    let mut html = String::new();
    let r = TextRun {
        text: "2".to_string(),
        style: TextStyle { baseline: Some(-80000), ..Default::default() },
        ..Default::default()
    };
    HtmlRenderer::render_run_with_defaults(&r, &ctx, None, no_defaults(), &mut coll, &mut html);
    assert!(html.contains("vertical-align: -80.0%; font-size: 0.50em"));
}

#[test]
fn column_shares_round_half_to_even() {
    let scheme = scheme();
    let ctx = ctx(&scheme);
    let mut coll = RenderCollector::default();
    let mut widths = vec![1; 16];
    let table = TableData { col_widths: widths, ..Default::default() };
    let mut html = String::new();
    HtmlRenderer::render_table(&table, &ctx, None, &mut coll, &mut html);
    // 1/16 = 6.25% is written as 6.2, like `{:.1}` writes 6.25.
    assert_eq!(html.matches("<col style=\"width:6.2%\"/>").count(), 16);

    let thirds = TableData { col_widths: vec![1, 2], ..Default::default() };
    let mut html = String::new();
    HtmlRenderer::render_table(&thirds, &ctx, None, &mut coll, &mut html);
    assert!(html.contains("<col style=\"width:33.3%\"/>\n<col style=\"width:66.7%\"/>"));

    let empty = TableData { col_widths: vec![0, 0], ..Default::default() };
    let mut html = String::new();
    HtmlRenderer::render_table(&empty, &ctx, None, &mut coll, &mut html);
    assert_eq!(html.matches("<col style=\"width:0.0%\"/>").count(), 2);
}

#[test]
fn paragraph_run_defaults_reach_every_run() {
    let scheme = scheme();
    let ctx = ctx(&scheme);
    let mut coll = RenderCollector::default();
    let p = TextParagraph {
        runs: vec![run("a"), TextRun { style: TextStyle { font_size: Some(1000), ..Default::default() }, ..run("b") }],
        def_rpr: Some(RunDefaults { font_size: Some(2800), font_latin: Some("Para Font".to_string()), ..Default::default() }),
        ..Default::default()
    };
    let mut counters = [0; 9];
    let mut html = String::new();
    HtmlRenderer::render_paragraph(&p, &ctx, None, &mut coll, &mut counters, &mut html);
    assert!(html.contains("<span class=\"run\" style=\"font-size: 28.0pt\"><span class=\"run-segment\" style=\"font-family: 'Para Font'\">a</span></span>"));
    assert!(html.contains("<span class=\"run\" style=\"font-size: 10.0pt\"><span class=\"run-segment\" style=\"font-family: 'Para Font'\">b</span></span>"));
    assert_eq!(coll.font_resolution_entries.len(), 2);
    assert_eq!(coll.font_resolution_entries[1].source, Some(FontResolutionSource::ParagraphDefaults));
}

#[test]
fn numbering_near_the_top_of_i32_renders_when_it_fits() {
    let scheme = scheme();
    let ctx = ctx(&scheme);
    let mut coll = RenderCollector::default();
    let numbered = TextParagraph {
        runs: vec![TextRun { text: "last".to_string(), ..Default::default() }],
        bullet: Some(Bullet::AutoNum(BulletAutoNum {
            num_type: "arabicPeriod".to_string(),
            start_at: Some(i32::MAX - 1),
            font: None,
            size_pct: None,
            color: None,
        })),
        ..Default::default()
    };
    let plain = TextParagraph { runs: vec![TextRun { text: "note".to_string(), ..Default::default() }], ..Default::default() };
    let table = TableData {
        rows: vec![TableRow {
            height: 0,
            cells: vec![TableCell {
                text_body: Some(TextBody { paragraphs: vec![numbered, plain], ..Default::default() }),
                ..Default::default()
            }],
        }],
        col_widths: vec![1],
        ..Default::default()
    };
    let mut html = String::new();
    HtmlRenderer::render_table(&table, &ctx, None, &mut coll, &mut html);
    assert!(html.contains("2147483646."));
    assert!(html.contains("note"));
}
