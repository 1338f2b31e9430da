use pptx2html_core::model::color::{ClrMap, Color, ColorScheme};
use pptx2html_core::model::hierarchy::{FontRef, FontScheme, ShapeStyleRef, SlideMaster, Theme, TxStyles};
use pptx2html_core::model::text::RunDefaults;
use pptx2html_core::model::shape::{
    AutoFit, ListStyle, ParagraphDefaults, PlaceholderInfo, PlaceholderType, Shape, TextBody, TextMargins, VerticalAlign,
};
use pptx2html_core::provenance::ProvenanceSource;
use pptx2html_core::renderer::context::RenderCtx;
use pptx2html_core::renderer::fill_css::HtmlRenderer;
use pptx2html_core::renderer::text_style::TextStyleCtx;

fn with_body(tb: TextBody) -> Shape {
    Shape { text_body: Some(tb), ..Default::default() }
}

fn level(font_size: i32) -> Option<ParagraphDefaults> {
    Some(ParagraphDefaults {
        def_run_props: Some(RunDefaults { font_size: Some(font_size), ..Default::default() }),
        ..Default::default()
    })
}

#[test]
fn auto_fit_merges_scale_values_of_the_same_mode() {
    let own = TextBody {
        auto_fit: AutoFit::Normal { font_scale: None, line_spacing_reduction: Some(10000) },
        ..Default::default()
    };
    let layout = with_body(TextBody {
        auto_fit: AutoFit::Normal { font_scale: Some(62500), line_spacing_reduction: None },
        ..Default::default()
    });
    let master = with_body(TextBody { auto_fit: AutoFit::Shrink, ..Default::default() });
    assert_eq!(
        HtmlRenderer::resolve_text_auto_fit(&own, Some(&layout), Some(&master)),
        AutoFit::Normal { font_scale: Some(62500), line_spacing_reduction: Some(10000) }
    );
    let unset = TextBody::default();
    assert_eq!(HtmlRenderer::resolve_text_auto_fit(&unset, None, Some(&master)), AutoFit::Shrink);
    assert_eq!(HtmlRenderer::resolve_text_auto_fit(&unset, None, None), AutoFit::NoAutofit);
    let shape_mode = TextBody { auto_fit: AutoFit::Shrink, ..Default::default() };
    assert_eq!(HtmlRenderer::resolve_text_auto_fit(&shape_mode, Some(&layout), None), AutoFit::Shrink);
}

#[test]
fn explicit_flags_decide_along_the_cascade() {
    let own = TextBody { vertical_align: VerticalAlign::Top, word_wrap: true, ..Default::default() };
    let layout = with_body(TextBody {
        vertical_align: VerticalAlign::Middle,
        vertical_align_explicit: true,
        ..Default::default()
    });
    let master = with_body(TextBody {
        vertical_align: VerticalAlign::Bottom,
        vertical_align_explicit: true,
        word_wrap: false,
        word_wrap_explicit: true,
        anchor_center: true,
        text_rotation: 5400000,
        ..Default::default()
    });
    assert_eq!(HtmlRenderer::resolve_text_vertical_align(&own, Some(&layout), Some(&master)), VerticalAlign::Middle);
    assert_eq!(HtmlRenderer::resolve_text_vertical_align(&own, None, Some(&master)), VerticalAlign::Bottom);
    assert_eq!(HtmlRenderer::resolve_text_vertical_align(&own, None, None), VerticalAlign::Top);
    assert!(!HtmlRenderer::resolve_text_word_wrap(&own, Some(&layout), Some(&master)));
    assert!(HtmlRenderer::resolve_text_word_wrap(&own, Some(&layout), None));
    let own_explicit = TextBody { word_wrap: true, word_wrap_explicit: true, ..Default::default() };
    assert!(HtmlRenderer::resolve_text_word_wrap(&own_explicit, None, Some(&master)));
    assert!(HtmlRenderer::resolve_text_anchor_center(&own, Some(&layout), Some(&master)));
    assert!(!HtmlRenderer::resolve_text_anchor_center(&own, Some(&layout), None));
    assert_eq!(HtmlRenderer::resolve_text_rotation(&own, Some(&layout), Some(&master)), 5400000);
    let rotated = TextBody { text_rotation: -5400000, ..Default::default() };
    assert_eq!(HtmlRenderer::resolve_text_rotation(&rotated, Some(&layout), Some(&master)), -5400000);
    assert_eq!(HtmlRenderer::resolve_text_rotation(&own, None, None), 0);
}

#[test]
fn vertical_text_prefers_explicit_values() {
    let shape = Shape { vertical_text: Some("horz".to_string()), ..Default::default() };
    let layout = Shape { vertical_text: Some("vert".to_string()), vertical_text_explicit: true, ..Default::default() };
    let master = Shape { vertical_text: Some("eaVert".to_string()), ..Default::default() };
    assert_eq!(HtmlRenderer::resolve_vertical_text(&shape, Some(&layout), Some(&master)).map(|s| s.as_str()), Some("vert"));
    assert_eq!(HtmlRenderer::resolve_vertical_text(&shape, None, Some(&master)).map(|s| s.as_str()), Some("horz"));
    let bare = Shape::default();
    assert_eq!(HtmlRenderer::resolve_vertical_text(&bare, None, Some(&master)).map(|s| s.as_str()), Some("eaVert"));
    assert_eq!(HtmlRenderer::resolve_vertical_text(&bare, None, None), None);
}

#[test]
fn margins_resolve_side_by_side() {
    let own = TextBody {
        margins: TextMargins { left: 91440, right: 91440, top: 45720, bottom: 45720 },
        margin_left_explicit: true,
        ..Default::default()
    };
    let layout = with_body(TextBody {
        margins: TextMargins { left: 1, right: 2, top: 3, bottom: 4 },
        margin_top_explicit: true,
        ..Default::default()
    });
    let master = with_body(TextBody {
        margins: TextMargins { left: 10, right: 20, top: 30, bottom: 40 },
        margin_right_explicit: true,
        margin_top_explicit: true,
        ..Default::default()
    });
    let m = HtmlRenderer::resolve_text_margins(&own, Some(&layout), Some(&master));
    assert_eq!(m, TextMargins { left: 91440, right: 20, top: 3, bottom: 45720 });
}

#[test]
fn level_defaults_come_from_the_most_specific_style() {
    let mut slide_ls = ListStyle::default();
    slide_ls.levels[0] = level(2000);
    let mut master_ls = ListStyle::default();
    master_ls.levels[0] = level(4400);
    master_ls.levels[1] = level(3200);
    let mut default_ls = ListStyle::default();
    default_ls.levels[2] = level(1800);
    let ctx = TextStyleCtx {
        slide_list_style: Some(&slide_ls),
        master_list_style: Some(&master_ls),
        default_list_style: Some(&default_ls),
        ..Default::default()
    };
    assert_eq!(ctx.get_level_defaults(0).and_then(|p| p.def_run_props.as_ref()).and_then(|d| d.font_size), Some(2000));
    assert_eq!(ctx.get_level_defaults(1).and_then(|p| p.def_run_props.as_ref()).and_then(|d| d.font_size), Some(3200));
    assert_eq!(ctx.get_level_defaults(2).and_then(|p| p.def_run_props.as_ref()).and_then(|d| d.font_size), Some(1800));
    assert!(ctx.get_level_defaults(3).is_none());
    assert!(ctx.get_level_defaults(9).is_none());
    assert_eq!(ctx.primary_source(), Some(ProvenanceSource::SlideListStyle));
    let master_only = TextStyleCtx { master_list_style: Some(&master_ls), ..Default::default() };
    assert_eq!(master_only.primary_source(), Some(ProvenanceSource::MasterTextStyles));
    assert_eq!(TextStyleCtx::default().primary_source(), None);
}

#[test]
fn text_style_ctx_picks_master_style_by_placeholder_type() {
    let mut title = ListStyle::default();
    title.levels[0] = level(4400);
    let mut body = ListStyle::default();
    body.levels[0] = level(2800);
    let master = SlideMaster {
        tx_styles: TxStyles { title_style: Some(title), body_style: Some(body), other_style: None },
        ..Default::default()
    };
    let title_shape = Shape {
        placeholder: Some(PlaceholderInfo { ph_type: Some(PlaceholderType::CtrTitle), idx: None }),
        ..Default::default()
    };
    let ctx = HtmlRenderer::build_text_style_ctx(&title_shape, None, None, Some(&master), None);
    assert_eq!(ctx.get_level_defaults(0).and_then(|p| p.def_run_props.as_ref()).and_then(|d| d.font_size), Some(4400));
    let body_shape = Shape {
        placeholder: Some(PlaceholderInfo { ph_type: Some(PlaceholderType::Body), idx: Some(1) }),
        ..Default::default()
    };
    let ctx = HtmlRenderer::build_text_style_ctx(&body_shape, None, None, Some(&master), None);
    assert_eq!(ctx.get_level_defaults(0).and_then(|p| p.def_run_props.as_ref()).and_then(|d| d.font_size), Some(2800));
    assert_eq!(ctx.primary_source(), Some(ProvenanceSource::MasterTextStyles));
    let plain = Shape::default();
    let ctx = HtmlRenderer::build_text_style_ctx(&plain, None, None, Some(&master), None);
    assert!(ctx.master_list_style.is_none());
}

#[test]
fn font_ref_font_needs_theme_and_colors() {
    let theme = Theme {
        font_scheme: FontScheme { major_latin: "Aptos Display".to_string(), minor_latin: "Aptos".to_string(), ..Default::default() },
        ..Default::default()
    };
    let cs = ColorScheme { lt1: "FFFFFF".to_string(), ..Default::default() };
    let mut cm = ClrMap::default();
    cm.set("bg1", "lt1");
    let shape = Shape {
        style_ref: Some(ShapeStyleRef {
            font_ref: Some(FontRef { idx: "minor".to_string(), color: Color::theme("bg1") }),
            ..Default::default()
        }),
        ..Default::default()
    };
    let ctx = RenderCtx { scheme: Some(&cs), clr_map: Some(&cm), embed_images: true };
    let (font, color) = HtmlRenderer::resolve_font_ref_font(&shape, Some(&theme), &ctx).unwrap();
    assert_eq!(font, "Aptos");
    assert_eq!(color.map(|c| c.hex), Some("FFFFFF".to_string()));
    let no_map = RenderCtx { scheme: Some(&cs), clr_map: None, embed_images: true };
    assert!(HtmlRenderer::resolve_font_ref_font(&shape, Some(&theme), &no_map).is_none());
    assert!(HtmlRenderer::resolve_font_ref_font(&shape, None, &ctx).is_none());
    assert!(HtmlRenderer::resolve_font_ref_font(&Shape::default(), Some(&theme), &ctx).is_none());
}
