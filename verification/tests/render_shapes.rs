use pptx2html_core::model::color::{ClrMap, Color, ColorScheme};
use pptx2html_core::model::fill::{Border, BorderStyle, Fill, LineEnd, LineEndSize, LineEndType, SolidFill};
use pptx2html_core::model::hierarchy::{Slide, SlideLayout, SlideMaster, Theme};
use pptx2html_core::model::shape::{
    ChartData, CropRect, Emu, Glow, GroupData, OuterShadow, PictureData, PlaceholderInfo, Position, Shape,
    ShapeEffects, ShapeType, Size, TextMargins, UnresolvedType, UnsupportedData,
};
use pptx2html_core::renderer::context::{RenderCollector, RenderCtx};
use pptx2html_core::renderer::fill_css::HtmlRenderer;
use pptx2html_core::renderer::shape_html::ShapeDrawing;
use pptx2html_core::renderer::shape_svg::SvgGeometry;

fn theme() -> Theme {
    Theme {
        color_scheme: ColorScheme {
            accent1: "4472C4".to_string(),
            accent2: "ED7D31".to_string(),
            ..Default::default()
        },
        ..Default::default()
    }
}

fn drawing<'a>(markup: &'a str, theme_effects: Option<&'a ShapeEffects>) -> ShapeDrawing<'a> {
    ShapeDrawing {
        anchor: None,
        theme_effects,
        markup,
        text_insets: TextMargins::default(),
        children: Vec::new(),
        svg: None,
        custom_paths: Vec::new(),
    }
}

fn path(d: &str) -> Option<SvgGeometry<'_>> {
    Some(SvgGeometry { d, generated: false, gradient_vector: "", tail_marker: "", head_marker: "" })
}

/// The effects the theme's second effect style gives: an outer shadow of 3pt at 45 degrees
/// with a 2pt blur in accent 1, and a 1.5pt glow.
fn effect_style() -> ShapeEffects {
    ShapeEffects {
        outer_shadow: Some(OuterShadow {
            blur_radius: 25_400,
            offset_x: 26_941,
            offset_y: 26_941,
            color: Color::theme("accent1"),
        }),
        glow: Some(Glow { radius: 19_050, color: Color::rgb("ABCDEF") }),
    }
}

#[test]
fn render_slide_covers_hidden_shapes_rotation_min_line_size_crop_and_unresolved_custom_geometry() {
    let themes = vec![theme()];
    let masters = vec![SlideMaster {
        theme_idx: 0,
        shapes: vec![
            Shape { name: "hidden-master".to_string(), hidden: true, ..Default::default() },
            Shape {
                name: "placeholder-master".to_string(),
                placeholder: Some(PlaceholderInfo::default()),
                ..Default::default()
            },
        ],
        ..Default::default()
    }];
    let layouts = vec![SlideLayout { master_idx: 0, show_master_sp: true, ..Default::default() }];
    let group_child = Shape {
        name: "group-child".to_string(),
        shape_type: ShapeType::Rectangle,
        size: Size { width: Emu(457_200), height: Emu(228_600) },
        fill: Fill::Solid(SolidFill { color: Color::rgb("00FF00") }),
        ..Default::default()
    };
    let slide = Slide {
        layout_idx: Some(0),
        show_master_sp: true,
        shapes: vec![
            Shape { name: "hidden-slide".to_string(), hidden: true, ..Default::default() },
            Shape {
                name: "rotated-rect".to_string(),
                shape_type: ShapeType::Rectangle,
                size: Size { width: Emu(457_200), height: Emu(228_600) },
                rotation: 1_800_000,
                fill: Fill::Solid(SolidFill { color: Color::rgb("CCCCCC") }),
                ..Default::default()
            },
            Shape {
                name: "rotated-line".to_string(),
                shape_type: ShapeType::Custom("line".to_string()),
                position: Position { x: Emu(9_144), y: Emu(18_288) },
                size: Size { width: Emu(0), height: Emu(914_400) },
                rotation: 1_800_000,
                border: Border {
                    width: 12_700,
                    color: Color::rgb("112233"),
                    style: BorderStyle::Solid,
                    ..Default::default()
                },
                ..Default::default()
            },
            Shape {
                name: "cropped-picture".to_string(),
                shape_type: ShapeType::Picture(PictureData {
                    rel_id: "rId1".to_string(),
                    content_type: "image/png".to_string(),
                    data: vec![1, 2, 3, 4],
                    crop: Some(CropRect { left: 10_000, top: 0, right: 10_000, bottom: 0 }),
                }),
                position: Position { x: Emu(0), y: Emu(0) },
                size: Size { width: Emu(914_400), height: Emu(457_200) },
                ..Default::default()
            },
            Shape {
                name: "group".to_string(),
                shape_type: ShapeType::Group(vec![group_child], GroupData::default()),
                size: Size { width: Emu(914_400), height: Emu(457_200) },
                ..Default::default()
            },
            Shape {
                name: "custom-geometry-placeholder".to_string(),
                shape_type: ShapeType::Unsupported(UnsupportedData {
                    label: "Custom Geometry".to_string(),
                    element_type: UnresolvedType::CustomGeometry,
                    raw_xml: Some("<custGeom/>".to_string()),
                }),
                ..Default::default()
            },
        ],
        ..Default::default()
    };
    let ctx = RenderCtx { scheme: Some(&themes[0].color_scheme), clr_map: None, embed_images: true };
    let mut coll = RenderCollector::default();

    // Each planned shape has its drawing; the group's holds those of its children.
    let plan = HtmlRenderer::slide_shapes_to_render(&slide, &layouts, &masters);
    assert_eq!(plan.len(), 5);
    let drawings: Vec<ShapeDrawing> = plan
        .iter()
        .map(|p| {
            if p.shape.name == "group" {
                ShapeDrawing { children: vec![drawing("", None)], ..drawing("", None) }
            } else {
                drawing("", None)
            }
        })
        .collect();

    let mut html = String::new();
    HtmlRenderer::render_slide(
        &slide, 1, 9_144_000, 5_143_500, 10_000, &layouts, &masters, &themes, &ctx, Some(&themes[0]),
        Some(&masters[0]), None, &drawings, &mut coll, &mut html,
    );

    assert!(html.contains("transform: rotate(30.0deg)"));
    assert!(html.contains("width: 2px"));
    assert!(html.contains("overflow: hidden"));
    assert!(html.contains("data-type=\"custom-geometry\""));
    assert!(html.contains("background-color: #00FF00"));
    assert!(!html.contains("hidden-master"));
    assert!(!html.contains("hidden-slide"));
    assert!(html.ends_with("</div>\n</div>\n"));
    assert!(coll
        .elements
        .iter()
        .any(|elem| matches!(elem.element_type, UnresolvedType::CustomGeometry)));
}

#[test]
fn render_shape_resolved_covers_outline_none_and_effect_ref_fallback() {
    let themes = vec![theme()];
    let clr_map = ClrMap::default();
    let shape = Shape {
        name: "outlined-rect".to_string(),
        shape_type: ShapeType::Rectangle,
        size: Size { width: Emu(914_400), height: Emu(457_200) },
        border: Border { width: 12_700, style: BorderStyle::NoLine, ..Default::default() },
        ..Default::default()
    };
    let ctx = RenderCtx { scheme: Some(&themes[0].color_scheme), clr_map: Some(&clr_map), embed_images: true };
    let effects = effect_style();
    let mut coll = RenderCollector::default();
    let mut html = String::new();
    HtmlRenderer::render_shape_resolved(
        &shape, None, None, None, &ctx, Some(&themes[0]), None, None, &drawing("", Some(&effects)),
        &mut coll, &mut html,
    );
    assert!(html.contains("outline: 1.0pt none"));
    assert!(html.contains("box-shadow:"));
}

#[test]
fn render_shape_resolved_routes_svg_effects_to_filter_instead_of_box_shadow() {
    let themes = vec![theme()];
    let clr_map = ClrMap::default();
    let shape = Shape {
        name: "arrow-with-effect-ref".to_string(),
        shape_type: ShapeType::Custom("rightArrow".to_string()),
        size: Size { width: Emu(914_400), height: Emu(457_200) },
        fill: Fill::Solid(SolidFill { color: Color::rgb("336699") }),
        effects: effect_style(),
        ..Default::default()
    };
    let ctx = RenderCtx { scheme: Some(&themes[0].color_scheme), clr_map: Some(&clr_map), embed_images: true };
    let arrow = ShapeDrawing { svg: path("M0,0 L96.0,24.0 L0,48.0 Z"), ..drawing("", None) };
    let mut coll = RenderCollector::default();
    let mut html = String::new();
    HtmlRenderer::render_shape_resolved(
        &shape, None, None, None, &ctx, Some(&themes[0]), None, None, &arrow, &mut coll, &mut html,
    );
    assert!(html.contains("filter: drop-shadow("));
    assert!(!html.contains("box-shadow:"));
}

#[test]
fn render_shape_resolved_skips_style_ref_effect_fallback_for_svg_shapes() {
    let themes = vec![theme()];
    let clr_map = ClrMap::default();
    let shape = Shape {
        name: "arrow-style-ref-only".to_string(),
        shape_type: ShapeType::Custom("rightArrow".to_string()),
        size: Size { width: Emu(914_400), height: Emu(457_200) },
        fill: Fill::Solid(SolidFill { color: Color::rgb("336699") }),
        ..Default::default()
    };
    let ctx = RenderCtx { scheme: Some(&themes[0].color_scheme), clr_map: Some(&clr_map), embed_images: true };
    let effects = effect_style();
    let arrow = ShapeDrawing { svg: path("M0,0 L96.0,24.0 L0,48.0 Z"), ..drawing("", Some(&effects)) };
    let mut coll = RenderCollector::default();
    let mut html = String::new();
    HtmlRenderer::render_shape_resolved(
        &shape, None, None, None, &ctx, Some(&themes[0]), None, None, &arrow, &mut coll, &mut html,
    );
    assert!(html.contains("<path d=\"M0,0 L96.0,24.0 L0,48.0 Z\" fill=\"#336699\" stroke=\"none\""));
    assert!(!html.contains("filter: drop-shadow("));
    assert!(!html.contains("box-shadow:"));
}

#[test]
fn render_line_shape_places_tail_marker_at_start_and_head_marker_at_end() {
    let themes = vec![theme()];
    let ctx = RenderCtx { scheme: Some(&themes[0].color_scheme), clr_map: None, embed_images: true };
    let shape = Shape {
        shape_type: ShapeType::Custom("line".to_string()),
        size: Size { width: Emu(914_400), height: Emu(457_200) },
        border: Border {
            width: 12_700,
            color: Color::rgb("112233"),
            head_end: Some(LineEnd { end_type: LineEndType::Triangle, width: LineEndSize::Large, length: LineEndSize::Small }),
            tail_end: Some(LineEnd { end_type: LineEndType::Diamond, width: LineEndSize::Small, length: LineEndSize::Large }),
            ..Default::default()
        },
        ..Default::default()
    };
    let line = ShapeDrawing {
        svg: Some(SvgGeometry {
            d: "M0,0 L96.0,48.0",
            generated: false,
            gradient_vector: "",
            tail_marker: " viewBox=\"0 0 6.0 2.0\"><path d=\"M0,1.0 Z\"/></marker>",
            head_marker: " viewBox=\"0 0 2.0 6.0\"><path d=\"M0,0 Z\"/></marker>",
        }),
        ..drawing("", None)
    };
    let mut coll = RenderCollector::default();
    let mut html = String::new();
    HtmlRenderer::render_shape_resolved(
        &shape, None, None, None, &ctx, Some(&themes[0]), None, None, &line, &mut coll, &mut html,
    );
    assert!(html.contains("marker-start=\"url(#marker-tail-0)\""));
    assert!(html.contains("marker-end=\"url(#marker-head-1)\""));
    assert!(html.contains("marker id=\"marker-tail-0\""));
    assert!(html.contains("marker id=\"marker-head-1\""));
    assert_eq!(coll.marker_counter, 2);
    assert_eq!(coll.gradient_counter, 1);
}

#[test]
fn render_line_inverse_boosts_default_stroke_width_for_reference_fidelity() {
    let themes = vec![theme()];
    let ctx = RenderCtx { scheme: Some(&themes[0].color_scheme), clr_map: None, embed_images: true };
    let shape = Shape {
        shape_type: ShapeType::Custom("lineInv".to_string()),
        size: Size { width: Emu(1_051_560), height: Emu(1_691_640) },
        border: Border { width: 19_050, color: Color::rgb("202020"), ..Default::default() },
        fill: Fill::NoFill,
        ..Default::default()
    };
    let line = ShapeDrawing { svg: path("M0,177.6 L110.4,0"), ..drawing("", None) };
    let mut coll = RenderCollector::default();
    let mut html = String::new();
    HtmlRenderer::render_shape_resolved(
        &shape, None, None, None, &ctx, Some(&themes[0]), None, None, &line, &mut coll, &mut html,
    );
    assert!(html.contains("d=\"M0,177.6 L110.4,0\""));
    assert!(html.contains("stroke-width=\"3.2\""));
}

fn chart_shape(preview_image: Option<Vec<u8>>, preview_mime: Option<String>) -> Shape {
    Shape {
        name: "chart".to_string(),
        shape_type: ShapeType::Chart(ChartData { preview_image, preview_mime }),
        size: Size { width: Emu(914_400), height: Emu(457_200) },
        ..Default::default()
    }
}

fn render_chart(shape: &Shape, markup: &str, embed_images: bool) -> (String, RenderCollector) {
    let themes = vec![theme()];
    let clr_map = ClrMap::default();
    let ctx = RenderCtx { scheme: Some(&themes[0].color_scheme), clr_map: Some(&clr_map), embed_images };
    let mut coll = RenderCollector::default();
    let mut html = String::new();
    HtmlRenderer::render_shape_resolved(
        shape, None, None, None, &ctx, Some(&themes[0]), None, None, &drawing(markup, None), &mut coll,
        &mut html,
    );
    (html, coll)
}

#[test]
fn chart_preview_is_embedded_as_data_url() {
    let shape = chart_shape(Some(vec![1, 2, 3]), None);
    let (html, coll) = render_chart(&shape, "", true);
    assert!(html.ends_with(
        "<img class=\"shape-image\" src=\"data:image/png;base64,AQID\" alt=\"Chart\">\n</div>\n"
    ));
    assert!(coll.external_assets.is_empty());
}

#[test]
fn chart_preview_is_exported_when_images_are_not_embedded() {
    let shape = chart_shape(Some(vec![9, 8]), Some("image/jpeg".to_string()));
    let (html, coll) = render_chart(&shape, "", false);
    assert!(html.contains("<img class=\"shape-image\" src=\"images/slide-1/chart-0.jpg\" alt=\"Chart\">\n"));
    assert_eq!(coll.external_assets.len(), 1);
    assert_eq!(coll.external_assets[0].relative_path, "images/slide-1/chart-0.jpg");
    assert_eq!(coll.external_assets[0].content_type, "image/jpeg");
    assert_eq!(coll.external_assets[0].data, vec![9, 8]);
    assert_eq!(coll.asset_counter, 1);
}

#[test]
fn chart_without_preview_renders_placeholder() {
    for preview in [None, Some(Vec::new())] {
        let shape = chart_shape(preview, None);
        let (html, coll) = render_chart(&shape, "", false);
        assert!(html.contains("<div class=\"chart-placeholder\"><svg width=\"24\""));
        assert!(html.contains("<span style=\"margin-left:8px\">Chart</span></div>\n</div>\n"));
        assert!(!html.contains("shape-image"));
        assert!(coll.external_assets.is_empty());
    }
}

#[test]
fn chart_drawn_directly_uses_its_markup() {
    let shape = chart_shape(Some(vec![1, 2, 3]), None);
    let markup = "<div class=\"chart-direct\"></div>\n</div>\n";
    let (html, coll) = render_chart(&shape, markup, false);
    assert!(html.ends_with(markup));
    assert!(!html.contains("shape-image"));
    assert!(!html.contains("chart-placeholder"));
    assert!(coll.external_assets.is_empty());
}
