use pptx2html_core::model::color::{ClrMap, Color, ColorScheme};
use pptx2html_core::geometry::CustomGeomPathSvg;
use pptx2html_core::model::fill::{Border, Fill, GradientFill, GradientStop, GradientType, SolidFill};
use pptx2html_core::model::hierarchy::{Presentation, Slide, Theme};
use pptx2html_core::model::shape::{
    Emu, PathFill, Position, Shape, ShapeType, Size, TextMargins, UnresolvedType, UnsupportedData,
};
use pptx2html_core::renderer::context::{RenderCollector, RenderCtx};
use pptx2html_core::renderer::fill_css::HtmlRenderer;
use pptx2html_core::provenance::{ProvenanceSource, ProvenanceSubject};
use pptx2html_core::renderer::presentation::ConversionOptions;
use pptx2html_core::renderer::shape_html::ShapeDrawing;
use pptx2html_core::renderer::shape_svg::SvgGeometry;

fn plain() -> ShapeDrawing<'static> {
    ShapeDrawing {
        anchor: None,
        theme_effects: None,
        markup: "",
        text_insets: TextMargins::default(),
        children: Vec::new(),
        svg: None,
        custom_paths: Vec::new(),
    }
}

fn slide(hidden: bool, hex: &str) -> Slide {
    Slide {
        hidden,
        shapes: vec![Shape {
            size: Size { width: Emu(95_250), height: Emu(95_250) },
            fill: Fill::Solid(SolidFill { color: Color::rgb(hex) }),
            ..Default::default()
        }],
        ..Default::default()
    }
}

fn presentation() -> Presentation {
    Presentation {
        title: Some("Deck <1>".to_string()),
        slide_size: Size { width: Emu(9_144_000), height: Emu(5_143_500) },
        slides: vec![slide(false, "111111"), slide(true, "222222"), slide(false, "333333")],
        themes: vec![Theme {
            color_scheme: ColorScheme { accent1: "4472C4".to_string(), ..Default::default() },
            ..Default::default()
        }],
        ..Default::default()
    }
}

fn drawings() -> Vec<Vec<ShapeDrawing<'static>>> {
    vec![vec![plain()], vec![plain()], vec![plain()]]
}

#[test]
fn slide_selection_follows_hidden_flag_and_indices() {
    let all = ConversionOptions::default();
    assert!(HtmlRenderer::should_include_slide(&all, 1, false));
    assert!(!HtmlRenderer::should_include_slide(&all, 2, true));
    let hidden_too = ConversionOptions { include_hidden: true, ..ConversionOptions::default() };
    assert!(HtmlRenderer::should_include_slide(&hidden_too, 2, true));
    let picked = ConversionOptions { slide_indices: Some(vec![1, 3]), ..ConversionOptions::default() };
    assert!(HtmlRenderer::should_include_slide(&picked, 3, false));
    assert!(!HtmlRenderer::should_include_slide(&picked, 2, false));
    assert!(!HtmlRenderer::should_include_slide(&picked, 3, true));
    assert_eq!(HtmlRenderer::effective_scale(&all), 10_000);
    assert_eq!(HtmlRenderer::effective_scale(&ConversionOptions { scale: Some(5_000), ..all }), 5_000);
}

#[test]
fn document_holds_the_selected_slides_in_order() {
    let pres = presentation();
    let d = drawings();
    let result = HtmlRenderer::render_with_options_metadata(&pres, &ConversionOptions::default(), &d);
    assert_eq!(result.slide_count, 2);
    let html = &result.html;
    assert!(html.starts_with("<!DOCTYPE html>\n<html lang=\"ko\">\n<head>\n"));
    assert!(html.contains("<title>Deck &lt;1&gt;</title>"));
    assert!(html.contains("<div class=\"pptx-container\">"));
    assert!(html.ends_with("</div>\n</body>\n</html>"));
    let first = html.find("#111111").unwrap();
    let third = html.find("#333333").unwrap();
    assert!(first < third);
    assert!(!html.contains("#222222"));
    assert!(html.contains("data-slide=\"1\""));
    assert!(html.contains("data-slide=\"3\""));
    assert_eq!(result.provenance_entries.len(), 4);

    let with_hidden = ConversionOptions { include_hidden: true, ..ConversionOptions::default() };
    let result = HtmlRenderer::render_with_options_metadata(&pres, &with_hidden, &d);
    assert_eq!(result.slide_count, 3);
    assert!(result.html.contains("#222222"));

    let picked = ConversionOptions { slide_indices: Some(vec![3]), ..ConversionOptions::default() };
    let html = HtmlRenderer::render_with_options(&pres, &picked, &d);
    assert!(!html.contains("#111111"));
    assert!(html.contains("#333333"));
    assert_eq!(HtmlRenderer::render(&pres, &d), HtmlRenderer::render_with_options(&pres, &ConversionOptions::default(), &d));
}

#[test]
fn unresolved_elements_are_collected_per_slide() {
    let mut pres = presentation();
    let odd = Shape {
        shape_type: ShapeType::Unsupported(UnsupportedData {
            label: "SmartArt".to_string(),
            element_type: UnresolvedType::SmartArt,
            raw_xml: None,
        }),
        ..Default::default()
    };
    pres.slides[2].shapes.push(odd);
    let d = vec![vec![plain()], vec![plain()], vec![plain(), plain()]];
    let result = HtmlRenderer::render_with_options_metadata(&pres, &ConversionOptions::default(), &d);
    assert_eq!(result.unresolved_elements.len(), 1);
    assert_eq!(result.unresolved_elements[0].slide_index, 2);
    assert_eq!(result.unresolved_elements[0].placeholder_id, "unresolved-s2-e0");
    assert!(result.html.contains("id=\"unresolved-s2-e0\""));
}

#[test]
fn preset_svg_defines_gradient_and_takes_fresh_ids() {
    let shape = Shape {
        shape_type: ShapeType::Ellipse,
        size: Size { width: Emu(952_500), height: Emu(476_250) },
        fill: Fill::Gradient(GradientFill {
            stops: vec![
                GradientStop { position: 0, color: Color::rgb("FF0000") },
                GradientStop { position: 100_000, color: Color::rgb("0000FF") },
            ],
            angle: 0,
            gradient_type: GradientType::Radial,
        }),
        ..Default::default()
    };
    let ctx = RenderCtx { scheme: None, clr_map: None, embed_images: true };
    let geom = SvgGeometry { d: "M0,25.0 Z", generated: false, gradient_vector: "", tail_marker: "", head_marker: "" };
    let mut coll = RenderCollector::default();
    coll.gradient_counter = 4;
    let mut html = String::new();
    HtmlRenderer::render_shape_svg(&shape, None, None, None, &ctx, None, None, &geom, &mut coll, &mut html);
    assert_eq!(
        html,
        "<svg viewBox=\"0 0 100.0 50.0\" class=\"shape-svg\" preserveAspectRatio=\"none\"><defs>\
         <radialGradient id=\"grad4\" cx=\"50%\" cy=\"50%\" r=\"50%\"><stop offset=\"0%\" stop-color=\"#FF0000\"/>\
         <stop offset=\"100%\" stop-color=\"#0000FF\"/></radialGradient></defs><g><path d=\"M0,25.0 Z\" \
         fill=\"url(#grad4)\" stroke=\"none\" stroke-width=\"0.0\"/></g></svg>\n"
    );
    assert_eq!(coll.gradient_counter, 5);
    assert_eq!(coll.marker_counter, 0);
}

#[test]
fn color_map_set_keeps_each_key_once() {
    let mut map = ClrMap::default();
    map.set("tx1", "dk1");
    map.set("bg1", "lt1");
    map.set("tx1", "dk2");
    assert_eq!(map.entries.len(), 2);
    assert_eq!(map.entries[0], ("tx1".to_string(), "dk2".to_string()));
}

#[test]
fn custom_geometry_paths_share_fill_stroke_and_ids() {
    let shape = Shape {
        shape_type: ShapeType::CustomGeom,
        size: Size { width: Emu(952_500), height: Emu(476_250) },
        fill: Fill::Solid(SolidFill { color: Color::rgb("ABCDEF") }),
        border: Border { width: 12_700, color: Color::rgb("000000"), ..Default::default() },
        ..Default::default()
    };
    let drawing = ShapeDrawing {
        svg: Some(SvgGeometry { d: "", generated: false, gradient_vector: "", tail_marker: "", head_marker: "" }),
        custom_paths: vec![
            CustomGeomPathSvg { d: "M0,0 L10.0,10.0".to_string(), fill: PathFill::Norm, stroke: true },
            CustomGeomPathSvg { d: "M1.0,1.0".to_string(), fill: PathFill::NoFill, stroke: true },
        ],
        ..plain()
    };
    let ctx = RenderCtx { scheme: None, clr_map: None, embed_images: true };
    let mut coll = RenderCollector::default();
    let mut html = String::new();
    HtmlRenderer::render_shape_resolved(&shape, None, None, None, &ctx, None, None, None, &drawing, &mut coll, &mut html);
    assert!(html.contains(
        "<svg viewBox=\"0 0 100.0 50.0\" class=\"shape-svg\" preserveAspectRatio=\"none\"><g>\
         <path d=\"M0,0 L10.0,10.0\" fill=\"#ABCDEF\" stroke=\"#000000\" stroke-width=\"1.3\"/>\
         <path d=\"M1.0,1.0\" fill=\"none\" stroke=\"#000000\" stroke-width=\"1.3\"/></g>\n</svg>\n"
    ));
    assert_eq!(coll.gradient_counter, 1);
}

#[test]
fn unresolved_records_carry_kind_frame_and_raw_xml_of_each_placeholder() {
    let mut pres = presentation();
    let ole = Shape {
        position: Position { x: Emu(12_700), y: Emu(0) },
        size: Size { width: Emu(25_400), height: Emu(38_100) },
        shape_type: ShapeType::Unsupported(UnsupportedData {
            label: "OLE".to_string(),
            element_type: UnresolvedType::OleObject,
            raw_xml: Some("<p:oleObj/>".to_string()),
        }),
        ..Default::default()
    };
    let math = Shape {
        shape_type: ShapeType::Unsupported(UnsupportedData {
            label: "Math".to_string(),
            element_type: UnresolvedType::MathEquation,
            raw_xml: None,
        }),
        ..Default::default()
    };
    pres.slides[0].shapes.push(ole);
    pres.slides[2].shapes.push(math);
    let d = vec![vec![plain(), plain()], vec![plain()], vec![plain(), plain()]];
    let result = HtmlRenderer::render_with_options_metadata(&pres, &ConversionOptions::default(), &d);
    assert_eq!(result.unresolved_elements.len(), 2);
    let first = &result.unresolved_elements[0];
    assert_eq!(first.slide_index, 0);
    assert_eq!(first.placeholder_id, "unresolved-s0-e0");
    assert!(matches!(first.element_type, UnresolvedType::OleObject));
    assert_eq!(first.position, Some(Position { x: Emu(12_700), y: Emu(0) }));
    assert_eq!(first.size, Some(Size { width: Emu(25_400), height: Emu(38_100) }));
    assert_eq!(first.raw_xml.as_deref(), Some("<p:oleObj/>"));
    let second = &result.unresolved_elements[1];
    assert_eq!(second.slide_index, 2);
    assert_eq!(second.placeholder_id, "unresolved-s2-e1");
    assert!(matches!(second.element_type, UnresolvedType::MathEquation));
    assert_eq!(second.position, None);
    assert_eq!(second.size, None);
    assert_eq!(second.raw_xml, None);
    assert!(result.html.contains("id=\"unresolved-s0-e0\" data-type=\"ole\""));
    assert!(result.html.contains("id=\"unresolved-s2-e1\" data-type=\"math\""));
}

#[test]
fn provenance_lists_each_slide_background_then_its_shapes() {
    let mut pres = presentation();
    pres.slides[0].shapes[0].name = "Box".to_string();
    let result = HtmlRenderer::render_with_options_metadata(&pres, &ConversionOptions::default(), &drawings());
    let p = &result.provenance_entries;
    assert_eq!(p.len(), 4);
    assert!(matches!(p[0].subject, ProvenanceSubject::SlideBackground));
    assert_eq!(p[0].slide_index, 1);
    assert!(matches!(p[0].background_source, Some(ProvenanceSource::HardcodedDefault)));
    assert!(matches!(p[1].subject, ProvenanceSubject::Shape));
    assert_eq!(p[1].slide_index, 1);
    assert_eq!(p[1].shape_name.as_deref(), Some("Box"));
    assert!(matches!(p[1].fill_source, Some(ProvenanceSource::Slide)));
    assert!(matches!(p[2].subject, ProvenanceSubject::SlideBackground));
    assert_eq!(p[2].slide_index, 3);
    assert_eq!(p[3].slide_index, 3);
    assert_eq!(p[3].shape_name, None);
}

#[test]
fn converting_twice_gives_the_same_result() {
    let mut pres = presentation();
    pres.slides[2].shapes.push(Shape {
        shape_type: ShapeType::Unsupported(UnsupportedData {
            label: "SmartArt".to_string(),
            element_type: UnresolvedType::SmartArt,
            raw_xml: Some("<dgm/>".to_string()),
        }),
        ..Default::default()
    });
    let d = vec![vec![plain()], vec![plain()], vec![plain(), plain()]];
    let opts = ConversionOptions { embed_images: false, include_hidden: true, ..ConversionOptions::default() };
    let a = HtmlRenderer::render_with_options_metadata(&pres, &opts, &d);
    let b = HtmlRenderer::render_with_options_metadata(&pres, &opts, &d);
    assert_eq!(a.html, b.html);
    assert_eq!(a.external_assets, b.external_assets);
    assert_eq!(a.font_resolution_entries, b.font_resolution_entries);
    assert_eq!(a.provenance_entries, b.provenance_entries);
    assert_eq!(a.unresolved_elements, b.unresolved_elements);
    assert_eq!(a.slide_count, b.slide_count);
}
