use pptx2html_core::model::color::Color;
use pptx2html_core::model::fill::{Border, BorderStyle, Fill, SolidFill};
use pptx2html_core::model::shape::{
    AutoFit, CropRect, Emu, PictureData, PlaceholderInfo, Position, Shape, ShapeEffects, ShapeType,
    Size, TextBody, TextMargins, UnresolvedType, UnsupportedData, VerticalAlign, Glow,
};
use pptx2html_core::model::shape::{GroupData, ListStyle, ParagraphDefaults};
use pptx2html_core::model::text::{RunDefaults, TextParagraph, TextRun};
use pptx2html_core::provenance::{ProvenanceSource, ProvenanceSubject};
use pptx2html_core::renderer::shape_html::ShapeDrawing;
use pptx2html_core::renderer::shape_svg::SvgGeometry;
use pptx2html_core::renderer::context::{RenderCollector, RenderCtx};
use pptx2html_core::renderer::fill_css::HtmlRenderer;
use pptx2html_core::renderer::text_style::TextStyleCtx;

fn ctx() -> RenderCtx<'static> {
    RenderCtx { scheme: None, clr_map: None, embed_images: true }
}

fn frame(x: i64, y: i64, w: i64, h: i64) -> (Position, Size) {
    (Position { x: Emu(x), y: Emu(y) }, Size { width: Emu(w), height: Emu(h) })
}

fn box_style(shape: &Shape) -> String {
    let geometry = HtmlRenderer::effective_geometry(shape, None, None);
    let preset = HtmlRenderer::svg_preset_name(geometry.shape_type);
    HtmlRenderer::shape_box_style(&shape.position, &shape.size, None, &geometry, preset)
}

#[test]
fn shape_kinds_compare_variant_and_preset_name() {
    let a = ShapeType::Custom("star5".to_string());
    let b = ShapeType::Custom("star5".to_string());
    let c = ShapeType::Custom("star6".to_string());
    assert!(HtmlRenderer::same_shape_kind(&a, &b));
    assert!(!HtmlRenderer::same_shape_kind(&a, &c));
    assert!(HtmlRenderer::same_shape_kind(&ShapeType::Rectangle, &ShapeType::Rectangle));
    assert!(!HtmlRenderer::same_shape_kind(&ShapeType::Rectangle, &ShapeType::TextBox));
    assert!(!HtmlRenderer::same_shape_kind(&ShapeType::Ellipse, &a));
}

#[test]
fn geometry_source_is_first_placeholder_match_with_geometry() {
    let plain = Shape { placeholder: Some(PlaceholderInfo::default()), ..Default::default() };
    let layout = Shape { shape_type: ShapeType::Rectangle, ..Default::default() };
    let master = Shape { shape_type: ShapeType::Ellipse, ..Default::default() };
    let src = HtmlRenderer::inherited_geometry_source(&plain, Some(&layout), Some(&master));
    assert_eq!(src.map(|s| &s.shape_type), Some(&ShapeType::Ellipse));

    let rotated_layout = Shape { rotation: 5_400_000, ..Default::default() };
    let src = HtmlRenderer::inherited_geometry_source(&plain, Some(&rotated_layout), Some(&master));
    assert_eq!(src.map(|s| s.rotation), Some(5_400_000));

    let not_placeholder = Shape::default();
    assert!(HtmlRenderer::inherited_geometry_source(&not_placeholder, Some(&layout), Some(&master)).is_none());
}

#[test]
fn text_box_placeholder_takes_layout_geometry() {
    let shape = Shape {
        shape_type: ShapeType::TextBox,
        placeholder: Some(PlaceholderInfo::default()),
        ..Default::default()
    };
    let layout = Shape {
        shape_type: ShapeType::Custom("roundRect".to_string()),
        adjust_values: Some(vec![("adj".to_string(), 25_000)]),
        rotation: 1_800_000,
        flip_h: true,
        ..Default::default()
    };
    let g = HtmlRenderer::effective_geometry(&shape, Some(&layout), None);
    assert_eq!(g.shape_type, &ShapeType::Custom("roundRect".to_string()));
    assert_eq!(g.adjust_values, Some(&vec![("adj".to_string(), 25_000)]));
    assert_eq!(g.rotation, 1_800_000);
    assert!(g.flip_h);
    assert!(!g.flip_v);

    // A rectangle placeholder over an ellipse keeps its own kind and rotation.
    let rect = Shape {
        placeholder: Some(PlaceholderInfo::default()),
        rotation: 600_000,
        ..Default::default()
    };
    let ellipse = Shape { shape_type: ShapeType::Ellipse, rotation: 1_200_000, ..Default::default() };
    let g = HtmlRenderer::effective_geometry(&rect, Some(&ellipse), None);
    assert_eq!(g.shape_type, &ShapeType::Rectangle);
    assert_eq!(g.rotation, 600_000);
}

#[test]
fn box_style_places_rotates_and_flips() {
    let (position, size) = frame(0, 0, 457_200, 228_600);
    let rect = Shape { position, size, rotation: 1_800_000, ..Default::default() };
    assert_eq!(
        box_style(&rect),
        "left: 0.0px; top: 0.0px; width: 48.0px; height: 24.0px; transform: rotate(30.0deg)"
    );
    let flipped = Shape { position, size, rotation: 2_700_000, flip_h: true, ..Default::default() };
    assert_eq!(
        box_style(&flipped),
        "left: 0.0px; top: 0.0px; width: 48.0px; height: 24.0px; transform: scale(-1,1) rotate(45.0deg)"
    );
    let flip_only = Shape { position, size, flip_v: true, ..Default::default() };
    assert!(box_style(&flip_only).ends_with("; transform: scale(1,-1)"));
    let plain = Shape { position, size, ..Default::default() };
    assert_eq!(box_style(&plain), "left: 0.0px; top: 0.0px; width: 48.0px; height: 24.0px");
}

#[test]
fn zero_width_line_gets_two_pixels() {
    let (position, size) = frame(9_144, 18_288, 0, 914_400);
    let line = Shape {
        shape_type: ShapeType::Custom("line".to_string()),
        position,
        size,
        rotation: 1_800_000,
        ..Default::default()
    };
    assert_eq!(box_style(&line), "left: -0.0px; top: 1.9px; width: 2px; height: 96.0px");

    let (position, size) = frame(95_250, 95_250, 952_500, 0);
    let flat = Shape { shape_type: ShapeType::Custom("straightConnector1".to_string()), position, size, ..Default::default() };
    assert_eq!(box_style(&flat), "left: 10.0px; top: 9.0px; width: 100.0px; height: 2px");
}

#[test]
fn turned_connector_swaps_its_box() {
    let (position, size) = frame(0, 0, 952_500, 95_250);
    let connector = Shape {
        shape_type: ShapeType::Custom("straightConnector1".to_string()),
        position,
        size,
        rotation: 5_400_000,
        ..Default::default()
    };
    assert!(HtmlRenderer::connector_needs_swap(Some("straightConnector1"), 5_400_000));
    assert!(HtmlRenderer::connector_needs_swap(Some("bentConnector3"), 16_200_000 + 59_999));
    assert!(!HtmlRenderer::connector_needs_swap(Some("bentConnector3"), 16_200_000 + 60_000));
    assert!(!HtmlRenderer::connector_needs_swap(Some("rect"), 5_400_000));
    assert!(!HtmlRenderer::connector_needs_swap(None, 5_400_000));
    assert_eq!(box_style(&connector), "left: 45.0px; top: -45.0px; width: 10.0px; height: 100.0px");
}

#[test]
fn anchored_connector_spans_its_end_points() {
    let connector = Shape { shape_type: ShapeType::Custom("straightConnector1".to_string()), ..Default::default() };
    let geometry = HtmlRenderer::effective_geometry(&connector, None, None);
    let preset = HtmlRenderer::svg_preset_name(geometry.shape_type);
    let style = HtmlRenderer::shape_box_style(
        &connector.position,
        &connector.size,
        Some((952_500, 190_500, 95_250, 952_500)),
        &geometry,
        preset,
    );
    assert_eq!(style, "left: 10.0px; top: 20.0px; width: 90.0px; height: 80.0px");
}

#[test]
fn svg_preset_names_and_line_presets() {
    assert_eq!(HtmlRenderer::svg_preset_name(&ShapeType::Ellipse), Some("ellipse"));
    assert_eq!(HtmlRenderer::svg_preset_name(&ShapeType::RoundedRectangle), Some("roundRect"));
    assert_eq!(HtmlRenderer::svg_preset_name(&ShapeType::Triangle), Some("triangle"));
    assert_eq!(HtmlRenderer::svg_preset_name(&ShapeType::Custom("heart".to_string())), Some("heart"));
    assert_eq!(HtmlRenderer::svg_preset_name(&ShapeType::Rectangle), None);
    assert!(HtmlRenderer::is_line_preset("curvedConnector5"));
    assert!(HtmlRenderer::is_line_preset("lineInv"));
    assert!(!HtmlRenderer::is_line_preset("rect"));
}

#[test]
fn shape_style_adds_fill_outline_shadow_and_clip() {
    let (position, size) = frame(0, 0, 952_500, 476_250);
    let shape = Shape {
        position,
        size,
        fill: Fill::Solid(SolidFill { color: Color::rgb("FF0000") }),
        border: Border {
            width: 12_700,
            color: Color::rgb("000000"),
            style: BorderStyle::Dashed,
            ..Default::default()
        },
        effects: ShapeEffects {
            outer_shadow: None,
            glow: Some(Glow { radius: 63_500, color: Color::rgb("00FF00") }),
        },
        ..Default::default()
    };
    let mut coll = RenderCollector::default();
    let style = HtmlRenderer::shape_style(&shape, None, None, None, &ctx(), None, None, None, &mut coll);
    assert_eq!(
        style,
        "left: 0.0px; top: 0.0px; width: 100.0px; height: 50.0px; background-color: #FF0000; \
         outline: 1.0pt dashed #000000; outline-offset: -0.5pt; box-shadow: 0 0 5.0pt 5.0pt #00FF00"
    );

    // An SVG shape keeps fill, outline and shadow off its box.
    let ellipse = Shape { shape_type: ShapeType::Ellipse, ..shape };
    let style = HtmlRenderer::shape_style(&ellipse, None, None, None, &ctx(), None, None, None, &mut coll);
    assert_eq!(style, "left: 0.0px; top: 0.0px; width: 100.0px; height: 50.0px");

    let picture = Shape {
        shape_type: ShapeType::Picture(PictureData {
            crop: Some(CropRect { left: 10_000, ..Default::default() }),
            ..Default::default()
        }),
        position,
        size,
        ..Default::default()
    };
    let style = HtmlRenderer::shape_style(&picture, None, None, None, &ctx(), None, None, None, &mut coll);
    assert_eq!(style, "left: 0.0px; top: 0.0px; width: 100.0px; height: 50.0px; overflow: hidden");
}

#[test]
fn theme_effects_apply_only_without_own_effects() {
    let theme = ShapeEffects { outer_shadow: None, glow: Some(Glow { radius: 12_700, color: Color::rgb("123456") }) };
    let plain = Shape::default();
    assert_eq!(HtmlRenderer::resolve_shape_effects(&plain, Some(&theme)), Some(theme.clone()));
    assert_eq!(HtmlRenderer::resolve_shape_effects(&plain, None), None);
    let own = ShapeEffects { outer_shadow: None, glow: Some(Glow { radius: 25_400, color: Color::rgb("ABCDEF") }) };
    let styled = Shape { effects: own.clone(), ..Default::default() };
    assert_eq!(HtmlRenderer::resolve_shape_effects(&styled, Some(&theme)), Some(own));
}

#[test]
fn unsupported_content_becomes_a_numbered_placeholder() {
    let data = UnsupportedData {
        label: "Diagram <1>".to_string(),
        element_type: UnresolvedType::SmartArt,
        raw_xml: Some("<dgm/>".to_string()),
    };
    let mut coll = RenderCollector::default();
    coll.current_slide_index = 2;
    coll.counter = 4;
    let mut html = String::new();
    let (position, size) = frame(12_700, 0, 0, 0);
    HtmlRenderer::render_unsupported(&data, &position, &size, &mut coll, &mut html);
    assert_eq!(
        html,
        "<div class=\"unresolved-element\" id=\"unresolved-s2-e4\" data-type=\"smartart\" data-slide=\"2\"><span>[Diagram &lt;1&gt;]</span></div>\n"
    );
    assert_eq!(coll.counter, 5);
    assert_eq!(coll.elements.len(), 1);
    let e = &coll.elements[0];
    assert_eq!(e.slide_index, 2);
    assert_eq!(e.element_type, UnresolvedType::SmartArt);
    assert_eq!(e.placeholder_id, "unresolved-s2-e4");
    assert_eq!(e.position, Some(position));
    assert_eq!(e.size, None);
    assert_eq!(e.raw_xml.as_deref(), Some("<dgm/>"));

    let geometry = UnsupportedData {
        label: "Custom Geometry".to_string(),
        element_type: UnresolvedType::CustomGeometry,
        raw_xml: None,
    };
    let mut html = String::new();
    HtmlRenderer::render_unsupported(&geometry, &Position::default(), &Size::default(), &mut coll, &mut html);
    assert!(html.contains("id=\"unresolved-s2-e5\" data-type=\"custom-geometry\""));
    assert_eq!(coll.elements[1].position, None);
}

#[test]
fn cropped_picture_scales_and_shifts_the_image() {
    let pic = PictureData {
        rel_id: "rId1".to_string(),
        content_type: "image/png".to_string(),
        data: vec![1, 2, 3, 4],
        crop: Some(CropRect { left: 10_000, top: 0, right: 10_000, bottom: 0 }),
    };
    let mut coll = RenderCollector::default();
    let mut html = String::new();
    HtmlRenderer::render_picture(&pic, 914_400, 457_200, &ctx(), &mut coll, &mut html);
    assert_eq!(
        html,
        "<img class=\"shape-image\" src=\"data:image/png;base64,AQIDBA==\" alt=\"\" style=\"object-fit: fill; \
         width: 125.00%; height: 100.00%; margin-left: -12.00px; margin-top: -0.00px\">\n"
    );

    let uncropped = PictureData { crop: None, content_type: String::new(), ..pic.clone() };
    let external = RenderCtx { scheme: None, clr_map: None, embed_images: false };
    let mut html = String::new();
    HtmlRenderer::render_picture(&uncropped, 914_400, 457_200, &external, &mut coll, &mut html);
    assert_eq!(html, "<img class=\"shape-image\" src=\"images/slide-1/image-0.png\" alt=\"\">\n");
    assert_eq!(coll.external_assets.len(), 1);
    assert_eq!(coll.external_assets[0].content_type, "image/png");

    let degenerate = PictureData { crop: Some(CropRect { left: 50_000, right: 50_000, ..Default::default() }), ..pic.clone() };
    let mut html = String::new();
    HtmlRenderer::render_picture(&degenerate, 914_400, 457_200, &ctx(), &mut coll, &mut html);
    assert_eq!(html, "<img class=\"shape-image\" src=\"data:image/png;base64,AQIDBA==\" alt=\"\">\n");

    let empty = PictureData::default();
    let mut html = String::new();
    HtmlRenderer::render_picture(&empty, 914_400, 457_200, &ctx(), &mut coll, &mut html);
    assert_eq!(html, "");
}

fn run(text: &str) -> TextRun {
    TextRun { text: text.to_string(), ..Default::default() }
}

#[test]
fn text_body_div_carries_resolved_properties() {
    let body = TextBody {
        word_wrap: true,
        vertical_align: VerticalAlign::Middle,
        anchor_center: true,
        margins: TextMargins { left: 91_440, right: 91_440, top: 45_720, bottom: 45_720 },
        auto_fit: AutoFit::Normal { font_scale: Some(90_000), line_spacing_reduction: None },
        text_rotation: 5_400_000,
        paragraphs: vec![TextParagraph { runs: vec![run("Hi")], ..Default::default() }],
        ..Default::default()
    };
    let shape = Shape {
        vertical_text: Some("vert270".to_string()),
        flip_h: true,
        text_body: Some(body.clone()),
        ..Default::default()
    };
    let text_ctx = TextStyleCtx::default();
    let insets = TextMargins::default();
    let open = HtmlRenderer::text_body_open(&shape, &body, None, None, &text_ctx, 914_400, &insets);
    assert_eq!(
        open,
        "<div class=\"text-body v-middle h-center\" style=\"padding: 3.6pt 7.2pt 3.6pt 7.2pt; \
         writing-mode: vertical-lr; transform: rotate(90.0deg); overflow: hidden; \
         transform: scale(-1,1) rotate(180deg)\">\n"
    );

    let mut coll = RenderCollector::default();
    let mut html = String::new();
    HtmlRenderer::render_text_body(
        &shape, &body, None, None, &ctx(), None, &mut coll, &text_ctx, None, None, 914_400, &insets,
        &mut html,
    );
    assert!(html.starts_with(&open));
    assert!(html.contains(">Hi</span>"));
    assert!(html.ends_with("</p>\n</div>\n"));
}

#[test]
fn narrow_text_box_gets_emergency_wrapping() {
    let body = TextBody {
        word_wrap: true,
        paragraphs: vec![TextParagraph { runs: vec![run("Supercalifragilistic")], ..Default::default() }],
        ..Default::default()
    };
    let shape = Shape::default();
    let text_ctx = TextStyleCtx::default();
    let open = HtmlRenderer::text_body_open(&shape, &body, None, None, &text_ctx, 95_250, &TextMargins::default());
    assert_eq!(
        open,
        "<div class=\"text-body v-top emergency-wrap\" style=\"padding: 0.0pt 0.0pt 0.0pt 0.0pt; overflow-wrap: anywhere\">\n"
    );
    let wide = HtmlRenderer::text_body_open(&shape, &body, None, None, &text_ctx, 9_144_000, &TextMargins::default());
    assert_eq!(wide, "<div class=\"text-body v-top\" style=\"padding: 0.0pt 0.0pt 0.0pt 0.0pt\">\n");

    let unwrapped = TextBody { word_wrap: false, auto_fit: AutoFit::Shrink, ..body };
    let open = HtmlRenderer::text_body_open(&shape, &unwrapped, None, None, &text_ctx, 95_250, &TextMargins::default());
    assert_eq!(
        open,
        "<div class=\"text-body v-top nowrap\" style=\"padding: 0.0pt 0.0pt 0.0pt 0.0pt; height: auto; min-height: 100%; white-space: nowrap\">\n"
    );
}

#[test]
fn shape_provenance_names_fill_border_and_text_sources() {
    let shape = Shape {
        name: "Title 1".to_string(),
        fill: Fill::Solid(SolidFill { color: Color::rgb("FF0000") }),
        ..Default::default()
    };
    let layout = Shape {
        border: Border { width: 12_700, ..Default::default() },
        ..Default::default()
    };
    let list = ListStyle::default();
    let text_ctx = TextStyleCtx { layout_list_style: Some(&list), ..Default::default() };
    let mut coll = RenderCollector::default();
    coll.current_slide_index = 1;
    HtmlRenderer::push_shape_provenance(&shape, Some(&layout), None, &text_ctx, &mut coll);
    let e = &coll.provenance_entries[0];
    assert_eq!(e.slide_index, 2);
    assert_eq!(e.subject, ProvenanceSubject::Shape);
    assert_eq!(e.shape_name.as_deref(), Some("Title 1"));
    assert_eq!(e.fill_source, Some(ProvenanceSource::Slide));
    assert_eq!(e.border_source, Some(ProvenanceSource::LayoutPlaceholder));
    assert_eq!(e.text_source, Some(ProvenanceSource::LayoutListStyle));
    assert_eq!(e.background_source, None);

    let unnamed = Shape::default();
    HtmlRenderer::push_shape_provenance(&unnamed, None, None, &TextStyleCtx::default(), &mut coll);
    assert_eq!(coll.provenance_entries[1].shape_name, None);
    assert_eq!(coll.provenance_entries[1].text_source, None);
}

fn drawing(markup: &str) -> ShapeDrawing<'_> {
    ShapeDrawing {
        anchor: None,
        theme_effects: None,
        markup,
        text_insets: TextMargins::default(),
        children: Vec::new(),
        svg: None,
        custom_paths: Vec::new(),
    }
}

fn render(shape: &Shape, frame: Option<(Position, Size)>, markup: &str, coll: &mut RenderCollector) -> String {
    let mut html = String::new();
    HtmlRenderer::render_shape_resolved(
        shape, None, None, frame, &ctx(), None, None, None, &drawing(markup), coll, &mut html,
    );
    html
}

#[test]
fn whole_shapes_render_by_kind() {
    let mut coll = RenderCollector::default();
    let (position, size) = frame(0, 0, 457_200, 228_600);
    let rect = Shape {
        name: "rotated-rect".to_string(),
        position,
        size,
        rotation: 1_800_000,
        fill: Fill::Solid(SolidFill { color: Color::rgb("CCCCCC") }),
        ..Default::default()
    };
    let html = render(&rect, None, "", &mut coll);
    assert_eq!(
        html,
        "<div class=\"shape\" style=\"left: 0.0px; top: 0.0px; width: 48.0px; height: 24.0px; \
         transform: rotate(30.0deg); background-color: #CCCCCC\">\n</div>\n"
    );
    assert_eq!(coll.provenance_entries.len(), 1);
    assert_eq!(coll.provenance_entries[0].shape_name.as_deref(), Some("rotated-rect"));

    let (position, size) = frame(9_144, 18_288, 0, 914_400);
    let line = Shape {
        shape_type: ShapeType::Custom("line".to_string()),
        position,
        size,
        rotation: 1_800_000,
        border: Border { width: 12_700, color: Color::rgb("112233"), style: BorderStyle::Solid, ..Default::default() },
        ..Default::default()
    };
    let line_drawing = ShapeDrawing {
        svg: Some(SvgGeometry { d: "M1.0,0 L1.0,96.0", generated: true, gradient_vector: "", tail_marker: "", head_marker: "" }),
        ..drawing("")
    };
    let mut html = String::new();
    HtmlRenderer::render_shape_resolved(&line, None, None, None, &ctx(), None, None, None, &line_drawing, &mut coll, &mut html);
    assert_eq!(
        html,
        "<div class=\"shape\" style=\"left: -0.0px; top: 1.9px; width: 2px; height: 96.0px\">\n\
         <svg viewBox=\"0 0 2.0 96.0\" class=\"shape-svg\" preserveAspectRatio=\"none\"><g>\
         <path d=\"M1.0,0 L1.0,96.0\" fill=\"none\" stroke=\"#112233\" stroke-width=\"1.5\" \
         vector-effect=\"non-scaling-stroke\"/></g></svg>\n</div>\n"
    );

    let (position, size) = frame(0, 0, 914_400, 457_200);
    let picture = Shape {
        shape_type: ShapeType::Picture(PictureData {
            rel_id: "rId1".to_string(),
            content_type: "image/png".to_string(),
            data: vec![1, 2, 3, 4],
            crop: Some(CropRect { left: 10_000, top: 0, right: 10_000, bottom: 0 }),
        }),
        position,
        size,
        ..Default::default()
    };
    let html = render(&picture, None, "", &mut coll);
    assert!(html.contains("overflow: hidden"));
    assert!(html.contains("margin-left: -12.00px; margin-top: -0.00px"));

    let unsupported = Shape {
        name: "custom-geometry-placeholder".to_string(),
        shape_type: ShapeType::Unsupported(UnsupportedData {
            label: "Custom Geometry".to_string(),
            element_type: UnresolvedType::CustomGeometry,
            raw_xml: Some("<custGeom/>".to_string()),
        }),
        ..Default::default()
    };
    let entries = coll.provenance_entries.len();
    let html = render(&unsupported, None, "", &mut coll);
    assert!(html.contains("data-type=\"custom-geometry\""));
    assert!(html.ends_with("</span></div>\n</div>\n"));
    assert_eq!(coll.elements.len(), 1);
    assert_eq!(coll.elements[0].element_type, UnresolvedType::CustomGeometry);
    assert_eq!(coll.provenance_entries.len(), entries);

    // A group child is drawn at the frame its group gives it.
    let child = Shape {
        name: "group-child".to_string(),
        size: Size { width: Emu(457_200), height: Emu(228_600) },
        fill: Fill::Solid(SolidFill { color: Color::rgb("00FF00") }),
        ..Default::default()
    };
    let child_frame = frame(95_250, 0, 457_200, 228_600);
    let inner = render(&child, Some(child_frame), "", &mut coll);
    assert!(inner.starts_with("<div class=\"shape\" style=\"left: 10.0px; top: 0.0px; width: 48.0px; height: 24.0px; background-color: #00FF00\">"));
    // A group renders its visible children inside its own box, each in its frame.
    let group = Shape {
        name: "group".to_string(),
        shape_type: ShapeType::Group(
            vec![Shape { position: Position { x: Emu(95_250), y: Emu(0) }, ..child }],
            Default::default(),
        ),
        size: Size { width: Emu(914_400), height: Emu(457_200) },
        ..Default::default()
    };
    let group_drawing = ShapeDrawing { children: vec![drawing("")], ..drawing("") };
    let mut html = String::new();
    HtmlRenderer::render_shape_resolved(
        &group, None, None, None, &ctx(), None, None, None, &group_drawing, &mut coll, &mut html,
    );
    assert_eq!(
        html,
        format!("<div class=\"shape\" style=\"left: 0.0px; top: 0.0px; width: 96.0px; height: 48.0px\">\n{inner}</div>\n")
    );
}

#[test]
fn shape_with_text_renders_its_text_body() {
    let body = TextBody {
        word_wrap: true,
        paragraphs: vec![TextParagraph { runs: vec![run("Hello")], ..Default::default() }],
        ..Default::default()
    };
    let (position, size) = frame(0, 0, 914_400, 457_200);
    let shape = Shape { shape_type: ShapeType::TextBox, position, size, text_body: Some(body), ..Default::default() };
    let mut coll = RenderCollector::default();
    let html = render(&shape, None, "", &mut coll);
    assert!(html.starts_with(
        "<div class=\"shape\" style=\"left: 0.0px; top: 0.0px; width: 96.0px; height: 48.0px\">\n\
         <div class=\"text-body v-top\" style=\"padding: 0.0pt 0.0pt 0.0pt 0.0pt\">\n<p class=\"paragraph\""
    ));
    assert!(html.contains("Hello"));
    assert!(html.ends_with("</p>\n</div>\n</div>\n"));
    assert_eq!(coll.font_resolution_entries.len(), 1);
}

#[test]
fn group_renders_visible_children_in_their_frames() {
    let child = |name: &str, x: i64, hidden: bool, hex: &str| Shape {
        name: name.to_string(),
        position: Position { x: Emu(x), y: Emu(0) },
        size: Size { width: Emu(457_200), height: Emu(228_600) },
        fill: Fill::Solid(SolidFill { color: Color::rgb(hex) }),
        hidden,
        ..Default::default()
    };
    let children = vec![child("a", 0, false, "00FF00"), child("b", 0, true, "0000FF"), child("c", 457_200, false, "FF0000")];
    let parent = Shape { size: Size { width: Emu(1_828_800), height: Emu(457_200) }, ..Default::default() };
    let group = GroupData {
        child_offset: Position::default(),
        child_extent: Size { width: Emu(914_400), height: Emu(228_600) },
    };
    let drawings = vec![drawing(""), drawing(""), drawing("")];
    let mut coll = RenderCollector::default();
    let mut html = String::new();
    let pframe = (parent.position, parent.size);
    HtmlRenderer::render_group(&children, &pframe, &group, &ctx(), None, None, None, &drawings, &mut coll, &mut html);
    assert_eq!(
        html,
        "<div class=\"shape\" style=\"left: 0.0px; top: 0.0px; width: 96.0px; height: 48.0px; background-color: #00FF00\">\n</div>\n\
         <div class=\"shape\" style=\"left: 96.0px; top: 0.0px; width: 96.0px; height: 48.0px; background-color: #FF0000\">\n</div>\n"
    );
    assert_eq!(coll.provenance_entries.len(), 2);
}

#[test]
fn unresolved_elements_of_a_pass_have_distinct_ids() {
    let mut coll = RenderCollector::default();
    let data = UnsupportedData { label: "x".to_string(), element_type: UnresolvedType::OleObject, raw_xml: None };
    for slide in 0..3 {
        coll.current_slide_index = slide;
        for _ in 0..4 {
            let mut html = String::new();
            HtmlRenderer::render_unsupported(&data, &Position::default(), &Size::default(), &mut coll, &mut html);
        }
    }
    assert_eq!(coll.elements.len(), 12);
    for i in 0..coll.elements.len() {
        for j in 0..coll.elements.len() {
            if i != j {
                assert_ne!(coll.elements[i].placeholder_id, coll.elements[j].placeholder_id);
            }
        }
    }
    assert_eq!(coll.elements[11].placeholder_id, "unresolved-s2-e11");
}

#[test]
fn box_dims_follow_anchor_and_swap() {
    let connector = Shape {
        shape_type: ShapeType::Custom("bentConnector3".to_string()),
        size: Size { width: Emu(952_500), height: Emu(95_250) },
        rotation: 16_200_000,
        ..Default::default()
    };
    let g = HtmlRenderer::effective_geometry(&connector, None, None);
    let preset = HtmlRenderer::svg_preset_name(g.shape_type);
    assert_eq!(HtmlRenderer::box_dims(&connector.position, &connector.size, None, &g, preset), (95_250, 952_500));
    assert_eq!(
        HtmlRenderer::box_dims(&connector.position, &connector.size, Some((100, 900, 400, 100)), &g, preset),
        (800, 300)
    );
    let mut out = String::from("x");
    HtmlRenderer::push_transform_css(&mut out, -900_000, false, false);
    assert_eq!(out, "x; transform: rotate(-15.0deg)");
}

#[test]
fn inherited_font_sizes_come_from_each_paragraph_level() {
    let mut levels: [Option<ParagraphDefaults>; 9] = Default::default();
    levels[1] = Some(ParagraphDefaults {
        def_run_props: Some(RunDefaults { font_size: Some(2_400), ..Default::default() }),
        ..Default::default()
    });
    let list = ListStyle { levels };
    let text_ctx = TextStyleCtx { master_list_style: Some(&list), ..Default::default() };
    let paras = vec![
        TextParagraph { level: 1, ..Default::default() },
        TextParagraph { level: 0, ..Default::default() },
        TextParagraph { level: 12, ..Default::default() },
    ];
    assert_eq!(HtmlRenderer::inherited_font_sizes(&paras, &text_ctx), vec![Some(2_400), None, None]);
}
