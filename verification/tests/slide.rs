use pptx2html_core::model::color::{ClrMap, Color, ColorScheme};
use pptx2html_core::model::fill::{Fill, ImageFill, SolidFill};
use pptx2html_core::model::hierarchy::{ClrMapOverride, Slide, SlideLayout, SlideMaster, Theme};
use pptx2html_core::model::shape::{Emu, PlaceholderInfo, PlaceholderType, Shape, Size};
use pptx2html_core::provenance::{ProvenanceSource, ProvenanceSubject};
use pptx2html_core::renderer::context::{RenderCollector, RenderCtx};
use pptx2html_core::renderer::fill_css::HtmlRenderer;

const EMU_PER_PX: i64 = 9525;

fn shape(name: &str, hidden: bool, ph: Option<PlaceholderType>) -> Shape {
    Shape {
        name: name.to_string(),
        hidden,
        placeholder: ph.map(|t| PlaceholderInfo { ph_type: Some(t), idx: None }),
        ..Default::default()
    }
}

fn deck() -> (Vec<SlideLayout>, Vec<SlideMaster>) {
    let master = SlideMaster {
        shapes: vec![
            shape("logo", false, None),
            shape("master title", false, Some(PlaceholderType::Title)),
            shape("hidden band", true, None),
        ],
        ..Default::default()
    };
    let layout = SlideLayout {
        shapes: vec![shape("layout title", false, Some(PlaceholderType::Title))],
        master_idx: 0,
        show_master_sp: true,
        ..Default::default()
    };
    (vec![layout], vec![master])
}

#[test]
fn slide_renders_master_decorations_then_its_visible_shapes() {
    let (layouts, masters) = deck();
    let slide = Slide {
        shapes: vec![
            shape("title", false, Some(PlaceholderType::Title)),
            shape("hidden", true, None),
            shape("note", false, None),
        ],
        show_master_sp: true,
        layout_idx: Some(0),
        ..Default::default()
    };
    let plan = HtmlRenderer::slide_shapes_to_render(&slide, &layouts, &masters);
    let names: Vec<&str> = plan.iter().map(|p| p.shape.name.as_str()).collect();
    assert_eq!(names, vec!["logo", "title", "note"]);
    assert!(plan[0].layout_match.is_none() && plan[0].master_match.is_none());
    assert_eq!(plan[1].layout_match.map(|s| s.name.as_str()), Some("layout title"));
    assert_eq!(plan[1].master_match.map(|s| s.name.as_str()), Some("master title"));
    assert!(plan[2].layout_match.is_none() && plan[2].master_match.is_none());
}

#[test]
fn layout_can_hide_master_shapes() {
    let (mut layouts, masters) = deck();
    layouts[0].show_master_sp = false;
    let slide = Slide {
        shapes: vec![shape("note", false, None)],
        show_master_sp: true,
        layout_idx: Some(0),
        ..Default::default()
    };
    let plan = HtmlRenderer::slide_shapes_to_render(&slide, &layouts, &masters);
    let names: Vec<&str> = plan.iter().map(|p| p.shape.name.as_str()).collect();
    assert_eq!(names, vec!["note"]);
}

#[test]
fn slide_without_layout_renders_only_its_shapes() {
    let (layouts, masters) = deck();
    let slide = Slide {
        shapes: vec![shape("title", false, Some(PlaceholderType::Title))],
        show_master_sp: true,
        layout_idx: Some(7),
        ..Default::default()
    };
    let plan = HtmlRenderer::slide_shapes_to_render(&slide, &layouts, &masters);
    assert_eq!(plan.len(), 1);
    assert!(plan[0].layout_match.is_none() && plan[0].master_match.is_none());
}

#[test]
fn begin_slide_writes_the_frame_with_the_default_background() {
    let (layouts, masters) = deck();
    let themes: Vec<Theme> = vec![];
    let slide = Slide { layout_idx: Some(0), ..Default::default() };
    let ctx = RenderCtx { scheme: None, clr_map: None, embed_images: true };
    let mut coll = RenderCollector::default();
    let mut html = String::new();
    HtmlRenderer::begin_slide(
        &slide, 1, 960 * EMU_PER_PX, 540 * EMU_PER_PX, 10000, &layouts, &masters, &themes, &ctx,
        &mut coll, &mut html,
    );
    assert_eq!(
        html,
        "<div class=\"slide-shell\" data-slide=\"1\" style=\"width: 960.0px; height: 540.0px;\">\n\
         <div class=\"slide\" data-slide=\"1\" style=\"background-color: #FFFFFF\">\n"
    );
    assert_eq!(coll.provenance_entries.len(), 1);
    let e = &coll.provenance_entries[0];
    assert_eq!(e.slide_index, 1);
    assert_eq!(e.subject, ProvenanceSubject::SlideBackground);
    assert_eq!(e.background_source, Some(ProvenanceSource::HardcodedDefault));
}

#[test]
fn begin_slide_scales_the_shell_and_resolves_the_slide_colors() {
    let (layouts, mut masters) = deck();
    masters[0].background = Some(Fill::Solid(SolidFill { color: Color::theme("bg1") }));
    masters[0].theme_idx = 1;
    let mut master_map = ClrMap::default();
    master_map.set("bg1", "lt1");
    masters[0].clr_map = master_map;
    let themes = vec![
        Theme::default(),
        Theme {
            color_scheme: ColorScheme { lt1: "FAFAFA".to_string(), dk1: "101010".to_string(), ..Default::default() },
            ..Default::default()
        },
    ];
    let mut override_map = ClrMap::default();
    override_map.set("bg1", "dk1");
    let slide = Slide {
        layout_idx: Some(0),
        clr_map_ovr: Some(ClrMapOverride::Override(override_map)),
        ..Default::default()
    };
    let ctx = RenderCtx { scheme: None, clr_map: None, embed_images: true };
    let mut coll = RenderCollector::default();
    let mut html = String::new();
    let slide_ctx = HtmlRenderer::begin_slide(
        &slide, 2, 960 * EMU_PER_PX, 540 * EMU_PER_PX, 7500, &layouts, &masters, &themes, &ctx,
        &mut coll, &mut html,
    );
    assert_eq!(
        html,
        "<div class=\"slide-shell\" data-slide=\"2\" style=\"width: 720.0px; height: 405.0px;\">\n\
         <div class=\"slide\" data-slide=\"2\" style=\"background-color: #101010; transform: scale(0.7500); \
         transform-origin: top left\">\n"
    );
    assert_eq!(slide_ctx.color_to_css(&Color::theme("bg1")), Some("#101010".to_string()));
    assert_eq!(coll.provenance_entries[0].background_source, Some(ProvenanceSource::MasterBackground));
}

#[test]
fn render_with_scale_wraps_slide_in_scaled_shell() {
    let slide = Slide {
        shapes: vec![Shape {
            size: Size { width: Emu(228_600), height: Emu(114_300) },
            fill: Fill::Solid(SolidFill { color: Color::rgb("CCCCCC") }),
            ..Default::default()
        }],
        ..Default::default()
    };
    let ctx = RenderCtx { scheme: None, clr_map: None, embed_images: true };
    let mut coll = RenderCollector::default();
    let mut html = String::new();
    HtmlRenderer::begin_slide(&slide, 1, 914_400, 457_200, 20000, &[], &[], &[], &ctx, &mut coll, &mut html);
    assert!(html.contains("class=\"slide-shell\""));
    assert!(html.contains("width: 192.0px; height: 96.0px;"));
    assert!(html.contains("transform: scale(2.0000); transform-origin: top left"));
    assert!(html.contains("class=\"slide\""));
}

#[test]
fn render_context_helpers_cover_asset_extensions_theme_override_and_wrappers() {
    let themes = vec![
        Theme {
            color_scheme: ColorScheme { accent1: "4472C4".to_string(), accent2: "ED7D31".to_string(), ..Default::default() },
            ..Default::default()
        },
        Theme {
            color_scheme: ColorScheme { accent1: "00FF00".to_string(), ..Default::default() },
            ..Default::default()
        },
    ];
    let clr_map = ClrMap::default();
    let slide_ctx = RenderCtx { scheme: Some(&themes[0].color_scheme), clr_map: Some(&clr_map), embed_images: false };
    let mut coll = RenderCollector::default();
    assert!(coll.register_external_asset("img", "image/jpeg", &[1, 2, 3]).ends_with(".jpg"));
    assert!(coll.register_external_asset("img", "image/gif", &[1, 2, 3]).ends_with(".gif"));
    assert!(coll.register_external_asset("img", "image/svg+xml", &[1, 2, 3]).ends_with(".svg"));
    assert!(coll.register_external_asset("img", "image/webp", &[1, 2, 3]).ends_with(".webp"));
    assert!(coll.register_external_asset("img", "image/png", &[1, 2, 3]).ends_with(".png"));

    let alt_ctx = slide_ctx.for_slide(&themes, None, Some(1));
    assert_eq!(alt_ctx.scheme.map(|scheme| scheme.accent1.as_str()), Some("00FF00"));
    let inherited_ctx = slide_ctx.for_slide(&themes, None, None);
    assert_eq!(inherited_ctx.clr_map.map(|_| true), Some(true));
}

#[test]
fn begin_slide_exports_an_image_background_when_images_are_not_embedded() {
    let slide = Slide {
        background: Some(Fill::Image(ImageFill { data: vec![9, 8, 7], content_type: "image/jpeg".to_string() })),
        ..Default::default()
    };
    let ctx = RenderCtx { scheme: None, clr_map: None, embed_images: false };
    let mut coll = RenderCollector::default();
    coll.current_slide_index = 4;
    let mut html = String::new();
    HtmlRenderer::begin_slide(&slide, 5, 9525, 9525, 10000, &[], &[], &[], &ctx, &mut coll, &mut html);
    assert!(html.contains("background-image: url(images/slide-5/background-0.jpg)"));
    assert_eq!(coll.external_assets.len(), 1);
    assert_eq!(coll.external_assets[0].relative_path, "images/slide-5/background-0.jpg");
    assert_eq!(coll.external_assets[0].data, vec![9, 8, 7]);
    assert_eq!(coll.provenance_entries[0].background_source, Some(ProvenanceSource::Slide));
}
