use pptx2html_core::model::color::{ClrMap, Color, ColorScheme};
use pptx2html_core::model::fill::{Fill, GradientFill, GradientStop, GradientType, ImageFill, SolidFill};
use pptx2html_core::model::hierarchy::Theme;
use pptx2html_core::model::shape::{Glow, OuterShadow, Shape, ShapeEffects};
use pptx2html_core::provenance::{ProvenanceSource, ProvenanceSubject, RenderedProvenanceEntry};
use pptx2html_core::renderer::context::{data_url, data_url_from_base64, RenderCollector, RenderCtx};
use pptx2html_core::renderer::fill_css::HtmlRenderer;
use pptx2html_core::text_metrics::{FontResolutionEntry, FontResolutionSource};

fn scheme() -> ColorScheme {
    ColorScheme {
        dk1: "111111".to_string(),
        lt1: "FFFFFF".to_string(),
        accent1: "4472C4".to_string(),
        ..Default::default()
    }
}

#[test]
fn gradient_and_marker_ids_count_up() {
    let mut coll = RenderCollector::default();
    assert_eq!(coll.next_gradient_id(), "grad0");
    assert_eq!(coll.next_gradient_id(), "grad1");
    assert_eq!(coll.next_marker_id("head"), "marker-head-0");
    assert_eq!(coll.next_marker_id("tail"), "marker-tail-1");
    assert_eq!(coll.next_gradient_id(), "grad2");
}

#[test]
fn external_assets_are_named_by_slide_and_counter() {
    let mut coll = RenderCollector::default();
    coll.current_slide_index = 2;
    let p1 = coll.register_external_asset("image", "image/jpeg", &[1, 2, 3]);
    let p2 = coll.register_external_asset("chart", "image/svg+xml", &[4]);
    let p3 = coll.register_external_asset("background", "image/bmp", &[]);
    let p4 = coll.register_external_asset("image", "image/gif", &[5]);
    let p5 = coll.register_external_asset("image", "image/webp", &[6]);
    assert_eq!(p1, "images/slide-3/image-0.jpg");
    assert_eq!(p2, "images/slide-3/chart-1.svg");
    assert_eq!(p3, "images/slide-3/background-2.png");
    assert_eq!(p4, "images/slide-3/image-3.gif");
    assert_eq!(p5, "images/slide-3/image-4.webp");
    assert_eq!(coll.external_assets.len(), 5);
    assert_eq!(coll.external_assets[0].relative_path, p1);
    assert_eq!(coll.external_assets[0].content_type, "image/jpeg");
    assert_eq!(coll.external_assets[0].data, vec![1, 2, 3]);
}

#[test]
fn provenance_and_font_entries_are_appended() {
    let mut coll = RenderCollector::default();
    coll.push_provenance(RenderedProvenanceEntry {
        slide_index: 1,
        subject: ProvenanceSubject::SlideBackground,
        shape_name: None,
        fill_source: None,
        border_source: None,
        text_source: None,
        background_source: Some(ProvenanceSource::MasterBackground),
    });
    coll.push_font_resolution(FontResolutionEntry {
        slide_index: 1,
        shape_name: Some("Title 1".to_string()),
        run_text: "Hello".to_string(),
        requested_typeface: None,
        resolved_typeface: Some("Calibri".to_string()),
        source: Some(FontResolutionSource::FontRef),
        fallback_used: false,
    });
    assert_eq!(coll.provenance_entries.len(), 1);
    assert_eq!(coll.provenance_entries[0].background_source, Some(ProvenanceSource::MasterBackground));
    assert_eq!(coll.font_resolution_entries[0].resolved_typeface.as_deref(), Some("Calibri"));
}

#[test]
fn data_url_embeds_base64() {
    assert_eq!(data_url("image/png", b"hello"), "data:image/png;base64,aGVsbG8=");
    assert_eq!(data_url("image/gif", b""), "data:image/gif;base64,");
    assert_eq!(data_url("image/jpeg", &[0xff, 0xd8, 0xff]), "data:image/jpeg;base64,/9j/");
    assert_eq!(data_url_from_base64("image/png", "AQID"), "data:image/png;base64,AQID");
}

#[test]
fn color_to_css_resolves_theme_colors_through_the_map() {
    let cs = scheme();
    let mut cm = ClrMap::default();
    cm.set("tx1", "dk1");
    let ctx = RenderCtx { scheme: Some(&cs), clr_map: Some(&cm), embed_images: true };
    assert_eq!(ctx.color_to_css(&Color::theme("tx1")).as_deref(), Some("#111111"));
    assert_eq!(ctx.color_to_css(&Color::theme("accent1")).as_deref(), Some("#4472C4"));
    assert_eq!(ctx.color_to_css(&Color::rgb("ABCDEF")).as_deref(), Some("#ABCDEF"));
    assert_eq!(ctx.color_to_css(&Color::theme("accent2")), None);
    assert_eq!(ctx.color_to_css(&Color::theme("unknown")), None);
    assert_eq!(ctx.color_to_css(&Color::none()), None);
    let bare = RenderCtx { scheme: None, clr_map: None, embed_images: true };
    assert_eq!(bare.color_to_css(&Color::theme("accent1")), None);
    assert_eq!(bare.color_to_css(&Color::rgb("00FF00")).as_deref(), Some("#00FF00"));
}

#[test]
fn for_slide_takes_master_theme_and_slide_map() {
    let themes = vec![
        Theme { color_scheme: scheme(), ..Default::default() },
        Theme {
            color_scheme: ColorScheme { accent1: "FF0000".to_string(), ..Default::default() },
            ..Default::default()
        },
    ];
    let mut cm = ClrMap::default();
    cm.set("tx1", "accent1");
    let base = RenderCtx { scheme: Some(&themes[0].color_scheme), clr_map: None, embed_images: false };
    let slide_ctx = base.for_slide(&themes, Some(&cm), Some(1));
    assert_eq!(slide_ctx.color_to_css(&Color::theme("tx1")).as_deref(), Some("#FF0000"));
    assert!(!slide_ctx.embed_images);
    let fallback = base.for_slide(&themes, None, Some(7));
    assert_eq!(fallback.color_to_css(&Color::theme("accent1")).as_deref(), Some("#4472C4"));
}

#[test]
fn fill_to_css_solid_and_transparent() {
    let cs = scheme();
    let ctx = RenderCtx { scheme: Some(&cs), clr_map: None, embed_images: true };
    let mut coll = RenderCollector::default();
    let solid = Fill::Solid(SolidFill { color: Color::theme("accent1") });
    assert_eq!(HtmlRenderer::fill_to_css(&solid, &ctx, &mut coll), "background-color: #4472C4");
    assert_eq!(HtmlRenderer::fill_to_css(&Fill::NoFill, &ctx, &mut coll), "");
    assert_eq!(HtmlRenderer::fill_to_css(&Fill::Unset, &ctx, &mut coll), "");
    let unresolved = Fill::Solid(SolidFill { color: Color::theme("accent6") });
    assert_eq!(HtmlRenderer::fill_to_css(&unresolved, &ctx, &mut coll), "");
}

#[test]
fn fill_to_css_gradients() {
    let cs = scheme();
    let ctx = RenderCtx { scheme: Some(&cs), clr_map: None, embed_images: true };
    let mut coll = RenderCollector::default();
    let stops = vec![
        GradientStop { position: 0, color: Color::rgb("FF0000") },
        GradientStop { position: 50000, color: Color::theme("accent5") },
        GradientStop { position: 100000, color: Color::theme("accent1") },
    ];
    let linear = Fill::Gradient(GradientFill {
        stops: stops.clone(),
        angle: 5400000,
        gradient_type: GradientType::Linear,
    });
    assert_eq!(
        HtmlRenderer::fill_to_css(&linear, &ctx, &mut coll),
        "background: linear-gradient(90deg, #FF0000 0%, #4472C4 100%)"
    );
    let radial = Fill::Gradient(GradientFill { stops: stops.clone(), angle: 0, gradient_type: GradientType::Radial });
    assert_eq!(
        HtmlRenderer::fill_to_css(&radial, &ctx, &mut coll),
        "background: radial-gradient(circle, #FF0000 0%, #4472C4 100%)"
    );
    let rect = Fill::Gradient(GradientFill { stops: stops.clone(), angle: 0, gradient_type: GradientType::Rectangular });
    assert_eq!(
        HtmlRenderer::fill_to_css(&rect, &ctx, &mut coll),
        "background: radial-gradient(ellipse, #FF0000 0%, #4472C4 100%)"
    );
    let shape = Fill::Gradient(GradientFill { stops, angle: 0, gradient_type: GradientType::Shape });
    assert_eq!(
        HtmlRenderer::fill_to_css(&shape, &ctx, &mut coll),
        "background: radial-gradient(closest-side, #FF0000 0%, #4472C4 100%)"
    );
    let none_resolve = Fill::Gradient(GradientFill {
        stops: vec![GradientStop { position: 0, color: Color::theme("accent4") }],
        angle: 0,
        gradient_type: GradientType::Linear,
    });
    assert_eq!(HtmlRenderer::fill_to_css(&none_resolve, &ctx, &mut coll), "");
}

#[test]
fn fill_to_css_rounds_positions_and_angles_half_to_even() {
    let ctx = RenderCtx { scheme: None, clr_map: None, embed_images: true };
    let mut coll = RenderCollector::default();
    let fill = Fill::Gradient(GradientFill {
        stops: vec![
            GradientStop { position: 500, color: Color::rgb("000000") },
            GradientStop { position: 1500, color: Color::rgb("111111") },
            GradientStop { position: 33333, color: Color::rgb("222222") },
            GradientStop { position: 66667, color: Color::rgb("333333") },
        ],
        angle: 2730000,
        gradient_type: GradientType::Linear,
    });
    assert_eq!(
        HtmlRenderer::fill_to_css(&fill, &ctx, &mut coll),
        "background: linear-gradient(46deg, #000000 0%, #111111 2%, #222222 33%, #333333 67%)"
    );
}

#[test]
fn fill_to_css_images_embedded_or_exported() {
    let img = Fill::Image(ImageFill { data: b"hello".to_vec(), content_type: String::new() });
    let embed = RenderCtx { scheme: None, clr_map: None, embed_images: true };
    let mut coll = RenderCollector::default();
    assert_eq!(
        HtmlRenderer::fill_to_css(&img, &embed, &mut coll),
        "background-image: url(data:image/png;base64,aGVsbG8=); background-size: cover; background-position: center; background-repeat: no-repeat"
    );
    assert!(coll.external_assets.is_empty());

    let export = RenderCtx { scheme: None, clr_map: None, embed_images: false };
    let jpeg = Fill::Image(ImageFill { data: vec![1, 2], content_type: "image/jpeg".to_string() });
    assert_eq!(
        HtmlRenderer::fill_to_css(&jpeg, &export, &mut coll),
        "background-image: url(images/slide-1/background-0.jpg); background-size: cover; background-position: center; background-repeat: no-repeat"
    );
    assert_eq!(coll.external_assets.len(), 1);
    assert_eq!(coll.external_assets[0].data, vec![1, 2]);

    let empty = Fill::Image(ImageFill { data: Vec::new(), content_type: "image/png".to_string() });
    assert_eq!(HtmlRenderer::fill_to_css(&empty, &export, &mut coll), "");
    assert_eq!(coll.external_assets.len(), 1);
}

#[test]
fn fill_to_css_buf_appends_with_separator() {
    let ctx = RenderCtx { scheme: None, clr_map: None, embed_images: true };
    let mut coll = RenderCollector::default();
    let mut buf = String::new();
    HtmlRenderer::fill_to_css_buf(&Fill::Solid(SolidFill { color: Color::rgb("FF0000") }), &ctx, &mut coll, &mut buf);
    assert_eq!(buf, "background-color: #FF0000");
    HtmlRenderer::fill_to_css_buf(&Fill::NoFill, &ctx, &mut coll, &mut buf);
    assert_eq!(buf, "background-color: #FF0000");
    HtmlRenderer::fill_to_css_buf(&Fill::Solid(SolidFill { color: Color::rgb("00FF00") }), &ctx, &mut coll, &mut buf);
    assert_eq!(buf, "background-color: #FF0000; background-color: #00FF00");
}

#[test]
fn explicit_effects_only_when_shadow_or_glow_present() {
    let plain = Shape::default();
    assert!(HtmlRenderer::explicit_shape_effects(&plain).is_none());
    let glowing = Shape {
        effects: ShapeEffects {
            outer_shadow: None,
            glow: Some(Glow { radius: 12700, color: Color::rgb("FFD700") }),
        },
        ..Default::default()
    };
    assert_eq!(HtmlRenderer::explicit_shape_effects(&glowing), Some(glowing.effects.clone()));
    let shadowed = Shape {
        effects: ShapeEffects {
            outer_shadow: Some(OuterShadow { blur_radius: 50800, offset_x: 0, offset_y: 38100, color: Color::rgb("000000") }),
            glow: None,
        },
        ..Default::default()
    };
    assert_eq!(HtmlRenderer::explicit_shape_effects(&shadowed), Some(shadowed.effects.clone()));
}

#[test]
fn effects_become_box_shadows_and_drop_shadow_filters() {
    let scheme = scheme();
    let ctx = RenderCtx { scheme: Some(&scheme), clr_map: None, embed_images: true };
    let effects = ShapeEffects {
        outer_shadow: Some(OuterShadow { blur_radius: 50800, offset_x: 0, offset_y: 38100, color: Color::none() }),
        glow: Some(Glow { radius: 12700, color: Color::theme("accent1") }),
    };
    assert_eq!(
        HtmlRenderer::effects_to_box_shadows(&effects, &ctx),
        vec!["0.0pt 3.0pt 4.0pt rgba(0,0,0,0.4)".to_string(), "0 0 1.0pt 1.0pt #4472C4".to_string()]
    );
    assert_eq!(
        HtmlRenderer::effects_to_svg_filter_attr(&effects, &ctx),
        " style=\"filter: drop-shadow(0.0pt 3.0pt 4.0pt rgba(0,0,0,0.4)) drop-shadow(0 0 1.0pt #4472C4)\""
    );
    let glow_only = ShapeEffects { outer_shadow: None, glow: Some(Glow { radius: 6350, color: Color::none() }) };
    assert_eq!(HtmlRenderer::effects_to_box_shadows(&glow_only, &ctx), vec!["0 0 0.5pt 0.5pt rgba(255,215,0,0.5)".to_string()]);
    assert_eq!(
        HtmlRenderer::effects_to_svg_filter_attr(&glow_only, &ctx),
        " style=\"filter: drop-shadow(0 0 0.5pt rgba(255,215,0,0.5))\""
    );
    let none = ShapeEffects::default();
    assert!(HtmlRenderer::effects_to_box_shadows(&none, &ctx).is_empty());
    assert_eq!(HtmlRenderer::effects_to_svg_filter_attr(&none, &ctx), "");
}
