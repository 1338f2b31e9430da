use pptx2html_core::model::color::{ClrMap, Color, ColorKind, ColorScheme};
use pptx2html_core::model::fill::{Border, BorderStyle, DashStyle, Fill, LineCap, LineEnd, LineEndType, LineJoin, SolidFill};
use pptx2html_core::model::hierarchy::{FmtScheme, ShapeStyleRef, Slide, SlideLayout, SlideMaster, StyleRef};
use pptx2html_core::model::shape::Shape;
use pptx2html_core::provenance::ProvenanceSource;
use pptx2html_core::resolver::inheritance::{
    background_source, border_source, resolve_border_with_theme, resolve_shape_fill, resolve_shape_fill_with_theme,
    shape_fill_source,
};

fn solid(hex: &str) -> Fill {
    Fill::Solid(SolidFill { color: Color::rgb(hex) })
}

fn fmt() -> FmtScheme {
    FmtScheme {
        fill_style_lst: vec![Fill::Solid(SolidFill { color: Color::theme("phClr") })],
        ln_style_lst: vec![Border { width: 12700, color: Color::theme("phClr"), style: BorderStyle::NoLine, ..Default::default() }],
        bg_fill_style_lst: vec![],
    }
}

fn styled_shape() -> Shape {
    Shape {
        style_ref: Some(ShapeStyleRef {
            fill_ref: Some(StyleRef { idx: 1, color: Color::theme("accent1") }),
            ln_ref: Some(StyleRef { idx: 1, color: Color::theme("accent2") }),
            ..Default::default()
        }),
        ..Default::default()
    }
}

#[test]
fn background_source_names_each_level() {
    let slide = Slide { background: Some(solid("FF0000")), ..Default::default() };
    let layout = SlideLayout { background: Some(solid("00FF00")), ..Default::default() };
    let master = SlideMaster { background: Some(solid("0000FF")), ..Default::default() };
    assert_eq!(background_source(&slide, Some(&layout), Some(&master)), ProvenanceSource::Slide);
    let bare = Slide::default();
    assert_eq!(background_source(&bare, Some(&layout), Some(&master)), ProvenanceSource::LayoutBackground);
    assert_eq!(background_source(&bare, None, Some(&master)), ProvenanceSource::MasterBackground);
    assert_eq!(background_source(&bare, None, None), ProvenanceSource::HardcodedDefault);
}

#[test]
fn no_fill_stops_the_cascade() {
    let shape = Shape { fill: Fill::NoFill, ..Default::default() };
    let layout = Shape { fill: solid("00FF00"), ..Default::default() };
    assert!(matches!(resolve_shape_fill(&shape, Some(&layout), None), Fill::NoFill));
    let shape = Shape::default();
    let layout = Shape { fill: Fill::NoFill, ..Default::default() };
    let master = Shape { fill: solid("0000FF"), ..Default::default() };
    assert!(matches!(resolve_shape_fill(&shape, Some(&layout), Some(&master)), Fill::NoFill));
}

#[test]
fn theme_fill_is_the_last_resort() {
    let cs = ColorScheme::default();
    let cm = ClrMap::default();
    let f = fmt();
    let shape = styled_shape();
    let fill = resolve_shape_fill_with_theme(&shape, None, None, Some(&f), Some(&cs), Some(&cm));
    assert!(matches!(fill, Fill::Solid(ref sf) if matches!(sf.color.kind, ColorKind::Theme(ref n) if n == "accent1")));
    assert_eq!(shape_fill_source(&shape, None, None, true), Some(ProvenanceSource::StyleRef));

    let no_fill = Shape { fill: Fill::NoFill, ..styled_shape() };
    let fill = resolve_shape_fill_with_theme(&no_fill, None, None, Some(&f), Some(&cs), Some(&cm));
    assert!(matches!(fill, Fill::NoFill));
    assert_eq!(shape_fill_source(&no_fill, None, None, true), Some(ProvenanceSource::Slide));

    let layout = Shape { fill: solid("ABCDEF"), ..Default::default() };
    let fill = resolve_shape_fill_with_theme(&shape, Some(&layout), None, Some(&f), Some(&cs), Some(&cm));
    assert!(matches!(fill, Fill::Solid(ref sf) if matches!(sf.color.kind, ColorKind::Rgb(ref n) if n == "ABCDEF")));
    assert_eq!(shape_fill_source(&shape, Some(&layout), None, true), Some(ProvenanceSource::LayoutPlaceholder));

    let without_theme = resolve_shape_fill_with_theme(&shape, None, None, None, Some(&cs), Some(&cm));
    assert!(matches!(without_theme, Fill::Unset));
    assert_eq!(shape_fill_source(&Shape::default(), None, None, false), None);
    let master = Shape { fill: solid("123456"), ..Default::default() };
    assert_eq!(shape_fill_source(&Shape::default(), Some(&Shape::default()), Some(&master), false), Some(ProvenanceSource::MasterPlaceholder));
}

#[test]
fn explicit_no_line_gives_empty_border() {
    let cs = ColorScheme::default();
    let cm = ClrMap::default();
    let f = fmt();
    let mut shape = styled_shape();
    shape.border.no_fill = true;
    shape.border.width = 25400;
    let b = resolve_border_with_theme(&shape, None, None, Some(&f), Some(&cs), Some(&cm));
    assert_eq!(b, Border::default());
    assert_eq!(border_source(&shape, None, None, true), Some(ProvenanceSource::Slide));
}

#[test]
fn own_border_without_color_takes_line_reference_color() {
    let cs = ColorScheme::default();
    let cm = ClrMap::default();
    let f = fmt();
    let mut shape = styled_shape();
    shape.border.tail_end = Some(LineEnd { end_type: LineEndType::Triangle, ..Default::default() });
    let b = resolve_border_with_theme(&shape, None, None, Some(&f), Some(&cs), Some(&cm));
    assert!(matches!(b.color.kind, ColorKind::Theme(ref n) if n == "accent2"));
    assert_eq!(b.width, 12700);
    assert_eq!(b.tail_end, shape.border.tail_end);
}

#[test]
fn layout_and_master_borders_are_inherited() {
    let shape = Shape::default();
    let layout = Shape { border: Border { width: 6350, color: Color::rgb("FF0000"), ..Default::default() }, ..Default::default() };
    let b = resolve_border_with_theme(&shape, Some(&layout), None, None, None, None);
    assert_eq!(b, layout.border);
    assert_eq!(border_source(&shape, Some(&layout), None, false), Some(ProvenanceSource::LayoutPlaceholder));
    let layout_none = Shape { border: Border { no_fill: true, ..Default::default() }, ..Default::default() };
    let master = Shape { border: Border { width: 9525, ..Default::default() }, ..Default::default() };
    assert_eq!(resolve_border_with_theme(&shape, Some(&layout_none), Some(&master), None, None, None), Border::default());
    assert_eq!(resolve_border_with_theme(&shape, None, Some(&master), None, None, None), master.border);
    assert_eq!(border_source(&shape, None, Some(&master), false), Some(ProvenanceSource::MasterPlaceholder));
    assert_eq!(border_source(&shape, None, None, false), None);
}

#[test]
fn theme_line_keeps_shape_line_details() {
    let cs = ColorScheme::default();
    let cm = ClrMap::default();
    let f = fmt();
    let shape = styled_shape();
    let b = resolve_border_with_theme(&shape, None, None, Some(&f), Some(&cs), Some(&cm));
    assert_eq!(b.width, 12700);
    assert_eq!(b.style, BorderStyle::Solid);
    assert!(matches!(b.color.kind, ColorKind::Theme(ref n) if n == "accent2"));
    assert_eq!(border_source(&shape, None, None, true), Some(ProvenanceSource::StyleRef));
    assert_eq!(b.dash_style, DashStyle::Solid);
    assert_eq!(b.cap, LineCap::Flat);
    assert_eq!(b.join, LineJoin::Miter);
}
