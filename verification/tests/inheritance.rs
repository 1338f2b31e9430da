use pptx2html_core::model::color::{ClrMap, Color, ColorKind};
use pptx2html_core::model::fill::{Fill, SolidFill};
use pptx2html_core::model::hierarchy::{ClrMapOverride, Slide, SlideLayout, SlideMaster};
use pptx2html_core::model::shape::{Emu, Position, Shape, Size};
use pptx2html_core::resolver::inheritance::{resolve_background, resolve_clr_map, resolve_position, resolve_shape_fill};

fn red_fill() -> Fill {
    Fill::Solid(SolidFill {
        color: Color::rgb("FF0000"),
    })
}

fn blue_fill() -> Fill {
    Fill::Solid(SolidFill {
        color: Color::rgb("0000FF"),
    })
}

fn green_fill() -> Fill {
    Fill::Solid(SolidFill {
        color: Color::rgb("00FF00"),
    })
}

fn is_rgb(f: &Fill, hex: &str) -> bool {
    matches!(f, Fill::Solid(sf) if matches!(sf.color.kind, ColorKind::Rgb(ref s) if s == hex))
}

// -- resolve_background tests --

#[test]
fn bg_slide_wins() {
    let slide = Slide {
        background: Some(red_fill()),
        ..Default::default()
    };
    let layout = SlideLayout {
        background: Some(blue_fill()),
        ..Default::default()
    };
    let master = SlideMaster {
        background: Some(green_fill()),
        ..Default::default()
    };
    let bg = resolve_background(&slide, Some(&layout), Some(&master));
    assert!(is_rgb(&bg, "FF0000"));
}

#[test]
fn bg_layout_fallback() {
    let slide = Slide::default();
    let layout = SlideLayout {
        background: Some(blue_fill()),
        ..Default::default()
    };
    let bg = resolve_background(&slide, Some(&layout), None);
    assert!(is_rgb(&bg, "0000FF"));
}

#[test]
fn bg_master_fallback() {
    let slide = Slide::default();
    let master = SlideMaster {
        background: Some(green_fill()),
        ..Default::default()
    };
    let bg = resolve_background(&slide, None, Some(&master));
    assert!(is_rgb(&bg, "00FF00"));
}

#[test]
fn bg_default_white() {
    let slide = Slide::default();
    let bg = resolve_background(&slide, None, None);
    assert!(is_rgb(&bg, "FFFFFF"));
}

#[test]
fn bg_skip_fill_none() {
    let slide = Slide {
        background: Some(Fill::Unset),
        ..Default::default()
    };
    let layout = SlideLayout {
        background: Some(blue_fill()),
        ..Default::default()
    };
    let bg = resolve_background(&slide, Some(&layout), None);
    assert!(is_rgb(&bg, "0000FF"));
}

// -- resolve_shape_fill tests --

#[test]
fn shape_fill_from_shape() {
    let shape = Shape {
        fill: red_fill(),
        ..Default::default()
    };
    let fill = resolve_shape_fill(&shape, None, None);
    assert!(is_rgb(&fill, "FF0000"));
}

#[test]
fn shape_fill_from_layout_match() {
    let shape = Shape::default();
    let layout_match = Shape {
        fill: blue_fill(),
        ..Default::default()
    };
    let fill = resolve_shape_fill(&shape, Some(&layout_match), None);
    assert!(is_rgb(&fill, "0000FF"));
}

#[test]
fn shape_fill_from_master_match() {
    let shape = Shape::default();
    let layout_match = Shape::default();
    let master_match = Shape {
        fill: green_fill(),
        ..Default::default()
    };
    let fill = resolve_shape_fill(&shape, Some(&layout_match), Some(&master_match));
    assert!(is_rgb(&fill, "00FF00"));
}

#[test]
fn shape_fill_none_when_all_none() {
    let shape = Shape::default();
    let fill = resolve_shape_fill(&shape, None, None);
    assert!(matches!(fill, Fill::Unset));
}

// -- resolve_position tests --

#[test]
fn position_from_shape() {
    let shape = Shape {
        position: Position {
            x: Emu(100),
            y: Emu(200),
        },
        size: Size {
            width: Emu(500),
            height: Emu(300),
        },
        ..Default::default()
    };
    let (pos, sz) = resolve_position(&shape, None, None);
    assert_eq!(pos.x, Emu(100));
    assert_eq!(sz.width, Emu(500));
}

#[test]
fn position_fallback_to_layout() {
    let shape = Shape::default();
    let layout_match = Shape {
        position: Position {
            x: Emu(1000),
            y: Emu(2000),
        },
        size: Size {
            width: Emu(5000),
            height: Emu(3000),
        },
        ..Default::default()
    };
    let (pos, sz) = resolve_position(&shape, Some(&layout_match), None);
    assert_eq!(pos.x, Emu(1000));
    assert_eq!(sz.width, Emu(5000));
}

#[test]
fn position_fallback_to_master() {
    let shape = Shape::default();
    let layout_match = Shape::default();
    let master_match = Shape {
        position: Position {
            x: Emu(9000),
            y: Emu(8000),
        },
        size: Size {
            width: Emu(7000),
            height: Emu(6000),
        },
        ..Default::default()
    };
    let (pos, sz) = resolve_position(&shape, Some(&layout_match), Some(&master_match));
    assert_eq!(pos.x, Emu(9000));
    assert_eq!(sz.width, Emu(7000));
}

#[test]
fn position_nonzero_position_zero_size_uses_own() {
    let shape = Shape {
        position: Position {
            x: Emu(100),
            y: Emu(200),
        },
        size: Size::default(),
        ..Default::default()
    };
    let layout_match = Shape {
        position: Position {
            x: Emu(5000),
            y: Emu(6000),
        },
        size: Size {
            width: Emu(3000),
            height: Emu(4000),
        },
        ..Default::default()
    };
    let (pos, _) = resolve_position(&shape, Some(&layout_match), None);
    assert_eq!(pos.x, Emu(100));
    assert_eq!(pos.y, Emu(200));
}

#[test]
fn position_zero_position_nonzero_size_uses_own() {
    let shape = Shape {
        position: Position::default(),
        size: Size {
            width: Emu(5000),
            height: Emu(3000),
        },
        ..Default::default()
    };
    let layout_match = Shape {
        position: Position {
            x: Emu(1000),
            y: Emu(2000),
        },
        size: Size {
            width: Emu(5000),
            height: Emu(3000),
        },
        ..Default::default()
    };
    let (pos, _) = resolve_position(&shape, Some(&layout_match), None);
    assert_eq!(pos.x, Emu(0));
    assert_eq!(pos.y, Emu(0));
}

#[test]
fn position_negative_coordinate_uses_own() {
    let shape = Shape {
        position: Position {
            x: Emu(0),
            y: Emu(-6350),
        },
        size: Size {
            width: Emu(9144000),
            height: Emu(952500),
        },
        ..Default::default()
    };
    let layout_match = Shape {
        position: Position {
            x: Emu(628650),
            y: Emu(365125),
        },
        size: Size {
            width: Emu(7886700),
            height: Emu(1325563),
        },
        ..Default::default()
    };
    let (pos, sz) = resolve_position(&shape, Some(&layout_match), None);
    assert_eq!(pos.x, Emu(0));
    assert_eq!(pos.y, Emu(-6350));
    assert_eq!(sz.width, Emu(9144000));
    assert_eq!(sz.height, Emu(952500));
}

// -- resolve_clr_map tests --

#[test]
fn clr_map_from_slide_override() {
    let mut slide_cm = ClrMap::default();
    slide_cm.set("tx1", "accent1");
    let slide = Slide {
        clr_map_ovr: Some(ClrMapOverride::Override(slide_cm)),
        ..Default::default()
    };
    let mut master_cm = ClrMap::default();
    master_cm.set("tx1", "dk1");
    let master = SlideMaster {
        clr_map: master_cm,
        ..Default::default()
    };
    let resolved = resolve_clr_map(&slide, None, &master);
    assert_eq!(resolved.get("tx1"), Some(&"accent1".to_string()));
}

#[test]
fn clr_map_from_layout_override() {
    let slide = Slide::default();
    let mut layout_cm = ClrMap::default();
    layout_cm.set("tx1", "accent2");
    let layout = SlideLayout {
        clr_map_ovr: Some(ClrMapOverride::Override(layout_cm)),
        ..Default::default()
    };
    let mut master_cm = ClrMap::default();
    master_cm.set("tx1", "dk1");
    let master = SlideMaster {
        clr_map: master_cm,
        ..Default::default()
    };
    let resolved = resolve_clr_map(&slide, Some(&layout), &master);
    assert_eq!(resolved.get("tx1"), Some(&"accent2".to_string()));
}

#[test]
fn clr_map_fallback_to_master() {
    let slide = Slide::default();
    let mut master_cm = ClrMap::default();
    master_cm.set("tx1", "dk1");
    let master = SlideMaster {
        clr_map: master_cm,
        ..Default::default()
    };
    let resolved = resolve_clr_map(&slide, None, &master);
    assert_eq!(resolved.get("tx1"), Some(&"dk1".to_string()));
}

#[test]
fn clr_map_use_master_directive() {
    let slide = Slide {
        clr_map_ovr: Some(ClrMapOverride::UseMaster),
        ..Default::default()
    };
    let mut master_cm = ClrMap::default();
    master_cm.set("tx1", "dk1");
    let master = SlideMaster {
        clr_map: master_cm,
        ..Default::default()
    };
    let resolved = resolve_clr_map(&slide, None, &master);
    assert_eq!(resolved.get("tx1"), Some(&"dk1".to_string()));
}

#[test]
fn clr_map_slide_override_beats_layout() {
    let mut slide_cm = ClrMap::default();
    slide_cm.set("tx1", "accent3");
    let slide = Slide {
        clr_map_ovr: Some(ClrMapOverride::Override(slide_cm)),
        ..Default::default()
    };
    let mut layout_cm = ClrMap::default();
    layout_cm.set("tx1", "accent2");
    let layout = SlideLayout {
        clr_map_ovr: Some(ClrMapOverride::Override(layout_cm)),
        ..Default::default()
    };
    let mut master_cm = ClrMap::default();
    master_cm.set("tx1", "dk1");
    let master = SlideMaster {
        clr_map: master_cm,
        ..Default::default()
    };
    let resolved = resolve_clr_map(&slide, Some(&layout), &master);
    assert_eq!(resolved.get("tx1"), Some(&"accent3".to_string()));
}
