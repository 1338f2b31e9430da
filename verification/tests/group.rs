use pptx2html_core::model::shape::{Emu, GroupData, Position, Shape, Size};
use pptx2html_core::renderer::fill_css::HtmlRenderer;

fn framed(name: &str, x: i64, y: i64, w: i64, h: i64) -> Shape {
    Shape {
        name: name.to_string(),
        position: Position { x: Emu(x), y: Emu(y) },
        size: Size { width: Emu(w), height: Emu(h) },
        ..Default::default()
    }
}

fn group(off_x: i64, off_y: i64, ext_w: i64, ext_h: i64) -> GroupData {
    GroupData {
        child_offset: Position { x: Emu(off_x), y: Emu(off_y) },
        child_extent: Size { width: Emu(ext_w), height: Emu(ext_h) },
    }
}

#[test]
fn group_children_are_scaled_from_the_child_space_onto_the_group() {
    let parent = framed("group", 100, 100, 2000, 1000);
    let g = group(100, 50, 1000, 500);
    let child = framed("child", 600, 300, 100, 50);
    let (pos, size) = HtmlRenderer::group_child_frame(&child, &parent, &g);
    assert_eq!(pos, Position { x: Emu(1000), y: Emu(500) });
    assert_eq!(size, Size { width: Emu(200), height: Emu(100) });
}

#[test]
fn group_child_coordinates_round_toward_zero() {
    let parent = framed("group", 0, 0, 2000, 2000);
    let g = group(0, 0, 3000, 3000);
    let child = framed("child", -1, 2, 1, -2);
    let (pos, size) = HtmlRenderer::group_child_frame(&child, &parent, &g);
    assert_eq!(pos, Position { x: Emu(0), y: Emu(1) });
    assert_eq!(size, Size { width: Emu(0), height: Emu(-1) });
}

#[test]
fn group_without_child_extent_offsets_children_from_the_group() {
    let parent = framed("group", 100, 200, 50, 50);
    let g = group(0, 0, 0, 10);
    let child = framed("child", 150, 260, 30, 40);
    let (pos, size) = HtmlRenderer::group_child_frame(&child, &parent, &g);
    assert_eq!(pos, Position { x: Emu(50), y: Emu(60) });
    assert_eq!(size, Size { width: Emu(30), height: Emu(40) });
}

#[test]
fn hidden_group_children_are_not_drawn() {
    let parent = framed("group", 0, 0, 100, 100);
    let g = group(0, 0, 100, 100);
    let mut hidden = framed("hidden", 10, 10, 10, 10);
    hidden.hidden = true;
    let children = vec![framed("a", 1, 2, 3, 4), hidden, framed("b", 5, 6, 7, 8)];
    let placed = HtmlRenderer::group_children_to_render(&children, &parent, &g);
    let names: Vec<&str> = placed.iter().map(|p| p.shape.name.as_str()).collect();
    assert_eq!(names, vec!["a", "b"]);
    assert_eq!(placed[1].position, Position { x: Emu(5), y: Emu(6) });
    assert_eq!(placed[1].size, Size { width: Emu(7), height: Emu(8) });
}
