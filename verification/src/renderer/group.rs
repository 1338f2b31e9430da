//! Group shapes: where each child of a group lands on the slide.
use vstd::prelude::*;

use crate::model::shape::{Emu, GroupData, Position, Shape, Size};
use crate::renderer::fill_css::HtmlRenderer;
use crate::resolver::inheritance::{resolve_position, spec_resolve_position};

verus! {

/// `a / b` rounded toward zero, for `b > 0`.
pub open spec fn div_toward_zero(a: int, b: int) -> int {
    if a >= 0 {
        a / b
    } else {
        -((-a) / b)
    }
}

/// `v` clamped to the range of `i64`.
pub open spec fn clamp_i64(v: int) -> int {
    if v > i64::MAX {
        i64::MAX as int
    } else if v < i64::MIN {
        i64::MIN as int
    } else {
        v
    }
}

/// A child coordinate mapped into the group's frame: its distance from the child
/// offset, scaled from the child extent to the group's extent, rounded toward zero.
pub open spec fn scale_coord(v: int, off: int, grp: int, ext: int) -> int {
    clamp_i64(div_toward_zero((v - off) * grp, ext))
}

/// Position and size of a group child relative to the group: with a positive child
/// extent, the child's frame mapped from the child coordinate space onto the group's
/// size; otherwise its offset from the group's position, at its own size.
pub open spec fn spec_group_child_frame(child: Shape, parent: Shape, g: GroupData) -> (Position, Size) {
    let (ppos, psize) = spec_resolve_position(parent, None, None);
    spec_child_frame_at(child, ppos, psize, g)
}

/// Position and size of a group child relative to a group drawn at `ppos` with size
/// `psize` (see `spec_group_child_frame`).
pub open spec fn spec_child_frame_at(child: Shape, ppos: Position, psize: Size, g: GroupData) -> (Position, Size) {
    let ew = g.child_extent.width.0 as int;
    let eh = g.child_extent.height.0 as int;
    if ew > 0 && eh > 0 {
        (
            Position {
                x: Emu(scale_coord(child.position.x.0 as int, g.child_offset.x.0 as int, psize.width.0 as int, ew) as i64),
                y: Emu(scale_coord(child.position.y.0 as int, g.child_offset.y.0 as int, psize.height.0 as int, eh) as i64),
            },
            Size {
                width: Emu(scale_coord(child.size.width.0 as int, 0, psize.width.0 as int, ew) as i64),
                height: Emu(scale_coord(child.size.height.0 as int, 0, psize.height.0 as int, eh) as i64),
            },
        )
    } else {
        (
            Position {
                x: Emu(clamp_i64(child.position.x.0 - ppos.x.0) as i64),
                y: Emu(clamp_i64(child.position.y.0 - ppos.y.0) as i64),
            },
            child.size,
        )
    }
}

fn clamp_to_i64(v: i128) -> (r: i64)
    ensures
        r == clamp_i64(v as int),
{
    if v > i64::MAX as i128 {
        i64::MAX
    } else if v < i64::MIN as i128 {
        i64::MIN
    } else {
        v as i64
    }
}

fn scale_coordinate(v: i64, off: i64, grp: i64, ext: i64) -> (r: i64)
    requires
        ext > 0,
    ensures
        r == scale_coord(v as int, off as int, grp as int, ext as int),
{
    let d: i128 = (v as i128) - (off as i128);
    let g: i128 = grp as i128;
    assert(-0x7fff_ffff_ffff_ffff_8000_0000_0000_0000 <= d * g <= 0x7fff_ffff_ffff_ffff_8000_0000_0000_0000)
        by (nonlinear_arith)
        requires
            -0xffff_ffff_ffff_ffff <= d <= 0xffff_ffff_ffff_ffff,
            -0x8000_0000_0000_0000 <= g <= 0x7fff_ffff_ffff_ffff,
    ;
    let num: i128 = d * g;
    let q: i128 = if num >= 0 {
        ((num as u128) / (ext as u128)) as i128
    } else {
        let mag: u128 = (0 - num) as u128;
        0 - ((mag / (ext as u128)) as i128)
    };
    clamp_to_i64(q)
}

/// A child of a group with the frame it is drawn in.
#[derive(Clone, Copy)]
pub struct PlacedChild<'a> {
    pub shape: &'a Shape,
    pub position: Position,
    pub size: Size,
}

/// The visible children of a group, each with its frame relative to the group.
pub open spec fn spec_group_children(children: Seq<Shape>, parent: Shape, g: GroupData) -> Seq<
    (Shape, Position, Size),
>
    decreases children.len(),
{
    if children.len() == 0 {
        Seq::empty()
    } else {
        let prev = spec_group_children(children.drop_last(), parent, g);
        let c = children.last();
        if c.hidden {
            prev
        } else {
            let (p, s) = spec_group_child_frame(c, parent, g);
            prev.push((c, p, s))
        }
    }
}

/// The values of placed children.
pub open spec fn placed_view(v: Seq<PlacedChild>) -> Seq<(Shape, Position, Size)> {
    v.map_values(|p: PlacedChild| (*p.shape, p.position, p.size))
}

impl HtmlRenderer {
    /// The frame a group child is drawn in, relative to the group (see
    /// `spec_group_child_frame`).
    pub fn group_child_frame(child: &Shape, parent: &Shape, group: &GroupData) -> (r: (Position, Size))
        ensures
            r == spec_group_child_frame(*child, *parent, *group),
    {
        let (ppos, psize) = resolve_position(parent, None, None);
        Self::group_child_frame_at(child, &ppos, &psize, group)
    }

    /// The frame a group child is drawn in, relative to a group drawn at `ppos` with
    /// size `psize` (see `spec_child_frame_at`).
    pub fn group_child_frame_at(child: &Shape, ppos: &Position, psize: &Size, group: &GroupData) -> (r: (
        Position,
        Size,
    ))
        ensures
            r == spec_child_frame_at(*child, *ppos, *psize, *group),
    {
        let ew = group.child_extent.width.0;
        let eh = group.child_extent.height.0;
        if ew > 0 && eh > 0 {
            (
                Position {
                    x: Emu(scale_coordinate(child.position.x.0, group.child_offset.x.0, psize.width.0, ew)),
                    y: Emu(scale_coordinate(child.position.y.0, group.child_offset.y.0, psize.height.0, eh)),
                },
                Size {
                    width: Emu(scale_coordinate(child.size.width.0, 0, psize.width.0, ew)),
                    height: Emu(scale_coordinate(child.size.height.0, 0, psize.height.0, eh)),
                },
            )
        } else {
            (
                Position {
                    x: Emu(clamp_to_i64((child.position.x.0 as i128) - (ppos.x.0 as i128))),
                    y: Emu(clamp_to_i64((child.position.y.0 as i128) - (ppos.y.0 as i128))),
                },
                child.size,
            )
        }
    }

    /// The children of a group to draw, in order: the visible ones, each with its frame
    /// relative to the group.
    pub fn group_children_to_render<'a>(
        children: &'a [Shape],
        parent: &Shape,
        group: &GroupData,
    ) -> (r: Vec<PlacedChild<'a>>)
        ensures
            placed_view(r@) == spec_group_children(children@, *parent, *group),
    {
        let mut placed: Vec<PlacedChild<'a>> = Vec::new();
        let mut i: usize = 0;
        while i < children.len()
            invariant
                i <= children@.len(),
                placed_view(placed@) == spec_group_children(children@.take(i as int), *parent, *group),
            decreases children@.len() - i,
        {
            let c = &children[i];
            let ghost before = placed@;
            if !c.hidden {
                let (position, size) = Self::group_child_frame(c, parent, group);
                placed.push(PlacedChild { shape: c, position, size });
                proof {
                    assert(placed_view(placed@) =~= placed_view(before).push((*c, position, size)));
                }
            }
            proof {
                let t1 = children@.take(i as int + 1);
                assert(t1.drop_last() =~= children@.take(i as int));
                assert(t1.last() == children@[i as int]);
            }
            i = i + 1;
        }
        proof {
            assert(children@.take(children@.len() as int) =~= children@);
        }
        placed
    }
}


} // verus!
