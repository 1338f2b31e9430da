//! Fills and outlines of shapes and backgrounds.
use vstd::prelude::*;

use super::color::Color;

verus! {

/// A single-color fill.
#[derive(Debug, Clone, PartialEq, Eq, Default)]
pub struct SolidFill {
    pub color: Color,
}

/// The shape of a gradient.
#[derive(Debug, Clone, Copy, PartialEq, Eq, Default, Structural)]
pub enum GradientType {
    #[default]
    Linear,
    Radial,
    Rectangular,
    Shape,
}

/// One color stop; `position` is in thousandths of a percent (0 to 100000), as in OOXML.
#[derive(Debug, Clone, PartialEq, Eq, Default)]
pub struct GradientStop {
    pub position: i32,
    pub color: Color,
}

/// A gradient fill; `angle` is in 60000ths of a degree, as in OOXML.
#[derive(Debug, Clone, PartialEq, Eq, Default)]
pub struct GradientFill {
    pub stops: Vec<GradientStop>,
    pub angle: i32,
    pub gradient_type: GradientType,
}

/// A picture fill: the encoded image and its media type.
#[derive(Debug, Clone, PartialEq, Eq, Default)]
pub struct ImageFill {
    pub data: Vec<u8>,
    pub content_type: String,
}

/// A fill. `Unset` means "not specified here" (inherit); `NoFill` is an explicit
/// transparent fill that stops inheritance.
#[derive(Debug, Clone, PartialEq, Eq, Default)]
pub enum Fill {
    #[default]
    Unset,
    NoFill,
    Solid(SolidFill),
    Gradient(GradientFill),
    Image(ImageFill),
}

/// CSS-like style of a border line.
#[derive(Debug, Clone, Copy, PartialEq, Eq, Default, Structural)]
pub enum BorderStyle {
    #[default]
    NoLine,
    Solid,
    Dashed,
    Dotted,
}

/// Preset dash pattern of an outline.
#[derive(Debug, Clone, Copy, PartialEq, Eq, Default, Structural)]
pub enum DashStyle {
    #[default]
    Solid,
    Dash,
    Dot,
    DashDot,
    LongDash,
    LongDashDot,
    LongDashDotDot,
    SystemDash,
    SystemDot,
    SystemDashDot,
    SystemDashDotDot,
}

/// Line ending cap.
#[derive(Debug, Clone, Copy, PartialEq, Eq, Default, Structural)]
pub enum LineCap {
    #[default]
    Flat,
    Square,
    Round,
}

/// Line join.
#[derive(Debug, Clone, Copy, PartialEq, Eq, Default, Structural)]
pub enum LineJoin {
    #[default]
    Miter,
    Bevel,
    Round,
}

/// Kind of arrowhead at a line end.
#[derive(Debug, Clone, Copy, PartialEq, Eq, Default, Structural)]
pub enum LineEndType {
    #[default]
    NoEnd,
    Triangle,
    Stealth,
    Diamond,
    Oval,
    Arrow,
}

/// Relative size of an arrowhead.
#[derive(Debug, Clone, Copy, PartialEq, Eq, Default, Structural)]
pub enum LineEndSize {
    Small,
    #[default]
    Medium,
    Large,
}

/// An arrowhead description.
#[derive(Debug, Clone, Copy, PartialEq, Eq, Default, Structural)]
pub struct LineEnd {
    pub end_type: LineEndType,
    pub width: LineEndSize,
    pub length: LineEndSize,
}

/// An outline. `width` is in EMU (12700 per point). `no_fill` records an explicit
/// `<a:noFill/>` inside the line, which stops inheritance. `miter_limit` is in
/// thousandths of a percent, as in OOXML.
#[derive(Debug, Clone, PartialEq, Eq, Default)]
pub struct Border {
    pub width: i64,
    pub color: Color,
    pub style: BorderStyle,
    pub dash_style: DashStyle,
    pub cap: LineCap,
    pub join: LineJoin,
    pub head_end: Option<LineEnd>,
    pub tail_end: Option<LineEnd>,
    pub no_fill: bool,
    pub miter_limit: Option<i32>,
}

/// Two fills hold the same value (for fills that own a vector, the same contents).
pub open spec fn same_fill(a: Fill, b: Fill) -> bool {
    match (a, b) {
        (Fill::Gradient(x), Fill::Gradient(y)) => x.stops@ == y.stops@ && x.angle == y.angle
            && x.gradient_type == y.gradient_type,
        (Fill::Image(x), Fill::Image(y)) => x.data@ == y.data@ && x.content_type == y.content_type,
        _ => a == b,
    }
}

impl Fill {
    /// A copy holding the same value.
    pub fn copied(&self) -> (r: Fill)
        ensures
            same_fill(r, *self),
    {
        match self {
            Fill::Unset => Fill::Unset,
            Fill::NoFill => Fill::NoFill,
            Fill::Solid(sf) => Fill::Solid(SolidFill { color: sf.color.copied() }),
            Fill::Gradient(gf) => {
                let mut stops: Vec<GradientStop> = Vec::new();
                let n = gf.stops.len();
                for i in 0..n
                    invariant
                        n == gf.stops@.len(),
                        stops@ == gf.stops@.take(i as int),
                {
                    let st = &gf.stops[i];
                    stops.push(GradientStop { position: st.position, color: st.color.copied() });
                    proof {
                        assert(gf.stops@.take(i + 1) == gf.stops@.take(i as int).push(gf.stops@[i as int]));
                    }
                }
                proof {
                    assert(gf.stops@.take(n as int) == gf.stops@);
                }
                Fill::Gradient(
                    GradientFill { stops, angle: gf.angle, gradient_type: gf.gradient_type },
                )
            },
            Fill::Image(img) => {
                let data = img.data.clone();
                proof {
                    assert(data@ =~= img.data@);
                }
                Fill::Image(ImageFill { data, content_type: img.content_type.clone() })
            },
        }
    }

    /// The fill is `Fill::Unset` (not specified).
    pub fn is_unset(&self) -> (r: bool)
        ensures
            r == (*self is Unset),
    {
        match self {
            Fill::Unset => true,
            _ => false,
        }
    }

    /// The fill is `Fill::NoFill` (explicitly transparent).
    pub fn is_no_fill(&self) -> (r: bool)
        ensures
            r == (*self is NoFill),
    {
        match self {
            Fill::NoFill => true,
            _ => false,
        }
    }
}

impl Border {
    /// An outline with nothing set: zero width, no color, solid, flat caps, miter joins.
    pub fn empty() -> (r: Border)
        ensures
            r == spec_empty_border(),
    {
        Border {
            width: 0,
            color: Color::none(),
            style: BorderStyle::NoLine,
            dash_style: DashStyle::Solid,
            cap: LineCap::Flat,
            join: LineJoin::Miter,
            head_end: None,
            tail_end: None,
            no_fill: false,
            miter_limit: None,
        }
    }

    /// An identical copy.
    pub fn copied(&self) -> (r: Border)
        ensures
            r == *self,
    {
        Border {
            width: self.width,
            color: self.color.copied(),
            style: self.style,
            dash_style: self.dash_style,
            cap: self.cap,
            join: self.join,
            head_end: self.head_end,
            tail_end: self.tail_end,
            no_fill: self.no_fill,
            miter_limit: self.miter_limit,
        }
    }
}

/// The outline with nothing set.
pub open spec fn spec_empty_border() -> Border {
    Border {
        width: 0,
        color: Color { kind: super::color::ColorKind::Unset },
        style: BorderStyle::NoLine,
        dash_style: DashStyle::Solid,
        cap: LineCap::Flat,
        join: LineJoin::Miter,
        head_end: None,
        tail_end: None,
        no_fill: false,
        miter_limit: None,
    }
}

} // verus!
