//! The frame of a shape: which geometry it draws with (its own or a placeholder's), the
//! CSS box it is positioned in with the transform of its rotation and flips, the fill,
//! outline and shadows of that box, and the two kinds of content drawn without text:
//! pictures and placeholders for elements the renderer cannot draw.
use vstd::prelude::*;
use vstd::seq_lib::lemma_concat_associative;

use crate::model::fill::{Border, BorderStyle, Fill};
use crate::model::hierarchy::FmtScheme;
use crate::model::shape::{
    ChartData, PictureData, Position, Shape, ShapeEffects, ShapeType, Size, UnresolvedType, UnsupportedData,
};
use crate::renderer::context::{
    base64_encodable, data_url, elements_view, spec_asset_path, spec_data_url, RenderCollector, RenderCtx,
    UnresolvedElement, UnresolvedRecord,
};
use crate::renderer::effects::{css_or, push_color_or, spec_box_shadows};
use crate::renderer::fill_css::{
    fill_css_collector, fill_css_ready, image_mime, join_comma, next_asset_path, spec_fill_to_css,
    HtmlRenderer,
};
use crate::renderer::slide::lemma_same_fill_same_css;
use crate::resolver::inheritance::{
    opt, resolve_border_with_theme, resolve_position, resolve_shape_fill_with_theme,
    spec_border_with_theme, spec_resolve_position, spec_shape_fill_with_theme,
};
use crate::renderer::run::opt_str_view;
use crate::renderer::text_style::deref;
use crate::renderer::html::{escape_html, spec_escape_html};
use crate::strings::{
    decimal_digits, fmt_fixed, lemma_decimal_digits_are_digits, lemma_decimal_digits_injective,
    push_decimal_u64, push_fixed, push_str, str_equal,
};

verus! {

// ---------------------------------------------------------------------------
// Geometry inherited from placeholders
// ---------------------------------------------------------------------------

/// Two shape types are of the same kind: the same variant, and for preset geometries the
/// same preset name.
pub open spec fn spec_same_shape_kind(a: ShapeType, b: ShapeType) -> bool {
    match a {
        ShapeType::Rectangle => b is Rectangle,
        ShapeType::TextBox => b is TextBox,
        ShapeType::Ellipse => b is Ellipse,
        ShapeType::RoundedRectangle => b is RoundedRectangle,
        ShapeType::Triangle => b is Triangle,
        ShapeType::Custom(x) => b matches ShapeType::Custom(y) && x@ == y@,
        ShapeType::Picture(_) => b is Picture,
        ShapeType::Table(_) => b is Table,
        ShapeType::Group(_, _) => b is Group,
        ShapeType::Chart(_) => b is Chart,
        ShapeType::CustomGeom => b is CustomGeom,
        ShapeType::Unsupported(_) => b is Unsupported,
    }
}

/// A layout or master shape says something about geometry: it is neither a plain
/// rectangle nor a text box, or it has adjust values, a rotation or a flip.
pub open spec fn carries_geometry(c: Shape) -> bool {
    ||| !(c.shape_type is Rectangle || c.shape_type is TextBox)
    ||| c.adjust_values is Some
    ||| c.rotation != 0
    ||| c.flip_h
    ||| c.flip_v
}

/// Where a placeholder shape takes its geometry from: the matching layout shape if it
/// carries geometry, else the matching master shape if it does; nothing for a shape that
/// is not a placeholder.
pub open spec fn spec_inherited_geometry_source(
    shape: Shape,
    layout_match: Option<Shape>,
    master_match: Option<Shape>,
) -> Option<Shape> {
    if shape.placeholder is None {
        None
    } else if layout_match matches Some(l) && carries_geometry(l) {
        layout_match
    } else if master_match matches Some(m) && carries_geometry(m) {
        master_match
    } else {
        None
    }
}

/// The geometry a shape is drawn with.
pub struct EffectiveGeometry<'a> {
    pub shape_type: &'a ShapeType,
    pub adjust_values: Option<&'a Vec<(String, i64)>>,
    pub rotation: i32,
    pub flip_h: bool,
    pub flip_v: bool,
}

/// The shape type drawn: a text box placeholder takes the type of its geometry source.
pub open spec fn spec_effective_shape_type(shape: Shape, src: Option<Shape>) -> ShapeType {
    match src {
        Some(c) => if shape.shape_type is TextBox {
            c.shape_type
        } else {
            shape.shape_type
        },
        None => shape.shape_type,
    }
}

/// The shape takes adjust values, rotation and flips from its geometry source: it is a
/// text box, or of the same kind as the source.
pub open spec fn inherits_geometry(shape: Shape, src: Option<Shape>) -> bool {
    ||| shape.shape_type is TextBox
    ||| (src matches Some(c) && spec_same_shape_kind(
        spec_effective_shape_type(shape, src),
        c.shape_type,
    ))
}

/// Adjust values drawn with: the shape's own, else those of a source it inherits from.
pub open spec fn spec_effective_adjust_values(shape: Shape, src: Option<Shape>) -> Option<
    Vec<(String, i64)>,
> {
    if shape.adjust_values is Some {
        shape.adjust_values
    } else {
        match src {
            Some(c) => if inherits_geometry(shape, src) {
                c.adjust_values
            } else {
                None
            },
            None => None,
        }
    }
}

/// Rotation drawn with: an unrotated shape that inherits takes the source's rotation.
pub open spec fn spec_effective_rotation(shape: Shape, src: Option<Shape>) -> i32 {
    match src {
        Some(c) => if inherits_geometry(shape, src) && shape.rotation == 0 {
            c.rotation
        } else {
            shape.rotation
        },
        None => shape.rotation,
    }
}

/// A flip drawn with: an unflipped shape that inherits takes the source's flip.
pub open spec fn spec_effective_flip(own: bool, inherited: bool, inherits: bool, has_src: bool) -> bool {
    if inherits && !own && has_src {
        inherited
    } else {
        own
    }
}

impl HtmlRenderer {
    /// Whether two shape types are of the same kind: the same variant, and for preset
    /// geometries the same preset name.
    pub fn same_shape_kind(lhs: &ShapeType, rhs: &ShapeType) -> (r: bool)
        ensures
            r == spec_same_shape_kind(*lhs, *rhs),
    {
        match lhs {
            ShapeType::Rectangle => matches!(rhs, ShapeType::Rectangle),
            ShapeType::TextBox => matches!(rhs, ShapeType::TextBox),
            ShapeType::Ellipse => matches!(rhs, ShapeType::Ellipse),
            ShapeType::RoundedRectangle => matches!(rhs, ShapeType::RoundedRectangle),
            ShapeType::Triangle => matches!(rhs, ShapeType::Triangle),
            ShapeType::Custom(a) => match rhs {
                ShapeType::Custom(b) => str_equal(a.as_str(), b.as_str()),
                _ => false,
            },
            ShapeType::Picture(_) => matches!(rhs, ShapeType::Picture(_)),
            ShapeType::Table(_) => matches!(rhs, ShapeType::Table(_)),
            ShapeType::Group(_, _) => matches!(rhs, ShapeType::Group(_, _)),
            ShapeType::Chart(_) => matches!(rhs, ShapeType::Chart(_)),
            ShapeType::CustomGeom => matches!(rhs, ShapeType::CustomGeom),
            ShapeType::Unsupported(_) => matches!(rhs, ShapeType::Unsupported(_)),
        }
    }

    /// The layout or master shape a placeholder takes its geometry from: the first of
    /// the two matches that is not a plain rectangle or text box, or has adjust values,
    /// a rotation or a flip.
    pub fn inherited_geometry_source<'a>(
        shape: &Shape,
        layout_match: Option<&'a Shape>,
        master_match: Option<&'a Shape>,
    ) -> (r: Option<&'a Shape>)
        ensures
            deref(r) == spec_inherited_geometry_source(
                *shape,
                deref(layout_match),
                deref(master_match),
            ),
    {
        if shape.placeholder.is_none() {
            return None;
        }
        if let Some(l) = layout_match {
            if Self::carries_geometry(l) {
                return Some(l);
            }
        }
        if let Some(m) = master_match {
            if Self::carries_geometry(m) {
                return Some(m);
            }
        }
        None
    }

    fn carries_geometry(c: &Shape) -> (r: bool)
        ensures
            r == carries_geometry(*c),
    {
        !matches!(c.shape_type, ShapeType::Rectangle | ShapeType::TextBox)
            || c.adjust_values.is_some() || c.rotation != 0 || c.flip_h || c.flip_v
    }

    /// The geometry a shape is drawn with. A text box placeholder takes the type of its
    /// geometry source; a text box, or a shape of the same kind as its source, takes the
    /// source's adjust values when it has none, and its rotation and flips when it is
    /// itself unrotated and unflipped.
    pub fn effective_geometry<'a>(
        shape: &'a Shape,
        layout_match: Option<&'a Shape>,
        master_match: Option<&'a Shape>,
    ) -> (r: EffectiveGeometry<'a>)
        ensures
            ({
                let src = spec_inherited_geometry_source(
                    *shape,
                    deref(layout_match),
                    deref(master_match),
                );
                let inh = inherits_geometry(*shape, src);
                &&& *r.shape_type == spec_effective_shape_type(*shape, src)
                &&& deref(r.adjust_values) == spec_effective_adjust_values(*shape, src)
                &&& r.rotation == spec_effective_rotation(*shape, src)
                &&& r.flip_h == spec_effective_flip(
                    shape.flip_h,
                    src.unwrap().flip_h,
                    inh,
                    src is Some,
                )
                &&& r.flip_v == spec_effective_flip(
                    shape.flip_v,
                    src.unwrap().flip_v,
                    inh,
                    src is Some,
                )
            }),
    {
        let src = Self::inherited_geometry_source(shape, layout_match, master_match);
        let is_text_box = matches!(shape.shape_type, ShapeType::TextBox);
        let shape_type: &'a ShapeType = match src {
            Some(c) => if is_text_box {
                &c.shape_type
            } else {
                &shape.shape_type
            },
            None => &shape.shape_type,
        };
        let inherits = is_text_box || match src {
            Some(c) => Self::same_shape_kind(shape_type, &c.shape_type),
            None => false,
        };
        let adjust_values: Option<&'a Vec<(String, i64)>> = match &shape.adjust_values {
            Some(a) => Some(a),
            None => match src {
                Some(c) => if inherits {
                    match &c.adjust_values {
                        Some(a) => Some(a),
                        None => None,
                    }
                } else {
                    None
                },
                None => None,
            },
        };
        let (rotation, flip_h, flip_v) = match src {
            Some(c) => (
                if inherits && shape.rotation == 0 {
                    c.rotation
                } else {
                    shape.rotation
                },
                if inherits && !shape.flip_h {
                    c.flip_h
                } else {
                    shape.flip_h
                },
                if inherits && !shape.flip_v {
                    c.flip_v
                } else {
                    shape.flip_v
                },
            ),
            None => (shape.rotation, shape.flip_h, shape.flip_v),
        };
        EffectiveGeometry { shape_type, adjust_values, rotation, flip_h, flip_v }
    }
}


// ---------------------------------------------------------------------------
// The CSS box
// ---------------------------------------------------------------------------

/// The preset geometry a shape type is drawn with as SVG.
pub open spec fn spec_svg_preset_name(t: ShapeType) -> Option<Seq<char>> {
    match t {
        ShapeType::Ellipse => Some("ellipse"@),
        ShapeType::RoundedRectangle => Some("roundRect"@),
        ShapeType::Triangle => Some("triangle"@),
        ShapeType::Custom(name) => Some(name@),
        _ => None,
    }
}

/// The line and connector presets.
pub open spec fn spec_is_line_preset(name: Seq<char>) -> bool {
    ||| name == "line"@
    ||| name == "lineInv"@
    ||| name == "straightConnector1"@
    ||| name == "bentConnector2"@
    ||| name == "bentConnector3"@
    ||| name == "bentConnector4"@
    ||| name == "bentConnector5"@
    ||| name == "curvedConnector2"@
    ||| name == "curvedConnector3"@
    ||| name == "curvedConnector4"@
    ||| name == "curvedConnector5"@
}

/// `|a - b|` is under one degree, in 60000ths of a degree.
pub open spec fn within_one_degree(a: int, b: int) -> bool {
    b - 60000 < a < b + 60000
}

/// A connector turned by about 90 or 270 degrees: its box is laid out with width and
/// height exchanged, and its turn is not drawn as a CSS rotation.
pub open spec fn spec_connector_needs_swap(preset: Option<Seq<char>>, rotation: int) -> bool {
    &&& preset matches Some(n) && spec_is_line_preset(n)
    &&& (within_one_degree(rotation, 5400000) || within_one_degree(rotation, 16200000))
}

/// A length in EMU as CSS pixels with one decimal.
pub open spec fn px(emu: int) -> Seq<char> {
    fmt_fixed(emu, 9525, 1)
}

/// `-1` for a flipped axis, else `1`.
pub open spec fn flip_sign(flip: bool) -> Seq<char> {
    if flip {
        "-1"@
    } else {
        "1"@
    }
}

/// The CSS transform of a rotation (60000ths of a degree) and flips: a scale for the
/// flips, then the rotation in degrees with one decimal; nothing when neither is set.
pub open spec fn spec_transform_css(rotation: int, flip_h: bool, flip_v: bool) -> Seq<char> {
    let deg = fmt_fixed(rotation, 60000, 1);
    if flip_h || flip_v {
        "; transform: scale("@ + flip_sign(flip_h) + ","@ + flip_sign(flip_v) + ")"@ + (if rotation
            != 0 {
            " rotate("@ + deg + "deg)"@
        } else {
            Seq::empty()
        })
    } else if rotation != 0 {
        "; transform: rotate("@ + deg + "deg)"@
    } else {
        Seq::empty()
    }
}

/// The box of a shape in EMU (left, top, width, height): between the two end points of
/// an attached connector, else the shape's position and size.
pub open spec fn spec_box(pos: Position, size: Size, anchor: Option<(i64, i64, i64, i64)>) -> (
    int,
    int,
    int,
    int,
) {
    match anchor {
        Some((x1, y1, x2, y2)) => (
            if x1 <= x2 {
                x1 as int
            } else {
                x2 as int
            },
            if y1 <= y2 {
                y1 as int
            } else {
                y2 as int
            },
            if x1 <= x2 {
                x2 - x1
            } else {
                x1 - x2
            },
            if y1 <= y2 {
                y2 - y1
            } else {
                y1 - y2
            },
        ),
        None => (pos.x.0 as int, pos.y.0 as int, size.width.0 as int, size.height.0 as int),
    }
}

/// `left`, `top`, `width` and `height` in CSS pixels.
pub open spec fn box_css(left: Seq<char>, top: Seq<char>, width: Seq<char>, height: Seq<char>) -> Seq<
    char,
> {
    "left: "@ + left + "px; top: "@ + top + "px; width: "@ + width + "px; height: "@ + height
        + "px"@
}

/// The inline style that positions a shape. A swapped connector keeps the centre of its
/// box with width and height exchanged and draws no rotation; other shapes get the
/// transform of their rotation and flips. A line or connector less than half a pixel
/// wide (or else high) is drawn two pixels wide (high), one pixel before its position.
#[verifier::opaque]
pub open spec fn spec_shape_box_style(
    pos: Position,
    size: Size,
    anchor: Option<(i64, i64, i64, i64)>,
    rotation: int,
    flip_h: bool,
    flip_v: bool,
    preset: Option<Seq<char>>,
) -> Seq<char> {
    let (x, y, w0, h0) = spec_box(pos, size, anchor);
    let swap = spec_connector_needs_swap(preset, rotation);
    let w = if swap {
        h0
    } else {
        w0
    };
    let h = if swap {
        w0
    } else {
        h0
    };
    if preset matches Some(n) && spec_is_line_preset(n) && 2 * w < 9525 {
        narrow_line_css(x, y, h)
    } else if preset matches Some(n) && spec_is_line_preset(n) && 2 * h < 9525 {
        flat_line_css(x, y, w)
    } else {
        placed_css(x, y, w, h, size, swap, rotation, flip_h, flip_v)
    }
}

/// A line too narrow to see: two pixels wide, one pixel to the left.
#[verifier::opaque]
pub open spec fn narrow_line_css(x: int, y: int, h: int) -> Seq<char> {
    "left: "@ + px(x - 9525) + "px; top: "@ + px(y) + "px; width: 2px; height: "@ + px(h) + "px"@
}

/// A line too flat to see: two pixels high, one pixel up.
#[verifier::opaque]
pub open spec fn flat_line_css(x: int, y: int, w: int) -> Seq<char> {
    "left: "@ + px(x) + "px; top: "@ + px(y - 9525) + "px; width: "@ + px(w) + "px; height: 2px"@
}

/// The box of a shape; a swapped connector keeps the centre of its frame `size`.
#[verifier::opaque]
pub open spec fn placed_css(
    x: int,
    y: int,
    w: int,
    h: int,
    size: Size,
    swap: bool,
    rotation: int,
    flip_h: bool,
    flip_v: bool,
) -> Seq<char> {
    let sw = size.width.0 as int;
    let sh = size.height.0 as int;
    if swap {
        box_css(
            fmt_fixed(2 * x + sw - sh, 19050, 1),
            fmt_fixed(2 * y + sh - sw, 19050, 1),
            px(w),
            px(h),
        )
    } else {
        box_css(px(x), px(y), px(w), px(h)) + spec_transform_css(rotation, flip_h, flip_v)
    }
}

impl HtmlRenderer {
    /// The preset geometry a shape type is drawn with as SVG: ellipse, roundRect and
    /// triangle for those types, the preset's own name for a custom preset, else none.
    pub fn svg_preset_name(t: &ShapeType) -> (r: Option<&str>)
        ensures
            match r {
                Some(n) => spec_svg_preset_name(*t) == Some(n@),
                None => spec_svg_preset_name(*t) is None,
            },
    {
        match t {
            ShapeType::Ellipse => Some("ellipse"),
            ShapeType::RoundedRectangle => Some("roundRect"),
            ShapeType::Triangle => Some("triangle"),
            ShapeType::Custom(name) => Some(name.as_str()),
            _ => None,
        }
    }

    /// Whether a preset is a line or a connector.
    pub fn is_line_preset(name: &str) -> (r: bool)
        ensures
            r == spec_is_line_preset(name@),
    {
        str_equal(name, "line") || str_equal(name, "lineInv") || str_equal(
            name,
            "straightConnector1",
        ) || str_equal(name, "bentConnector2") || str_equal(name, "bentConnector3")
            || str_equal(name, "bentConnector4") || str_equal(name, "bentConnector5")
            || str_equal(name, "curvedConnector2") || str_equal(name, "curvedConnector3")
            || str_equal(name, "curvedConnector4") || str_equal(name, "curvedConnector5")
    }

    /// Whether a connector is turned by about 90 or 270 degrees (within one degree), so
    /// that its box is laid out with width and height exchanged.
    pub fn connector_needs_swap(preset: Option<&str>, rotation: i32) -> (r: bool)
        ensures
            r == spec_connector_needs_swap(opt_str_view(preset), rotation as int),
    {
        match preset {
            Some(n) => {
                let r = rotation as i64;
                Self::is_line_preset(n) && ((5400000 - 60000 < r && r < 5400000 + 60000) || (
                16200000 - 60000 < r && r < 16200000 + 60000))
            },
            None => false,
        }
    }

    /// The inline style that positions a shape: its box in CSS pixels (between the end
    /// points of an attached connector, in EMU, when given), with the transform of its
    /// rotation and flips; see `spec_shape_box_style`.
    #[verifier::rlimit(50)]
    pub fn shape_box_style(
        pos: &Position,
        size: &Size,
        anchor: Option<(i64, i64, i64, i64)>,
        geometry: &EffectiveGeometry<'_>,
        preset: Option<&str>,
    ) -> (r: String)
        ensures
            r@ == spec_shape_box_style(
                *pos,
                *size,
                anchor,
                geometry.rotation as int,
                geometry.flip_h,
                geometry.flip_v,
                opt_str_view(preset),
            ),
            r@.len() > 0,
    {
        reveal(spec_shape_box_style);
        let (x, y, w0, h0): (i128, i128, i128, i128) = match anchor {
            Some((x1, y1, x2, y2)) => (
                if x1 <= x2 {
                    x1 as i128
                } else {
                    x2 as i128
                },
                if y1 <= y2 {
                    y1 as i128
                } else {
                    y2 as i128
                },
                if x1 <= x2 {
                    x2 as i128 - x1 as i128
                } else {
                    x1 as i128 - x2 as i128
                },
                if y1 <= y2 {
                    y2 as i128 - y1 as i128
                } else {
                    y1 as i128 - y2 as i128
                },
            ),
            None => (pos.x.0 as i128, pos.y.0 as i128, size.width.0 as i128, size.height.0 as i128),
        };
        let swap = Self::connector_needs_swap(preset, geometry.rotation);
        let (w, h) = if swap {
            (h0, w0)
        } else {
            (w0, h0)
        };
        let is_line = match preset {
            Some(n) => Self::is_line_preset(n),
            None => false,
        };
        let mut s = String::new();
        if is_line && 2 * w < 9525 {
            Self::push_narrow_line(&mut s, x, y, h);
        } else if is_line && 2 * h < 9525 {
            Self::push_flat_line(&mut s, x, y, w);
        } else {
            Self::push_placed(&mut s, x, y, w, h, size, swap, geometry.rotation, geometry.flip_h, geometry.flip_v);
        }
        s
    }

    fn push_narrow_line(s: &mut String, x: i128, y: i128, h: i128)
        requires
            i64::MIN <= x <= i64::MAX,
            i64::MIN <= y <= i64::MAX,
            -2 * i64::MAX - 2 <= h <= 2 * i64::MAX + 2,
        ensures
            final(s)@ == old(s)@ + narrow_line_css(x as int, y as int, h as int),
            final(s)@.len() > old(s)@.len(),
    {
        reveal(narrow_line_css);
        proof {
            reveal_strlit("left: ");
        }
        push_str(s, "left: ");
        push_fixed(s, x - 9525, 9525, 1);
        push_str(s, "px; top: ");
        push_fixed(s, y, 9525, 1);
        push_str(s, "px; width: 2px; height: ");
        push_fixed(s, h, 9525, 1);
        push_str(s, "px");
        proof {
            assert(s@ =~= old(s)@ + narrow_line_css(x as int, y as int, h as int));
        }
    }

    fn push_flat_line(s: &mut String, x: i128, y: i128, w: i128)
        requires
            i64::MIN <= x <= i64::MAX,
            i64::MIN <= y <= i64::MAX,
            -2 * i64::MAX - 2 <= w <= 2 * i64::MAX + 2,
        ensures
            final(s)@ == old(s)@ + flat_line_css(x as int, y as int, w as int),
            final(s)@.len() > old(s)@.len(),
    {
        reveal(flat_line_css);
        proof {
            reveal_strlit("left: ");
        }
        push_str(s, "left: ");
        push_fixed(s, x, 9525, 1);
        push_str(s, "px; top: ");
        push_fixed(s, y - 9525, 9525, 1);
        push_str(s, "px; width: ");
        push_fixed(s, w, 9525, 1);
        push_str(s, "px; height: 2px");
        proof {
            assert(s@ =~= old(s)@ + flat_line_css(x as int, y as int, w as int));
        }
    }

    #[verifier::rlimit(50)]
    fn push_placed(
        s: &mut String,
        x: i128,
        y: i128,
        w: i128,
        h: i128,
        size: &Size,
        swap: bool,
        rotation: i32,
        flip_h: bool,
        flip_v: bool,
    )
        requires
            i64::MIN <= x <= i64::MAX,
            i64::MIN <= y <= i64::MAX,
            -2 * i64::MAX - 2 <= w <= 2 * i64::MAX + 2,
            -2 * i64::MAX - 2 <= h <= 2 * i64::MAX + 2,
        ensures
            final(s)@ == old(s)@ + placed_css(
                x as int,
                y as int,
                w as int,
                h as int,
                *size,
                swap,
                rotation as int,
                flip_h,
                flip_v,
            ),
            final(s)@.len() > old(s)@.len(),
    {
        reveal(placed_css);
        proof {
            reveal_strlit("left: ");
        }
        let sw = size.width.0 as i128;
        let sh = size.height.0 as i128;
        push_str(s, "left: ");
        if swap {
            push_fixed(s, 2 * x + sw - sh, 19050, 1);
        } else {
            push_fixed(s, x, 9525, 1);
        }
        push_str(s, "px; top: ");
        if swap {
            push_fixed(s, 2 * y + sh - sw, 19050, 1);
        } else {
            push_fixed(s, y, 9525, 1);
        }
        push_str(s, "px; width: ");
        push_fixed(s, w, 9525, 1);
        push_str(s, "px; height: ");
        push_fixed(s, h, 9525, 1);
        push_str(s, "px");
        if !swap {
            Self::push_transform_css(s, rotation, flip_h, flip_v);
        }
        proof {
            assert(s@ =~= old(s)@ + placed_css(
                x as int,
                y as int,
                w as int,
                h as int,
                *size,
                swap,
                rotation as int,
                flip_h,
                flip_v,
            ));
        }
    }

    /// Appends the CSS transform of a rotation and flips (see `spec_transform_css`).
    pub fn push_transform_css(out: &mut String, rotation: i32, flip_h: bool, flip_v: bool)
        ensures
            final(out)@ == old(out)@ + spec_transform_css(rotation as int, flip_h, flip_v),
    {
        if flip_h || flip_v {
            push_str(out, "; transform: scale(");
            push_str(out, if flip_h { "-1" } else { "1" });
            push_str(out, ",");
            push_str(out, if flip_v { "-1" } else { "1" });
            push_str(out, ")");
            if rotation != 0 {
                push_str(out, " rotate(");
                push_fixed(out, rotation as i128, 60000, 1);
                push_str(out, "deg)");
            }
        } else if rotation != 0 {
            push_str(out, "; transform: rotate(");
            push_fixed(out, rotation as i128, 60000, 1);
            push_str(out, "deg)");
        }
    }
}


// ---------------------------------------------------------------------------
// Fill, outline and shadows of the box
// ---------------------------------------------------------------------------

/// A shape type drawn as SVG: a preset geometry or a custom geometry.
pub open spec fn spec_uses_svg(t: ShapeType) -> bool {
    spec_svg_preset_name(t) is Some || t is CustomGeom
}

/// The effects of a shape: its own outer shadow and glow when it sets one, else what its
/// style's effect reference selects from the theme.
pub open spec fn spec_resolve_shape_effects(shape: Shape, theme_effects: Option<ShapeEffects>) -> Option<
    ShapeEffects,
> {
    if shape.effects.outer_shadow is Some || shape.effects.glow is Some {
        Some(shape.effects)
    } else {
        theme_effects
    }
}

/// The CSS keyword of a border style.
pub open spec fn border_style_css(s: BorderStyle) -> Seq<char> {
    match s {
        BorderStyle::Solid => "solid"@,
        BorderStyle::Dashed => "dashed"@,
        BorderStyle::Dotted => "dotted"@,
        BorderStyle::NoLine => "none"@,
    }
}

/// A border as a CSS outline drawn half inside the box: width in points, style, color
/// (black when it does not resolve), and an offset of minus half the width.
pub open spec fn spec_outline_css(b: Border, ctx: RenderCtx) -> Seq<char> {
    "; outline: "@ + fmt_fixed(b.width as int, 12700, 1) + "pt "@ + border_style_css(b.style) + " "@
        + css_or(ctx, b.color, "#000"@) + "; outline-offset: "@ + fmt_fixed(
        -(b.width as int),
        25400,
        1,
    ) + "pt"@
}

/// The outline of a border with a width, then the effects as `box-shadow` when they
/// give any shadow.
pub open spec fn spec_lines_css(border: Border, effects: Option<ShapeEffects>, ctx: RenderCtx) -> Seq<
    char,
> {
    (if border.width > 0 {
        spec_outline_css(border, ctx)
    } else {
        Seq::empty()
    }) + (if effects is Some && spec_box_shadows(effects.unwrap(), ctx).len() > 0 {
        "; box-shadow: "@ + join_comma(spec_box_shadows(effects.unwrap(), ctx))
    } else {
        Seq::empty()
    })
}

/// What follows the box in a shape's style. A shape drawn as SVG gets its fill, outline
/// and shadows on the SVG instead; any other shape gets its fill, its outline when the
/// border has a width, and its shadows as `box-shadow`. A cropped picture clips its
/// overflow.
pub open spec fn spec_shape_decoration(
    fill_css: Seq<char>,
    border: Border,
    effects: Option<ShapeEffects>,
    ctx: RenderCtx,
    uses_svg: bool,
    cropped: bool,
) -> Seq<char> {
    (if uses_svg {
        Seq::empty()
    } else {
        (if fill_css.len() > 0 {
            seq![';', ' '] + fill_css
        } else {
            Seq::empty()
        }) + spec_lines_css(border, effects, ctx)
    }) + (if cropped {
        "; overflow: hidden"@
    } else {
        Seq::empty()
    })
}

/// A picture with a crop.
pub open spec fn is_cropped_picture(t: ShapeType) -> bool {
    t matches ShapeType::Picture(p) && p.crop is Some
}

/// The fill a shape is drawn with.
pub open spec fn shape_fill(
    shape: Shape,
    layout_match: Option<Shape>,
    master_match: Option<Shape>,
    ctx: RenderCtx,
    fmt_scheme: Option<FmtScheme>,
) -> Fill {
    spec_shape_fill_with_theme(
        shape,
        layout_match,
        master_match,
        fmt_scheme,
        opt(ctx.scheme),
        opt(ctx.clr_map),
    )
}

/// The border a shape is drawn with.
pub open spec fn shape_border(
    shape: Shape,
    layout_match: Option<Shape>,
    master_match: Option<Shape>,
    ctx: RenderCtx,
    fmt_scheme: Option<FmtScheme>,
) -> Border {
    spec_border_with_theme(
        shape,
        layout_match,
        master_match,
        fmt_scheme,
        opt(ctx.scheme),
        opt(ctx.clr_map),
    )
}

/// The position and size a shape is drawn at: `frame` when given (a group child's frame
/// within its group), else its own along the cascade.
pub open spec fn shape_frame(
    shape: Shape,
    layout_match: Option<Shape>,
    master_match: Option<Shape>,
    frame: Option<(Position, Size)>,
) -> (Position, Size) {
    match frame {
        Some(f) => f,
        None => spec_resolve_position(shape, layout_match, master_match),
    }
}

/// The inline style of a shape's `<div>`: its box, then its fill, outline, shadows and
/// clipping.
#[verifier::opaque]
pub open spec fn spec_shape_style(
    shape: Shape,
    layout_match: Option<Shape>,
    master_match: Option<Shape>,
    frame: Option<(Position, Size)>,
    ctx: RenderCtx,
    fmt_scheme: Option<FmtScheme>,
    anchor: Option<(i64, i64, i64, i64)>,
    theme_effects: Option<ShapeEffects>,
    coll: RenderCollector,
) -> Seq<char> {
    let (pos, size) = shape_frame(shape, layout_match, master_match, frame);
    let src = spec_inherited_geometry_source(shape, layout_match, master_match);
    let t = spec_effective_shape_type(shape, src);
    let inh = inherits_geometry(shape, src);
    let fill = shape_fill(shape, layout_match, master_match, ctx, fmt_scheme);
    spec_shape_box_style(
        pos,
        size,
        anchor,
        spec_effective_rotation(shape, src) as int,
        spec_effective_flip(shape.flip_h, src.unwrap().flip_h, inh, src is Some),
        spec_effective_flip(shape.flip_v, src.unwrap().flip_v, inh, src is Some),
        spec_svg_preset_name(t),
    ) + spec_shape_decoration(
        spec_fill_to_css(fill, ctx, next_asset_path(fill, coll)),
        shape_border(shape, layout_match, master_match, ctx, fmt_scheme),
        spec_resolve_shape_effects(shape, theme_effects),
        ctx,
        spec_uses_svg(t),
        is_cropped_picture(shape.shape_type),
    )
}

impl HtmlRenderer {
    /// The effects a shape is drawn with: its own outer shadow and glow when it sets one,
    /// else `theme_effects`, what its style's effect reference selects from the theme.
    pub fn resolve_shape_effects(shape: &Shape, theme_effects: Option<&ShapeEffects>) -> (r: Option<
        ShapeEffects,
    >)
        ensures
            r == spec_resolve_shape_effects(*shape, deref(theme_effects)),
    {
        match Self::explicit_shape_effects(shape) {
            Some(e) => Some(e),
            None => match theme_effects {
                Some(e) => Some(e.copied()),
                None => None,
            },
        }
    }

    /// Appends a border as a CSS outline (see `spec_outline_css`).
    fn push_outline_css(style: &mut String, border: &Border, ctx: &RenderCtx<'_>)
        ensures
            final(style)@ == old(style)@ + spec_outline_css(*border, *ctx),
    {
        push_str(style, "; outline: ");
        push_fixed(style, border.width as i128, 12700, 1);
        push_str(style, "pt ");
        push_str(
            style,
            match border.style {
                BorderStyle::Solid => "solid",
                BorderStyle::Dashed => "dashed",
                BorderStyle::Dotted => "dotted",
                BorderStyle::NoLine => "none",
            },
        );
        push_str(style, " ");
        push_color_or(style, ctx, &border.color, "#000");
        push_str(style, "; outline-offset: ");
        push_fixed(style, -(border.width as i128), 25400, 1);
        push_str(style, "pt");
    }

    /// Appends the effects as a CSS `box-shadow`, when they give any shadow.
    fn push_box_shadow_css(style: &mut String, effects: &Option<ShapeEffects>, ctx: &RenderCtx<'_>)
        ensures
            final(style)@ == old(style)@ + (if *effects is Some && spec_box_shadows(
                effects.unwrap(),
                *ctx,
            ).len() > 0 {
                "; box-shadow: "@ + join_comma(spec_box_shadows(effects.unwrap(), *ctx))
            } else {
                Seq::<char>::empty()
            }),
    {
        if let Some(e) = effects {
            let shadows = Self::effects_to_box_shadows(e, ctx);
            if shadows.len() > 0 {
                let ghost before = style@;
                push_str(style, "; box-shadow: ");
                push_str(style, shadows[0].as_str());
                let sv = Ghost(spec_box_shadows(*e, *ctx));
                proof {
                    assert(sv@.len() <= 2);
                    assert(sv@[0] == shadows@[0]@);
                }
                if shadows.len() > 1 {
                    push_str(style, ", ");
                    push_str(style, shadows[1].as_str());
                    proof {
                        reveal_strlit(", ");
                        assert(sv@[1] == shadows@[1]@);
                        assert(sv@.drop_last() =~= seq![sv@[0]]);
                        assert(join_comma(sv@.drop_last()) == sv@[0]);
                        assert(join_comma(sv@) == sv@[0] + seq![',', ' '] + sv@[1]);
                        assert(style@ =~= before + "; box-shadow: "@ + join_comma(sv@));
                    }
                } else {
                    proof {
                        assert(style@ =~= before + "; box-shadow: "@ + join_comma(sv@));
                    }
                }
            }
        }
    }

    /// The inline style of a shape's `<div>`: its box (see `shape_box_style`; `frame`
    /// replaces the shape's position and size for a group child), then, for
    /// a shape not drawn as SVG, its fill, its outline and its shadows, and for a cropped
    /// picture the clipping of its overflow. `fmt_scheme` is the primary theme's format
    /// scheme; `theme_effects` what the shape's effect reference selects from it. An
    /// image fill that is not embedded is registered with the collector.
    #[verifier::rlimit(50)]
    pub fn shape_style(
        shape: &Shape,
        layout_match: Option<&Shape>,
        master_match: Option<&Shape>,
        frame: Option<(Position, Size)>,
        ctx: &RenderCtx<'_>,
        fmt_scheme: Option<&FmtScheme>,
        anchor: Option<(i64, i64, i64, i64)>,
        theme_effects: Option<&ShapeEffects>,
        coll: &mut RenderCollector,
    ) -> (r: String)
        requires
            !spec_uses_svg(
                spec_effective_shape_type(
                    *shape,
                    spec_inherited_geometry_source(*shape, deref(layout_match), deref(master_match)),
                ),
            ) ==> fill_css_ready(
                shape_fill(*shape, deref(layout_match), deref(master_match), *ctx, deref(fmt_scheme)),
                *old(coll),
            ),
        ensures
            r@ == spec_shape_style(
                *shape,
                deref(layout_match),
                deref(master_match),
                frame,
                *ctx,
                deref(fmt_scheme),
                anchor,
                deref(theme_effects),
                *old(coll),
            ),
            ({
                let t = spec_effective_shape_type(
                    *shape,
                    spec_inherited_geometry_source(*shape, deref(layout_match), deref(master_match)),
                );
                if spec_uses_svg(t) {
                    *final(coll) == *old(coll)
                } else {
                    fill_css_collector(
                        shape_fill(*shape, deref(layout_match), deref(master_match), *ctx, deref(fmt_scheme)),
                        *ctx,
                        *old(coll),
                        *final(coll),
                    )
                }
            }),
    {
        let (pos, size) = match frame {
            Some(f) => f,
            None => resolve_position(shape, layout_match, master_match),
        };
        let geometry = Self::effective_geometry(shape, layout_match, master_match);
        let preset = Self::svg_preset_name(geometry.shape_type);
        let uses_svg = preset.is_some() || matches!(geometry.shape_type, ShapeType::CustomGeom);
        let mut style = Self::shape_box_style(&pos, &size, anchor, &geometry, preset);
        let ghost lm = deref(layout_match);
        let ghost mm = deref(master_match);
        let ghost fill = shape_fill(*shape, lm, mm, *ctx, deref(fmt_scheme));
        let ghost fill_css = spec_fill_to_css(fill, *ctx, next_asset_path(fill, *old(coll)));
        let ghost fill_part = if fill_css.len() > 0 {
            seq![';', ' '] + fill_css
        } else {
            Seq::<char>::empty()
        };
        let ghost lines = spec_lines_css(
            shape_border(*shape, lm, mm, *ctx, deref(fmt_scheme)),
            spec_resolve_shape_effects(*shape, deref(theme_effects)),
            *ctx,
        );
        let ghost b = style@;
        if !uses_svg {
            Self::push_shape_fill_css(&mut style, shape, layout_match, master_match, ctx, fmt_scheme, coll);
            Self::push_shape_lines_css(&mut style, shape, layout_match, master_match, ctx, fmt_scheme, theme_effects);
            proof {
                lemma_concat_associative(b, fill_part, lines);
            }
        }
        let ghost middle = if uses_svg {
            Seq::<char>::empty()
        } else {
            fill_part + lines
        };
        proof {
            assert(style@ =~= b + middle);
        }
        let cropped = match &shape.shape_type {
            ShapeType::Picture(pic) => pic.crop.is_some(),
            _ => false,
        };
        if cropped {
            push_str(&mut style, "; overflow: hidden");
        }
        proof {
            let crop_part = if cropped {
                "; overflow: hidden"@
            } else {
                Seq::<char>::empty()
            };
            assert(style@ =~= b + middle + crop_part);
            lemma_concat_associative(b, middle, crop_part);
            reveal(spec_shape_style);
        }
        style
    }

    /// Appends the fill of a shape (when it gives any CSS) after a non-empty style.
    fn push_shape_fill_css(
        style: &mut String,
        shape: &Shape,
        layout_match: Option<&Shape>,
        master_match: Option<&Shape>,
        ctx: &RenderCtx<'_>,
        fmt_scheme: Option<&FmtScheme>,
        coll: &mut RenderCollector,
    )
        requires
            old(style)@.len() > 0,
            fill_css_ready(
                shape_fill(*shape, deref(layout_match), deref(master_match), *ctx, deref(fmt_scheme)),
                *old(coll),
            ),
        ensures
            ({
                let f = shape_fill(*shape, deref(layout_match), deref(master_match), *ctx, deref(fmt_scheme));
                let css = spec_fill_to_css(f, *ctx, next_asset_path(f, *old(coll)));
                final(style)@ == old(style)@ + (if css.len() > 0 {
                    seq![';', ' '] + css
                } else {
                    Seq::<char>::empty()
                })
            }),
            fill_css_collector(
                shape_fill(*shape, deref(layout_match), deref(master_match), *ctx, deref(fmt_scheme)),
                *ctx,
                *old(coll),
                *final(coll),
            ),
    {
        let ghost fill_spec = shape_fill(
            *shape,
            deref(layout_match),
            deref(master_match),
            *ctx,
            deref(fmt_scheme),
        );
        let fill = resolve_shape_fill_with_theme(
            shape,
            layout_match,
            master_match,
            fmt_scheme,
            ctx.scheme,
            ctx.clr_map,
        );
        proof {
            lemma_same_fill_same_css(fill, fill_spec, *ctx, *old(coll));
        }
        Self::fill_to_css_buf(&fill, ctx, coll, style);
        proof {
            let css = spec_fill_to_css(fill_spec, *ctx, next_asset_path(fill_spec, *old(coll)));
            assert(style@ =~= old(style)@ + (if css.len() > 0 {
                seq![';', ' '] + css
            } else {
                Seq::<char>::empty()
            }));
        }
    }

    /// Appends the outline (for a border with a width) and the box shadows of a shape.
    fn push_shape_lines_css(
        style: &mut String,
        shape: &Shape,
        layout_match: Option<&Shape>,
        master_match: Option<&Shape>,
        ctx: &RenderCtx<'_>,
        fmt_scheme: Option<&FmtScheme>,
        theme_effects: Option<&ShapeEffects>,
    )
        ensures
            final(style)@ == old(style)@ + spec_lines_css(
                shape_border(*shape, deref(layout_match), deref(master_match), *ctx, deref(fmt_scheme)),
                spec_resolve_shape_effects(*shape, deref(theme_effects)),
                *ctx,
            ),
    {
        let border = resolve_border_with_theme(
            shape,
            layout_match,
            master_match,
            fmt_scheme,
            ctx.scheme,
            ctx.clr_map,
        );
        if border.width > 0 {
            Self::push_outline_css(style, &border, ctx);
        }
        let effects = Self::resolve_shape_effects(shape, theme_effects);
        Self::push_box_shadow_css(style, &effects, ctx);
    }
}


// ---------------------------------------------------------------------------
// Content the renderer cannot draw
// ---------------------------------------------------------------------------

/// The `data-type` of an unresolved element.
pub open spec fn spec_unresolved_type_attr(t: UnresolvedType) -> Seq<char> {
    match t {
        UnresolvedType::SmartArt => "smartart"@,
        UnresolvedType::OleObject => "ole"@,
        UnresolvedType::MathEquation => "math"@,
        UnresolvedType::CustomGeometry => "custom-geometry"@,
    }
}

/// The placeholder id of the `counter`-th unresolved element, rendered on slide index
/// `slide`.
pub open spec fn spec_unresolved_id(slide: nat, counter: nat) -> Seq<char> {
    "unresolved-s"@ + decimal_digits(slide) + seq!['-', 'e'] + decimal_digits(counter)
}

/// Unresolved elements get distinct placeholder ids: the slide index and the element
/// counter can both be read back from the id.
pub proof fn distinct_unresolved_elements_get_distinct_ids(s1: nat, c1: nat, s2: nat, c2: nat)
    requires
        s1 != s2 || c1 != c2,
    ensures
        spec_unresolved_id(s1, c1) != spec_unresolved_id(s2, c2),
{
    let a = "unresolved-s"@;
    let ds1 = decimal_digits(s1);
    let ds2 = decimal_digits(s2);
    let dc1 = decimal_digits(c1);
    let dc2 = decimal_digits(c2);
    let p1 = spec_unresolved_id(s1, c1);
    let p2 = spec_unresolved_id(s2, c2);
    lemma_decimal_digits_are_digits(s1);
    lemma_decimal_digits_are_digits(s2);
    lemma_decimal_digits_are_digits(c1);
    lemma_decimal_digits_are_digits(c2);
    let k: int = a.len() as int;
    assert(p1 =~= a + ds1 + seq!['-', 'e'] + dc1);
    assert(p2 =~= a + ds2 + seq!['-', 'e'] + dc2);
    if p1 == p2 {
        if ds1.len() < ds2.len() {
            assert(p1[k + ds1.len() as int] == '-');
            assert(p2[k + ds1.len() as int] == ds2[ds1.len() as int]);
        } else if ds2.len() < ds1.len() {
            assert(p2[k + ds2.len() as int] == '-');
            assert(p1[k + ds2.len() as int] == ds1[ds2.len() as int]);
        } else {
            assert forall|i: int| 0 <= i < ds1.len() implies ds1[i] == ds2[i] by {
                assert(p1[k + i] == ds1[i]);
                assert(p2[k + i] == ds2[i]);
            }
            assert(ds1 =~= ds2);
            lemma_decimal_digits_injective(s1, s2);
            let m: int = k + ds1.len() + 2;
            assert(p1.len() == p2.len());
            assert forall|i: int| 0 <= i < dc1.len() implies dc1[i] == dc2[i] by {
                assert(p1[m + i] == dc1[i]);
                assert(p2[m + i] == dc2[i]);
            }
            assert(dc1 =~= dc2);
            lemma_decimal_digits_injective(c1, c2);
        }
    }
}

/// The unresolved elements of a collector are numbered in order: there is one per
/// counted element, and the `i`-th carries the id of element `i` on its slide.
pub open spec fn elements_numbered(c: RenderCollector) -> bool {
    &&& c.elements@.len() == c.counter
    &&& forall|i: int|
        0 <= i < c.elements@.len() ==> (#[trigger] c.elements@[i]).placeholder_id@
            == spec_unresolved_id(c.elements@[i].slide_index as nat, i as nat)
}

/// The unresolved elements a collector records carry distinct placeholder ids, so each
/// placeholder in the HTML can be found again.
pub proof fn numbered_elements_have_distinct_ids(c: RenderCollector, i: int, j: int)
    requires
        elements_numbered(c),
        0 <= i < c.elements@.len(),
        0 <= j < c.elements@.len(),
        i != j,
    ensures
        c.elements@[i].placeholder_id@ != c.elements@[j].placeholder_id@,
{
    distinct_unresolved_elements_get_distinct_ids(
        c.elements@[i].slide_index as nat,
        i as nat,
        c.elements@[j].slide_index as nat,
        j as nat,
    );
}

/// The placeholder `<div>` of an unresolved element: its id, kind and slide index, and
/// its escaped label in brackets.
pub open spec fn spec_unsupported_html(data: UnsupportedData, slide: nat, counter: nat) -> Seq<char> {
    "<div class=\"unresolved-element\" id=\""@ + spec_unresolved_id(slide, counter)
        + "\" data-type=\""@ + spec_unresolved_type_attr(data.element_type) + "\" data-slide=\""@
        + decimal_digits(slide) + "\"><span>["@ + spec_escape_html(data.label@)
        + "]</span></div>\n"@
}

/// The record of an unresolved element: where it was rendered, its kind, placeholder id
/// and raw XML, and its position and size unless they are all zero.
pub open spec fn unresolved_record_ok(
    e: UnresolvedElement,
    data: UnsupportedData,
    pos: Position,
    size: Size,
    slide: nat,
    counter: nat,
) -> bool {
    &&& e.slide_index == slide
    &&& e.element_type == data.element_type
    &&& e.placeholder_id@ == spec_unresolved_id(slide, counter)
    &&& e.raw_xml == data.raw_xml
    &&& e.position == if pos.x.0 != 0 || pos.y.0 != 0 {
        Some(pos)
    } else {
        None
    }
    &&& e.size == if size.width.0 != 0 || size.height.0 != 0 {
        Some(size)
    } else {
        None
    }
}

/// The record of an unresolved element rendered on slide index `slide` as element
/// `counter`, as plain values (see `unresolved_record_ok`).
pub open spec fn spec_record(data: UnsupportedData, pos: Position, size: Size, slide: nat, counter: nat) -> UnresolvedRecord {
    UnresolvedRecord {
        slide_index: slide,
        element_type: data.element_type,
        placeholder_id: spec_unresolved_id(slide, counter),
        position: if pos.x.0 != 0 || pos.y.0 != 0 {
            Some(pos)
        } else {
            None
        },
        size: if size.width.0 != 0 || size.height.0 != 0 {
            Some(size)
        } else {
            None
        },
        raw_xml: match data.raw_xml {
            Some(x) => Some(x@),
            None => None,
        },
    }
}

impl HtmlRenderer {
    /// Renders content the renderer cannot draw (SmartArt, OLE objects, equations) as a
    /// placeholder `<div>` that carries a fresh id `unresolved-s{slide index}-e{n}`, and
    /// records the element with the collector. `pos` and `size` are the shape's resolved
    /// position and size.
    #[verifier::rlimit(50)]
    pub fn render_unsupported(
        data: &UnsupportedData,
        pos: &Position,
        size: &Size,
        coll: &mut RenderCollector,
        html: &mut String,
    )
        requires
            old(coll).counter < usize::MAX,
        ensures
            final(html)@ == old(html)@ + spec_unsupported_html(
                *data,
                old(coll).current_slide_index as nat,
                old(coll).counter as nat,
            ),
            final(coll).counter == old(coll).counter + 1,
            final(coll).elements@.len() == old(coll).elements@.len() + 1,
            final(coll).elements@.drop_last() == old(coll).elements@,
            unresolved_record_ok(
                final(coll).elements@.last(),
                *data,
                *pos,
                *size,
                old(coll).current_slide_index as nat,
                old(coll).counter as nat,
            ),
            final(coll).current_slide_index == old(coll).current_slide_index,
            final(coll).external_assets@ == old(coll).external_assets@,
            final(coll).font_resolution_entries@ == old(coll).font_resolution_entries@,
            final(coll).provenance_entries@ == old(coll).provenance_entries@,
            final(coll).gradient_counter == old(coll).gradient_counter,
            final(coll).marker_counter == old(coll).marker_counter,
            final(coll).asset_counter == old(coll).asset_counter,
            elements_numbered(*old(coll)) ==> elements_numbered(*final(coll)),
            elements_view(final(coll).elements@) == elements_view(old(coll).elements@).push(
                spec_record(*data, *pos, *size, old(coll).current_slide_index as nat, old(coll).counter as nat),
            ),
    {
        let slide = coll.current_slide_index;
        let n = coll.counter;
        let mut id = String::new();
        push_str(&mut id, "unresolved-s");
        push_decimal_u64(&mut id, slide as u64);
        push_str(&mut id, "-e");
        push_decimal_u64(&mut id, n as u64);
        proof {
            reveal_strlit("-e");
            assert(id@ =~= spec_unresolved_id(slide as nat, n as nat));
        }
        coll.counter = n + 1;
        push_str(html, "<div class=\"unresolved-element\" id=\"");
        push_str(html, id.as_str());
        push_str(html, "\" data-type=\"");
        push_str(
            html,
            match data.element_type {
                UnresolvedType::SmartArt => "smartart",
                UnresolvedType::OleObject => "ole",
                UnresolvedType::MathEquation => "math",
                UnresolvedType::CustomGeometry => "custom-geometry",
            },
        );
        push_str(html, "\" data-slide=\"");
        push_decimal_u64(html, slide as u64);
        push_str(html, "\"><span>[");
        let escaped = escape_html(data.label.as_str());
        push_str(html, escaped.as_str());
        push_str(html, "]</span></div>\n");
        let raw_xml = match &data.raw_xml {
            Some(x) => Some(x.clone()),
            None => None,
        };
        let position = if pos.x.0 != 0 || pos.y.0 != 0 {
            Some(*pos)
        } else {
            None
        };
        let extent = if size.width.0 != 0 || size.height.0 != 0 {
            Some(*size)
        } else {
            None
        };
        let ghost before = coll.elements@;
        coll.elements.push(
            UnresolvedElement {
                slide_index: slide,
                element_type: data.element_type,
                placeholder_id: id,
                position,
                size: extent,
                raw_xml,
            },
        );
        proof {
            assert(coll.elements@.drop_last() =~= before);
            assert(coll.elements@.last()@ == spec_record(*data, *pos, *size, slide as nat, n as nat));
            assert(elements_view(coll.elements@) =~= elements_view(before).push(coll.elements@.last()@));
            if elements_numbered(*old(coll)) {
                assert forall|i: int| 0 <= i < coll.elements@.len() implies (
                #[trigger] coll.elements@[i]).placeholder_id@ == spec_unresolved_id(
                    coll.elements@[i].slide_index as nat,
                    i as nat,
                ) by {
                    if i < before.len() {
                        assert(coll.elements@[i] == before[i]);
                    }
                }
            }
        }
    }
}


// ---------------------------------------------------------------------------
// Pictures
// ---------------------------------------------------------------------------

/// The source of a picture: a `data:` URL when images are embedded, else the path it is
/// exported to (`image-{n}` on the current slide).
pub open spec fn spec_picture_src(pic: PictureData, ctx: RenderCtx, coll: RenderCollector) -> Seq<char> {
    picture_src_at(pic, ctx, coll.current_slide_index as int, coll.asset_counter as int)
}

/// The source of a picture rendered on slide index `slide` when `assets` images have been
/// exported before it.
pub open spec fn picture_src_at(pic: PictureData, ctx: RenderCtx, slide: int, assets: int) -> Seq<char> {
    if ctx.embed_images {
        spec_data_url(image_mime(pic.content_type@), pic.data@)
    } else {
        spec_asset_path((slide + 1) as nat, "image"@, assets as nat, image_mime(pic.content_type@))
    }
}

/// The shift (pixels, two decimals) of a cropped image: minus the cut edge `cut`
/// (thousandths of a percent) of the box extent `extent` (EMU), scaled by the image's
/// enlargement (`den` is 9525 times the visible part). A zero shift is written `-0.00`
/// when it comes from a cut that is not negative in a box that is not negative, as a
/// negative zero.
pub open spec fn crop_offset(cut: int, extent: int, den: nat) -> Seq<char> {
    if cut * extent == 0 && (cut >= 0) != (extent < 0) {
        "-"@ + fmt_fixed(0, den, 2)
    } else {
        fmt_fixed(-(cut * extent), den, 2)
    }
}

/// The `<img>` of a picture with source `src` in a box of `width` by `height` EMU. A
/// crop that leaves more than a thousandth of a percent visible each way scales the
/// image so that the visible part fills the box (in percent, two decimals) and shifts it
/// by the cropped left and top edges (in pixels, two decimals); the parent clips the
/// rest. Without a crop, or with a degenerate one, the whole image is shown.
#[verifier::opaque]
pub open spec fn spec_picture_img(pic: PictureData, src: Seq<char>, width: int, height: int) -> Seq<char> {
    match pic.crop {
        Some(c) => {
            let vis_w = 100000 - c.left - c.right;
            let vis_h = 100000 - c.top - c.bottom;
            if vis_w > 1 && vis_h > 1 {
                "<img class=\"shape-image\" src=\""@ + src
                    + "\" alt=\"\" style=\"object-fit: fill; width: "@ + fmt_fixed(
                    10000000,
                    vis_w as nat,
                    2,
                ) + "%; height: "@ + fmt_fixed(10000000, vis_h as nat, 2) + "%; margin-left: "@
                    + crop_offset(c.left as int, width, (9525 * vis_w) as nat) + "px; margin-top: "@
                    + crop_offset(c.top as int, height, (9525 * vis_h) as nat) + "px\">\n"@
            } else {
                "<img class=\"shape-image\" src=\""@ + src + "\" alt=\"\">\n"@
            }
        },
        None => "<img class=\"shape-image\" src=\""@ + src + "\" alt=\"\">\n"@,
    }
}

/// A picture can be rendered from `coll`: its bytes can be base64-encoded and the asset
/// counters can advance.
pub open spec fn picture_ready(pic: PictureData, coll: RenderCollector) -> bool {
    &&& base64_encodable(pic.data@.len())
    &&& coll.current_slide_index < usize::MAX
    &&& coll.asset_counter < usize::MAX
}

proof fn lemma_crop_product_bounds(a: int, b: int)
    requires
        -0x8000_0000 <= a <= 0x7fff_ffff,
        -0x1_0000_0000_0000_0000 <= b <= 0x1_0000_0000_0000_0000,
    ensures
        -0x1_0000_0000_0000_0000_0000_0000 <= a * b <= 0x1_0000_0000_0000_0000_0000_0000,
{
    assert(-0x1_0000_0000_0000_0000_0000_0000 <= a * b <= 0x1_0000_0000_0000_0000_0000_0000)
        by (nonlinear_arith)
        requires
            -0x8000_0000 <= a <= 0x7fff_ffff,
            -0x1_0000_0000_0000_0000 <= b <= 0x1_0000_0000_0000_0000,
    ;
}

impl HtmlRenderer {
    /// Renders a picture that has bytes as an `<img>` in a box of `width` by `height`
    /// EMU (see `spec_picture_img`); its media type is PNG when unknown. A picture that is
    /// not embedded is exported through the collector. A picture without bytes renders
    /// nothing.
    #[verifier::rlimit(50)]
    pub fn render_picture(
        pic: &PictureData,
        width: i128,
        height: i128,
        ctx: &RenderCtx<'_>,
        coll: &mut RenderCollector,
        html: &mut String,
    )
        requires
            picture_ready(*pic, *old(coll)),
            -0x1_0000_0000_0000_0000 <= width <= 0x1_0000_0000_0000_0000,
            -0x1_0000_0000_0000_0000 <= height <= 0x1_0000_0000_0000_0000,
        ensures
            final(html)@ == old(html)@ + if pic.data@.len() == 0 {
                Seq::empty()
            } else {
                spec_picture_img(*pic, spec_picture_src(*pic, *ctx, *old(coll)), width as int, height as int)
            },
            if pic.data@.len() > 0 && !ctx.embed_images {
                &&& final(coll).asset_counter == old(coll).asset_counter + 1
                &&& final(coll).external_assets@.drop_last() == old(coll).external_assets@
                &&& final(coll).external_assets@.len() == old(coll).external_assets@.len() + 1
                &&& final(coll).external_assets@.last().relative_path@ == spec_picture_src(
                    *pic,
                    *ctx,
                    *old(coll),
                )
                &&& final(coll).external_assets@.last().content_type@ == image_mime(
                    pic.content_type@,
                )
                &&& final(coll).external_assets@.last().data@ == pic.data@
            } else {
                &&& final(coll).asset_counter == old(coll).asset_counter
                &&& final(coll).external_assets@ == old(coll).external_assets@
            },
            final(coll).current_slide_index == old(coll).current_slide_index,
            final(coll).gradient_counter == old(coll).gradient_counter,
            final(coll).marker_counter == old(coll).marker_counter,
            final(coll).counter == old(coll).counter,
            final(coll).elements@ == old(coll).elements@,
            final(coll).font_resolution_entries@ == old(coll).font_resolution_entries@,
            final(coll).provenance_entries@ == old(coll).provenance_entries@,
    {
        if pic.data.len() == 0 {
            return;
        }
        let mime: &str = if pic.content_type.as_str().is_empty() {
            "image/png"
        } else {
            pic.content_type.as_str()
        };
        let src = if ctx.embed_images {
            data_url(mime, pic.data.as_slice())
        } else {
            coll.register_external_asset("image", mime, pic.data.as_slice())
        };
        Self::push_picture_img(html, pic, src.as_str(), width, height);
    }
    /// Appends the shift of a cropped image (see `crop_offset`).
    fn push_crop_offset(html: &mut String, cut: i32, extent: i128, den: u128)
        requires
            den > 0,
            -0x1_0000_0000_0000_0000 <= extent <= 0x1_0000_0000_0000_0000,
        ensures
            final(html)@ == old(html)@ + crop_offset(cut as int, extent as int, den as nat),
    {
        proof {
            lemma_crop_product_bounds(cut as int, extent as int);
        }
        if (cut == 0 || extent == 0) && (cut >= 0) != (extent < 0) {
            push_str(html, "-");
            push_fixed(html, 0, den, 2);
            proof {
                let (a, b) = (cut as int, extent as int);
                assert(a * b == 0) by (nonlinear_arith)
                    requires
                        a == 0 || b == 0,
                ;
            }
        } else {
            proof {
                assert(cut as int * extent as int == 0 ==> (cut == 0 || extent == 0)) by (nonlinear_arith);
            }
            push_fixed(html, -(cut as i128 * extent as i128), den, 2);
        }
    }

    /// Appends the `<img>` of a picture (see `spec_picture_img`).
    #[verifier::rlimit(50)]
    fn push_picture_img(html: &mut String, pic: &PictureData, src: &str, width: i128, height: i128)
        requires
            -0x1_0000_0000_0000_0000 <= width <= 0x1_0000_0000_0000_0000,
            -0x1_0000_0000_0000_0000 <= height <= 0x1_0000_0000_0000_0000,
        ensures
            final(html)@ == old(html)@ + spec_picture_img(*pic, src@, width as int, height as int),
    {
        reveal(spec_picture_img);
        push_str(html, "<img class=\"shape-image\" src=\"");
        push_str(html, src);
        match &pic.crop {
            Some(c) => {
                let vis_w: i64 = 100000 - c.left as i64 - c.right as i64;
                let vis_h: i64 = 100000 - c.top as i64 - c.bottom as i64;
                if vis_w > 1 && vis_h > 1 {
                    push_str(html, "\" alt=\"\" style=\"object-fit: fill; width: ");
                    push_fixed(html, 10000000, vis_w as u128, 2);
                    push_str(html, "%; height: ");
                    push_fixed(html, 10000000, vis_h as u128, 2);
                    push_str(html, "%; margin-left: ");
                    Self::push_crop_offset(html, c.left, width, 9525 * vis_w as u128);
                    push_str(html, "px; margin-top: ");
                    Self::push_crop_offset(html, c.top, height, 9525 * vis_h as u128);
                    push_str(html, "px\">\n");
                } else {
                    push_str(html, "\" alt=\"\">\n");
                }
            },
            None => push_str(html, "\" alt=\"\">\n"),
        }
    }

}


// ---------------------------------------------------------------------------
// Charts not drawn directly
// ---------------------------------------------------------------------------

/// The media type of a chart's preview: the one stored, PNG when none is.
pub open spec fn chart_mime(chart: ChartData) -> Seq<char> {
    match chart.preview_mime {
        Some(m) => m@,
        None => "image/png"@,
    }
}

/// The chart has a preview image with bytes.
pub open spec fn has_preview(chart: ChartData) -> bool {
    chart.preview_image matches Some(d) && d@.len() > 0
}

/// The chart's preview is exported next to the HTML.
pub open spec fn exports_preview(chart: ChartData, ctx: RenderCtx) -> bool {
    has_preview(chart) && !ctx.embed_images
}

/// The placeholder drawn for a chart without a preview: a bar-chart icon and its label.
pub open spec fn chart_placeholder() -> Seq<char> {
    "<div class=\"chart-placeholder\"><svg width=\"24\" height=\"24\" viewBox=\"0 0 24 24\" fill=\"none\" stroke=\"currentColor\" stroke-width=\"2\"><rect x=\"3\" y=\"12\" width=\"4\" height=\"9\"/><rect x=\"10\" y=\"7\" width=\"4\" height=\"14\"/><rect x=\"17\" y=\"3\" width=\"4\" height=\"18\"/></svg><span style=\"margin-left:8px\">Chart</span></div>\n"@
}

/// A chart that is not drawn directly, rendered on slide index `slide` after `assets`
/// exported images: its preview as an image (a `data:` URL when images are embedded,
/// else the path `chart-{n}` on the slide it is exported to), else the placeholder.
pub open spec fn spec_chart_fallback_html(chart: ChartData, ctx: RenderCtx, slide: int, assets: int) -> Seq<char> {
    if has_preview(chart) {
        let data = chart.preview_image.unwrap()@;
        "<img class=\"shape-image\" src=\""@ + (if ctx.embed_images {
            spec_data_url(chart_mime(chart), data)
        } else {
            spec_asset_path((slide + 1) as nat, "chart"@, assets as nat, chart_mime(chart))
        }) + "\" alt=\"Chart\">\n"@
    } else {
        chart_placeholder()
    }
}

/// The chart's preview can be rendered from `coll`.
pub open spec fn chart_ready(chart: ChartData, slide: int, assets: int) -> bool {
    &&& slide < usize::MAX
    &&& assets < usize::MAX
    &&& (chart.preview_image matches Some(d) ==> base64_encodable(d@.len()))
}

impl HtmlRenderer {
    /// Renders a chart that is not drawn directly (see `spec_chart_fallback_html`); an
    /// exported preview is registered with the collector.
    pub fn render_chart_fallback(
        chart: &ChartData,
        ctx: &RenderCtx<'_>,
        coll: &mut RenderCollector,
        html: &mut String,
    )
        requires
            chart_ready(*chart, old(coll).current_slide_index as int, old(coll).asset_counter as int),
        ensures
            final(html)@ == old(html)@ + spec_chart_fallback_html(
                *chart,
                *ctx,
                old(coll).current_slide_index as int,
                old(coll).asset_counter as int,
            ),
            if exports_preview(*chart, *ctx) {
                &&& final(coll).asset_counter == old(coll).asset_counter + 1
                &&& final(coll).external_assets@.len() == old(coll).external_assets@.len() + 1
                &&& final(coll).external_assets@.drop_last() == old(coll).external_assets@
                &&& final(coll).external_assets@.last().relative_path@ == spec_asset_path(
                    (old(coll).current_slide_index + 1) as nat,
                    "chart"@,
                    old(coll).asset_counter as nat,
                    chart_mime(*chart),
                )
                &&& final(coll).external_assets@.last().content_type@ == chart_mime(*chart)
                &&& final(coll).external_assets@.last().data@ == chart.preview_image.unwrap()@
            } else {
                &&& final(coll).asset_counter == old(coll).asset_counter
                &&& final(coll).external_assets@ == old(coll).external_assets@
            },
            final(coll).current_slide_index == old(coll).current_slide_index,
            final(coll).gradient_counter == old(coll).gradient_counter,
            final(coll).marker_counter == old(coll).marker_counter,
            final(coll).counter == old(coll).counter,
            final(coll).elements@ == old(coll).elements@,
            final(coll).font_resolution_entries@ == old(coll).font_resolution_entries@,
            final(coll).provenance_entries@ == old(coll).provenance_entries@,
    {
        match &chart.preview_image {
            Some(data) => {
                if data.len() > 0 {
                    let mime: &str = match &chart.preview_mime {
                        Some(m) => m.as_str(),
                        None => "image/png",
                    };
                    let src = if ctx.embed_images {
                        data_url(mime, data.as_slice())
                    } else {
                        coll.register_external_asset("chart", mime, data.as_slice())
                    };
                    let ghost o = html@;
                    push_str(html, "<img class=\"shape-image\" src=\"");
                    push_str(html, src.as_str());
                    push_str(html, "\" alt=\"Chart\">\n");
                    proof {
                        assert(html@ =~= o + spec_chart_fallback_html(
                            *chart,
                            *ctx,
                            old(coll).current_slide_index as int,
                            old(coll).asset_counter as int,
                        ));
                    }
                    return;
                }
            },
            None => {},
        }
        push_str(
            html,
            "<div class=\"chart-placeholder\"><svg width=\"24\" height=\"24\" viewBox=\"0 0 24 24\" fill=\"none\" stroke=\"currentColor\" stroke-width=\"2\"><rect x=\"3\" y=\"12\" width=\"4\" height=\"9\"/><rect x=\"10\" y=\"7\" width=\"4\" height=\"14\"/><rect x=\"17\" y=\"3\" width=\"4\" height=\"18\"/></svg><span style=\"margin-left:8px\">Chart</span></div>\n",
        );
    }
}

} // verus!
