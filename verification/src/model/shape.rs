//! Shapes, placeholders and text bodies.
use vstd::prelude::*;

use super::color::Color;
use super::fill::{Border, Fill};
use super::hierarchy::ShapeStyleRef;
use super::table::TableData;
use super::text::{Bullet, RunDefaults, SpacingValue, TextParagraph};

verus! {

/// A length in English Metric Units (914400 per inch, 12700 per point).
#[derive(Debug, Clone, Copy, PartialEq, Eq, Default, Structural)]
pub struct Emu(pub i64);

/// Offset of a shape on the slide.
#[derive(Debug, Clone, Copy, PartialEq, Eq, Default, Structural)]
pub struct Position {
    pub x: Emu,
    pub y: Emu,
}

/// Extent of a shape.
#[derive(Debug, Clone, Copy, PartialEq, Eq, Default, Structural)]
pub struct Size {
    pub width: Emu,
    pub height: Emu,
}

/// The child coordinate space of a group shape: the offset and extent (EMU) in which its
/// children's positions and sizes are given.
#[derive(Debug, Clone, Copy, PartialEq, Eq, Default, Structural)]
pub struct GroupData {
    pub child_offset: Position,
    pub child_extent: Size,
}

/// The role of a placeholder.
#[derive(Debug, Clone, Copy, PartialEq, Eq, Structural)]
pub enum PlaceholderType {
    Title,
    Body,
    CtrTitle,
    SubTitle,
    Dt,
    SldNum,
    Ftr,
    Hdr,
    Obj,
    Chart,
    Tbl,
    ClipArt,
    Dgm,
    Media,
    SldImg,
    Pic,
}

/// The `<p:ph>` element of a shape: its role and index, each optional.
#[derive(Debug, Clone, Copy, PartialEq, Eq, Default, Structural)]
pub struct PlaceholderInfo {
    pub ph_type: Option<PlaceholderType>,
    pub idx: Option<u32>,
}

/// Text auto-fit mode. `Normal` scales text; its values are in thousandths of a percent.
/// `Shrink` lets the box grow with its text.
#[derive(Debug, Clone, Copy, PartialEq, Eq, Default, Structural)]
pub enum AutoFit {
    #[default]
    NoAutofit,
    Normal { font_scale: Option<i32>, line_spacing_reduction: Option<i32> },
    Shrink,
}

/// Vertical anchoring of text in its box.
#[derive(Debug, Clone, Copy, PartialEq, Eq, Default, Structural)]
pub enum VerticalAlign {
    #[default]
    Top,
    Middle,
    Bottom,
}

/// Insets of a text box, in EMU.
#[derive(Debug, Clone, Copy, PartialEq, Eq, Default, Structural)]
pub struct TextMargins {
    pub left: i64,
    pub right: i64,
    pub top: i64,
    pub bottom: i64,
}

/// Paragraph defaults of one list level; `margin_left` and `indent` in EMU.
#[derive(Debug, Clone, PartialEq, Eq, Default)]
pub struct ParagraphDefaults {
    pub margin_left: Option<i64>,
    pub indent: Option<i64>,
    pub line_spacing: Option<SpacingValue>,
    pub space_before: Option<SpacingValue>,
    pub space_after: Option<SpacingValue>,
    pub bullet: Option<Bullet>,
    pub def_run_props: Option<RunDefaults>,
}

/// Paragraph defaults for the nine list levels.
#[derive(Debug, Clone, PartialEq, Eq, Default)]
pub struct ListStyle {
    pub levels: [Option<ParagraphDefaults>; 9],
}

/// Body properties of a shape's text. The `*_explicit` flags record whether the
/// attribute was present in the document (otherwise the value is a default that the
/// layout or master may override). `text_rotation` is in 60000ths of a degree.
#[derive(Debug, Clone, PartialEq, Eq, Default)]
pub struct TextBody {
    pub auto_fit: AutoFit,
    pub vertical_align: VerticalAlign,
    pub vertical_align_explicit: bool,
    pub word_wrap: bool,
    pub word_wrap_explicit: bool,
    pub anchor_center: bool,
    pub text_rotation: i32,
    pub margins: TextMargins,
    pub margin_left_explicit: bool,
    pub margin_right_explicit: bool,
    pub margin_top_explicit: bool,
    pub margin_bottom_explicit: bool,
    pub list_style: Option<ListStyle>,
    pub paragraphs: Vec<TextParagraph>,
}

/// How a custom geometry path is filled.
#[derive(Debug, Clone, Copy, PartialEq, Eq, Default, Structural)]
pub enum PathFill {
    #[default]
    Norm,
    NoFill,
    Lighten,
    LightenLess,
    Darken,
    DarkenLess,
}

/// An outer shadow, with its offset already resolved into horizontal and vertical
/// components; offsets and blur in EMU.
#[derive(Debug, Clone, PartialEq, Eq, Default)]
pub struct OuterShadow {
    pub blur_radius: i64,
    pub offset_x: i64,
    pub offset_y: i64,
    pub color: Color,
}

/// A glow: radius in EMU.
#[derive(Debug, Clone, PartialEq, Eq, Default)]
pub struct Glow {
    pub radius: i64,
    pub color: Color,
}

/// Visual effects of a shape.
#[derive(Debug, Clone, PartialEq, Eq, Default)]
pub struct ShapeEffects {
    pub outer_shadow: Option<OuterShadow>,
    pub glow: Option<Glow>,
}

/// The kind of element that the renderer cannot draw and marks for later resolution.
#[derive(Debug, Clone, Copy, PartialEq, Eq, Structural)]
pub enum UnresolvedType {
    SmartArt,
    OleObject,
    MathEquation,
    CustomGeometry,
}

/// Content the renderer cannot draw: its kind, a label to show, and its raw XML.
#[derive(Debug, Clone, PartialEq, Eq)]
pub struct UnsupportedData {
    pub label: String,
    pub element_type: UnresolvedType,
    pub raw_xml: Option<String>,
}

/// The `srcRect` crop of a picture: how much is cut from each edge of the source image,
/// in thousandths of a percent of its size.
#[derive(Debug, Clone, Copy, PartialEq, Eq, Default, Structural)]
pub struct CropRect {
    pub left: i32,
    pub top: i32,
    pub right: i32,
    pub bottom: i32,
}

/// An embedded picture: its relationship id, media type, bytes and crop.
#[derive(Debug, Clone, PartialEq, Eq, Default)]
pub struct PictureData {
    pub rel_id: String,
    pub content_type: String,
    pub data: Vec<u8>,
    pub crop: Option<CropRect>,
}

/// The preview of a chart that is not drawn directly: the image the document stores for
/// it and that image's media type.
#[derive(Debug, Clone, PartialEq, Eq, Default)]
pub struct ChartData {
    pub preview_image: Option<Vec<u8>>,
    pub preview_mime: Option<String>,
}

/// What a shape is. `Custom` names a preset geometry; a group holds its children and
/// their coordinate space; a chart holds its preview. A chart's series and a custom
/// geometry's paths, which are drawn in floating point, are held outside this model.
#[derive(Debug, PartialEq, Eq, Default)]
pub enum ShapeType {
    #[default]
    Rectangle,
    TextBox,
    Ellipse,
    RoundedRectangle,
    Triangle,
    Custom(String),
    Picture(PictureData),
    Table(TableData),
    Group(Vec<Shape>, GroupData),
    Chart(ChartData),
    CustomGeom,
    Unsupported(UnsupportedData),
}

/// A shape on a slide, layout or master. `rotation` is in 60000ths of a degree;
/// `adjust_values` are the named guide values of its preset geometry.
#[derive(Debug, PartialEq, Eq, Default)]
pub struct Shape {
    pub id: u32,
    pub name: String,
    pub placeholder: Option<PlaceholderInfo>,
    pub fill: Fill,
    pub border: Border,
    pub position: Position,
    pub size: Size,
    pub style_ref: Option<ShapeStyleRef>,
    pub effects: ShapeEffects,
    pub text_body: Option<TextBody>,
    pub vertical_text: Option<String>,
    pub vertical_text_explicit: bool,
    pub hidden: bool,
    pub shape_type: ShapeType,
    pub adjust_values: Option<Vec<(String, i64)>>,
    pub rotation: i32,
    pub flip_h: bool,
    pub flip_v: bool,
}

} // verus!
