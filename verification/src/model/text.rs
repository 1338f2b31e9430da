//! Paragraphs, runs, bullets and their inherited defaults.
//!
//! Lengths follow the units of the document: font sizes and letter spacing in
//! hundredths of a point, percentages in thousandths of a percent (100000 = 100%),
//! indents and shadow offsets in EMU.
use vstd::prelude::*;

use super::color::Color;

verus! {

/// Typefaces a run asks for, one per script family.
#[derive(Debug, Clone, PartialEq, Eq, Default)]
pub struct FontStyle {
    pub latin: Option<String>,
    pub east_asian: Option<String>,
    pub complex_script: Option<String>,
}

/// A text shadow, with its offsets already resolved into horizontal and vertical
/// components; offsets and blur in EMU.
#[derive(Debug, Clone, PartialEq, Eq, Default)]
pub struct TextShadow {
    pub offset_x: i64,
    pub offset_y: i64,
    pub blur_radius: i64,
    pub color: Color,
}

/// Character properties written on a run. `color` is unset when the run gives none.
#[derive(Debug, Clone, PartialEq, Eq, Default)]
pub struct TextStyle {
    pub font_size: Option<i32>,
    pub bold: bool,
    pub italic: bool,
    pub color: Color,
    pub baseline: Option<i32>,
    pub letter_spacing: Option<i32>,
    pub highlight: Option<Color>,
    pub shadow: Option<TextShadow>,
}

/// Character properties a paragraph or a list level gives its runs by default.
#[derive(Debug, Clone, PartialEq, Eq, Default)]
pub struct RunDefaults {
    pub font_latin: Option<String>,
    pub font_ea: Option<String>,
    pub font_cs: Option<String>,
    pub font_size: Option<i32>,
    pub bold: Option<bool>,
    pub italic: Option<bool>,
    pub color: Option<Color>,
    pub baseline: Option<i32>,
    pub letter_spacing: Option<i32>,
}

/// The run defaults written on a paragraph itself.
pub type ParagraphDefRPr = RunDefaults;

/// A run of text with one set of character properties, or a line break.
#[derive(Debug, Clone, PartialEq, Eq, Default)]
pub struct TextRun {
    pub text: String,
    pub style: TextStyle,
    pub font: FontStyle,
    pub hyperlink: Option<String>,
    pub is_break: bool,
}

/// Line or paragraph spacing: a percentage of the line (thousandths of a percent) or an
/// absolute size (hundredths of a point).
#[derive(Debug, Clone, Copy, PartialEq, Eq, Structural)]
pub enum SpacingValue {
    Percent(i32),
    Points(i32),
}

/// A character bullet. `size_pct` is the size relative to the text in hundred-thousandths
/// (100000 = same size); a negative value is an absolute size, in hundred-thousandths of
/// a point.
#[derive(Debug, Clone, PartialEq, Eq, Default)]
pub struct BulletChar {
    pub char: String,
    pub font: Option<String>,
    pub size_pct: Option<i32>,
    pub color: Option<Color>,
}

/// An auto-numbered bullet: numbering scheme, first number, and the same font, size and
/// color properties as a character bullet.
#[derive(Debug, Clone, PartialEq, Eq, Default)]
pub struct BulletAutoNum {
    pub num_type: String,
    pub start_at: Option<i32>,
    pub font: Option<String>,
    pub size_pct: Option<i32>,
    pub color: Option<Color>,
}

/// The bullet of a paragraph; `NoBullet` suppresses an inherited one.
#[derive(Debug, Clone, PartialEq, Eq)]
pub enum Bullet {
    Char(BulletChar),
    AutoNum(BulletAutoNum),
    NoBullet,
}

/// Horizontal alignment of a paragraph.
#[derive(Debug, Clone, Copy, PartialEq, Eq, Default, Structural)]
pub enum Alignment {
    #[default]
    Left,
    Center,
    Right,
    Justify,
}

/// CSS `text-align` keyword of an alignment.
pub open spec fn spec_alignment_css(a: Alignment) -> Seq<char> {
    match a {
        Alignment::Left => "left"@,
        Alignment::Center => "center"@,
        Alignment::Right => "right"@,
        Alignment::Justify => "justify"@,
    }
}

impl Alignment {
    /// CSS `text-align` keyword of the alignment.
    pub fn to_css(&self) -> (r: &'static str)
        ensures
            r@ == spec_alignment_css(*self),
    {
        match self {
            Alignment::Left => "left",
            Alignment::Center => "center",
            Alignment::Right => "right",
            Alignment::Justify => "justify",
        }
    }
}

/// A paragraph: its runs, list level and the properties written on it; `margin_left`
/// and `indent` in EMU.
#[derive(Debug, Clone, PartialEq, Eq, Default)]
pub struct TextParagraph {
    pub runs: Vec<TextRun>,
    pub level: u32,
    pub alignment: Alignment,
    pub rtl: bool,
    pub line_spacing: Option<SpacingValue>,
    pub space_before: Option<SpacingValue>,
    pub space_after: Option<SpacingValue>,
    pub margin_left: Option<i64>,
    pub indent: Option<i64>,
    pub bullet: Option<Bullet>,
    pub def_rpr: Option<ParagraphDefRPr>,
}

} // verus!
