//! Slides, layouts, masters and the theme.
use vstd::prelude::*;

use super::color::{ClrMap, Color, ColorScheme};
use super::fill::{Border, Fill};
use super::shape::{ListStyle, Shape, Size};
use crate::strings::str_equal;

verus! {

/// A reference from a shape's `<p:style>` into the theme's format scheme: a list index
/// and the color that replaces the placeholder color `phClr`.
#[derive(Debug, Clone, PartialEq, Eq, Default)]
pub struct StyleRef {
    pub idx: u32,
    pub color: Color,
}

/// A font reference: `major` or `minor`, and an optional color.
#[derive(Debug, Clone, PartialEq, Eq, Default)]
pub struct FontRef {
    pub idx: String,
    pub color: Color,
}

/// The `<p:style>` element of a shape.
#[derive(Debug, Clone, PartialEq, Eq, Default)]
pub struct ShapeStyleRef {
    pub fill_ref: Option<StyleRef>,
    pub ln_ref: Option<StyleRef>,
    pub effect_ref: Option<StyleRef>,
    pub font_ref: Option<FontRef>,
}

/// The theme's format scheme: fill, line and background fill style lists.
#[derive(Debug, Clone, PartialEq, Eq, Default)]
pub struct FmtScheme {
    pub fill_style_lst: Vec<Fill>,
    pub ln_style_lst: Vec<Border>,
    pub bg_fill_style_lst: Vec<Fill>,
}

/// The theme's font scheme.
#[derive(Debug, Clone, PartialEq, Eq, Default)]
pub struct FontScheme {
    pub major_latin: String,
    pub minor_latin: String,
    pub major_east_asian: String,
    pub minor_east_asian: String,
    pub major_complex_script: String,
    pub minor_complex_script: String,
}

/// The typeface that a theme font reference names (`+mj-lt`, `+mn-lt`, `+mj-ea`,
/// `+mn-ea`, `+mj-cs`, `+mn-cs`: major or minor font, Latin, East Asian or complex
/// script); none for another name or an empty slot.
pub open spec fn spec_resolve_typeface(fs: FontScheme, name: Seq<char>) -> Option<Seq<char>> {
    let slot: Option<Seq<char>> = if name == "+mj-lt"@ {
        Some(fs.major_latin@)
    } else if name == "+mn-lt"@ {
        Some(fs.minor_latin@)
    } else if name == "+mj-ea"@ {
        Some(fs.major_east_asian@)
    } else if name == "+mn-ea"@ {
        Some(fs.minor_east_asian@)
    } else if name == "+mj-cs"@ {
        Some(fs.major_complex_script@)
    } else if name == "+mn-cs"@ {
        Some(fs.minor_complex_script@)
    } else {
        None
    };
    match slot {
        Some(t) => if t.len() > 0 {
            Some(t)
        } else {
            None
        },
        None => None,
    }
}

impl FontScheme {
    /// The typeface a theme font reference names, if the scheme has one for it.
    pub fn resolve_typeface(&self, name: &str) -> (r: Option<&String>)
        ensures
            match spec_resolve_typeface(*self, name@) {
                Some(t) => r matches Some(x) && x@ == t,
                None => r is None,
            },
    {
        let slot: &String = if str_equal(name, "+mj-lt") {
            &self.major_latin
        } else if str_equal(name, "+mn-lt") {
            &self.minor_latin
        } else if str_equal(name, "+mj-ea") {
            &self.major_east_asian
        } else if str_equal(name, "+mn-ea") {
            &self.minor_east_asian
        } else if str_equal(name, "+mj-cs") {
            &self.major_complex_script
        } else if str_equal(name, "+mn-cs") {
            &self.minor_complex_script
        } else {
            return None;
        };
        if slot.as_str().is_empty() {
            None
        } else {
            Some(slot)
        }
    }
}

/// A theme.
#[derive(Debug, Clone, PartialEq, Eq, Default)]
pub struct Theme {
    pub color_scheme: ColorScheme,
    pub font_scheme: FontScheme,
    pub fmt_scheme: FmtScheme,
}

/// A color map override of a slide or layout.
#[derive(Debug, Clone, PartialEq, Eq)]
pub enum ClrMapOverride {
    UseMaster,
    Override(ClrMap),
}

/// The master's text styles for titles, bodies and other text.
#[derive(Debug, Clone, PartialEq, Eq, Default)]
pub struct TxStyles {
    pub title_style: Option<ListStyle>,
    pub body_style: Option<ListStyle>,
    pub other_style: Option<ListStyle>,
}

/// A slide.
#[derive(Debug, PartialEq, Eq, Default)]
pub struct Slide {
    pub background: Option<Fill>,
    pub clr_map_ovr: Option<ClrMapOverride>,
    pub shapes: Vec<Shape>,
    pub hidden: bool,
    pub show_master_sp: bool,
    pub layout_idx: Option<usize>,
}

/// A slide layout.
#[derive(Debug, PartialEq, Eq, Default)]
pub struct SlideLayout {
    pub background: Option<Fill>,
    pub clr_map_ovr: Option<ClrMapOverride>,
    pub shapes: Vec<Shape>,
    pub master_idx: usize,
    pub show_master_sp: bool,
}

/// A slide master.
#[derive(Debug, PartialEq, Eq, Default)]
pub struct SlideMaster {
    pub background: Option<Fill>,
    pub clr_map: ClrMap,
    pub shapes: Vec<Shape>,
    pub theme_idx: usize,
    pub tx_styles: TxStyles,
}

/// A presentation: its title, slide size (EMU), slides, layouts, masters and themes (the
/// first is the primary theme), its color map and its default text style.
#[derive(Debug, PartialEq, Eq, Default)]
pub struct Presentation {
    pub title: Option<String>,
    pub slide_size: Size,
    pub slides: Vec<Slide>,
    pub layouts: Vec<SlideLayout>,
    pub masters: Vec<SlideMaster>,
    pub themes: Vec<Theme>,
    pub clr_map: ClrMap,
    pub default_text_style: Option<ListStyle>,
}

} // verus!
