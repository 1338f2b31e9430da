//! Verified core of a PPTX-to-HTML converter: property inheritance between slide,
//! layout and master, style references into the theme, placeholder matching, text
//! classification, and the HTML renderer for slides, tables, paragraphs and runs.
use vstd::prelude::*;

pub mod geometry;
pub mod model;
pub mod provenance;
pub mod renderer;
pub mod resolver;
pub mod strings;
pub mod text_metrics;

verus! {

} // verus!
