//! Property resolution along the slide -> layout -> master cascade and into the theme.
pub mod inheritance;
pub mod placeholder;
pub mod style_ref;
