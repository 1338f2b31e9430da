//! The HTML renderer: whole presentations with slide selection, the document style
//! sheet, whole slides and the shapes a slide draws, the frame, geometry, style and SVG
//! of a shape, pictures, unresolved elements, group
//! children, tables, text bodies, paragraphs with bullet numbering, text runs, fills and
//! effects as CSS, escaping, stroke attributes, asset naming, and the resolution of
//! text-body properties along the inheritance cascade.
pub mod numbering;
pub mod html;
pub mod context;
pub mod fill_css;
pub mod text_style;
pub mod effects;
pub mod run;
pub mod paragraph;
pub mod table;
pub mod document;
pub mod slide;
pub mod group;
pub mod shape;
pub mod text_body;
pub mod shape_html;
pub mod slide_html;
pub mod presentation;
pub mod shape_svg;
