//! The document model that the resolvers and the renderer read.
pub mod color;
pub mod fill;
pub mod hierarchy;
pub mod shape;
pub mod table;
pub mod text;
