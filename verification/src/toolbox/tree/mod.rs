//! The node tree of a page.
pub mod node;
pub mod shape;
pub mod text;
pub mod page;
