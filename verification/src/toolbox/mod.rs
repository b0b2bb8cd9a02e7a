//! The Toolbox document runtime: projects, pages and the node tree.
pub mod errors;
pub mod events;
pub mod observers;
pub mod styles;
pub mod tree;
pub mod project;
