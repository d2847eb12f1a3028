//! The change entries and the state that owns them.

pub mod file;
pub mod file_tree;
