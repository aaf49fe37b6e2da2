//! The HTML document model.

pub mod document;
pub mod script;
