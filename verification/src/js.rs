//! The objects of the JavaScript environment.

pub mod arguments;
pub mod clipboard;
pub mod console;
pub mod fetch;
pub mod json;
pub mod navigator;
pub mod node;
pub mod response;
