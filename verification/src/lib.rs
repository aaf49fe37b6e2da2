//! The core of a small web browser: the objects that its JavaScript
//! environment offers (navigator, console, clipboard, fetch, JSON, response,
//! document node) and the HTML document model, with the decisions that the
//! script bindings make stated and proved.

pub mod html;
pub mod invocation;
pub mod js;
pub mod text;
