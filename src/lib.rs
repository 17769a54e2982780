//! A single-chat shopping-list assistant: the document it keeps, the screens it
//! shows, and the rules by which chat events change both.

pub mod display;
pub mod document;
pub mod laws;
pub mod router;
pub mod screen;
pub mod store;
pub mod text;
