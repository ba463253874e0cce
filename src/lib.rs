//! Placeholder geometry and canvas sizing for rendering HTML pages with
//! image placeholders that are filled in later.
pub mod canvas;
pub mod failure;
pub mod placeholder;
pub mod document;
