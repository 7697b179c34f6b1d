//! A status-badge renderer: shapes text against a font, converts glyph
//! outlines into scaled vector paths, and lays the runs out as a small
//! two-segment vector image, plus the documentation-comment parsing and
//! scripting-type glue around it.
pub mod badge;
pub mod color;
pub mod compose;
pub mod error;
pub mod node;
pub mod numfmt;
pub mod parser;
pub mod path;
pub mod rhai_glue;
pub mod serialize;
pub mod shape;
