//! Core of a tile-based level authoring tool: a rectangular grid of
//! single-character tile codes, sized in whole "screens", that a user paints
//! on and exports as a plain text file.
//!
//! The grid model and its serialization live in [`level`]; the command
//! surface driven by the user interface (brush selection, painting, clamped
//! resizing) lives in [`editor`]. All rendering and file transport stays
//! outside this crate.

pub mod editor;
pub mod level;
