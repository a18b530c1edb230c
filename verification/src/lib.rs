//! A terminal Game of Life: a randomly seeded cell grid sized to the
//! terminal, advanced by the classic rule each tick and rendered with
//! half-block glyphs that pack two grid rows into one character row.
//!
//! The modules hold the verified core of the session: the grid model and
//! its reseeding, the generation rule, the glyph mapping, and the reaction
//! to key presses. The terminal I/O around them lives outside the library.

pub mod engine;
pub mod grid;
pub mod input;
pub mod render;
