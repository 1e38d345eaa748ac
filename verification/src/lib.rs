//! Variable-width glyph rendering on top of a fixed-width bitmap font.
//!
//! A monospaced font stores every glyph in a cell of identical pixel width.
//! Many glyphs are narrower than the cell, so naive rendering wastes
//! horizontal space. This crate computes, for each character, the horizontal
//! pixel range of the cell that should actually be drawn, crops glyphs to
//! that range, and measures string widths consistently with the cropping.
//!
//! The pieces are:
//! - [`geometry`]: pixel points, sizes and rectangles;
//! - [`mono_font`]: the fixed-width glyph source and its cell images;
//! - [`mapping`]: the width-mapping capability and a table-driven implementation;
//! - [`variable_font`]: the composer that turns a fixed-width font into a
//!   variable-width one.

pub mod geometry;
pub mod mapping;
pub mod mono_font;
pub mod variable_font;
