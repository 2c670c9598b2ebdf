//! Screen-space text: styled runs of text grouped into positioned, aligned
//! paragraphs. The renderer queues every paragraph into the text pass each
//! frame; rasterizing glyphs is the embedding application's work.

use crate::math::{Vec2, Vec4};
use vstd::prelude::*;

verus! {

/// Vertical anchoring of a paragraph: what its y position describes.
#[derive(Clone, Copy, Debug, PartialEq, Eq, Structural)]
pub enum VerticalAlign {
    Top,
    Center,
    Bottom,
}

/// Horizontal anchoring of a paragraph: what its x position describes.
#[derive(Clone, Copy, Debug, PartialEq, Eq, Structural)]
pub enum HorizontalAlign {
    Left,
    Center,
    Right,
}

/// One run of text with a single font, color and scale.
#[derive(Clone, Debug, PartialEq, Eq)]
pub struct TextSection {
    pub text: String,
    pub color: Vec4,
    pub scale: i64,
    pub font: usize,
}

/// One block of text on screen: alignment, position in pixels, and its styled
/// runs.
#[derive(Clone, Debug, PartialEq, Eq)]
pub struct Paragraph {
    pub vertical_alignment: VerticalAlign,
    pub horizontal_alignment: HorizontalAlign,
    pub position: Vec2,
    pub sections: Vec<TextSection>,
}

} // verus!
