//! The fixed-width ("monospaced") glyph source.
//!
//! A [`MonoFont`] stores one glyph per character in a cell of identical pixel
//! size, laid out as a single horizontal strip indexed by glyph index. The
//! variable-width layer only reads this interface: character-to-index
//! resolution, the cell size, spacing and decoration metrics, full-cell glyph
//! retrieval, and sub-region extraction on the returned [`Glyph`].

use vstd::prelude::*;

use crate::geometry::{Point, Rectangle, Size};

verus! {

/// Placement of a decoration line (strikethrough or underline) relative to
/// the top of the character cell.
#[derive(Clone, Copy, Debug, PartialEq, Eq, Structural)]
pub struct DecorationDimensions {
    /// Vertical pixel offset of the line's top edge.
    pub offset: u32,
    /// Thickness of the line in pixels.
    pub height: u32,
}

impl DecorationDimensions {
    /// Creates decoration metrics from an offset and a thickness.
    pub fn new(offset: u32, height: u32) -> (d: DecorationDimensions)
        ensures
            d.offset == offset,
            d.height == height,
    {
        DecorationDimensions { offset, height }
    }
}

/// Deterministic character-to-glyph-index resolution.
///
/// Characters in the contiguous range starting at `first_char` map to
/// consecutive indices starting at `0`; every other character resolves to
/// `fallback_index` (a replacement glyph). The resolution is total: every
/// character yields an index.
#[derive(Clone, Copy, Debug, PartialEq, Eq, Structural)]
pub struct GlyphIndexing {
    /// First character of the contiguous mapped range.
    pub first_char: char,
    /// Number of glyphs the font stores; mapped indices stay below this.
    pub glyph_count: usize,
    /// Index of the replacement glyph for characters outside the range.
    pub fallback_index: usize,
}

impl GlyphIndexing {
    /// The fallback index names an existing glyph.
    pub open spec fn wf(&self) -> bool {
        self.fallback_index < self.glyph_count
    }

    /// The glyph index that `c` resolves to.
    pub open spec fn spec_index(&self, c: char) -> int {
        if self.first_char as u32 <= c as u32 && (c as u32 - self.first_char as u32)
            < self.glyph_count {
            c as u32 - self.first_char as u32
        } else {
            self.fallback_index as int
        }
    }

    /// Resolves a character to its glyph index.
    pub fn index(&self, c: char) -> (i: usize)
        ensures
            i == self.spec_index(c),
    {
        let cu = c as u32;
        let fu = self.first_char as u32;
        if cu >= fu && ((cu - fu) as usize) < self.glyph_count {
            (cu - fu) as usize
        } else {
            self.fallback_index
        }
    }

    /// Every resolved index names an existing glyph.
    pub proof fn lemma_index_in_range(&self, c: char)
        requires
            self.wf(),
        ensures
            0 <= self.spec_index(c) < self.glyph_count,
    {
    }
}

/// A glyph image: a rectangular view into the font's pixel data.
///
/// The composer never decodes pixels; its only operation on a glyph is
/// sub-region extraction with [`Glyph::sub_image`].
#[derive(Clone, Copy, Debug, PartialEq, Eq, Structural)]
pub struct Glyph {
    /// The region of the font's pixel data this glyph shows, in font-global
    /// pixel coordinates.
    pub area: Rectangle,
}

impl Glyph {
    /// The glyph's region stays within `u32` coordinates.
    pub open spec fn wf(&self) -> bool {
        self.area.wf()
    }

    /// The size of the glyph image in pixels.
    pub fn size(&self) -> (s: Size)
        ensures
            s == self.area.size,
    {
        self.area.size
    }

    /// Extracts the sub-region `area` of this glyph, given in pixel
    /// coordinates local to the glyph (`(0, 0)` is the glyph's top-left
    /// corner). The rectangle must lie fully inside the glyph.
    pub fn sub_image(&self, area: &Rectangle) -> (g: Glyph)
        requires
            self.wf(),
            area.top_left.x + area.size.width <= self.area.size.width,
            area.top_left.y + area.size.height <= self.area.size.height,
        ensures
            g.area.size == area.size,
            g.area.top_left.x == self.area.top_left.x + area.top_left.x,
            g.area.top_left.y == self.area.top_left.y + area.top_left.y,
            g.wf(),
    {
        Glyph {
            area: Rectangle {
                top_left: Point {
                    x: self.area.top_left.x + area.top_left.x,
                    y: self.area.top_left.y + area.top_left.y,
                },
                size: area.size,
            },
        }
    }
}

/// A fixed-width bitmap font: every glyph occupies a cell of
/// `character_size` pixels, and the cells form one horizontal strip ordered
/// by glyph index.
#[derive(Clone, Copy, Debug, PartialEq, Eq, Structural)]
pub struct MonoFont {
    /// Character-to-glyph-index resolution.
    pub glyph_mapping: GlyphIndexing,
    /// Pixel size of every glyph cell.
    pub character_size: Size,
    /// Fixed spacing between adjacent characters, in pixels.
    pub character_spacing: u32,
    /// Vertical pixel offset of the text baseline from the cell top.
    pub baseline: u32,
    /// Strikethrough placement.
    pub strikethrough: DecorationDimensions,
    /// Underline placement.
    pub underline: DecorationDimensions,
}

impl MonoFont {
    /// The glyph strip fits in `u32` pixel coordinates and the indexing
    /// resolves every character to an existing cell.
    pub open spec fn wf(&self) -> bool {
        &&& self.glyph_mapping.wf()
        &&& self.glyph_mapping.glyph_count * self.character_size.width <= u32::MAX
        &&& self.glyph_mapping.glyph_count <= u32::MAX
    }

    /// The full-cell glyph of `c`: the cell at the resolved glyph index.
    pub open spec fn spec_glyph(&self, c: char) -> Glyph {
        Glyph {
            area: Rectangle {
                top_left: Point {
                    x: (self.glyph_mapping.spec_index(c) * self.character_size.width) as u32,
                    y: 0,
                },
                size: self.character_size,
            },
        }
    }

    /// Retrieves the full fixed-width glyph of `c`.
    pub fn glyph(&self, c: char) -> (g: Glyph)
        requires
            self.wf(),
        ensures
            g == self.spec_glyph(c),
            g.area.size == self.character_size,
            g.wf(),
    {
        let idx = self.glyph_mapping.index(c);
        proof {
            self.glyph_mapping.lemma_index_in_range(c);
            vstd::arithmetic::mul::lemma_mul_inequality(
                idx + 1,
                self.glyph_mapping.glyph_count as int,
                self.character_size.width as int,
            );
            vstd::arithmetic::mul::lemma_mul_is_distributive_add_other_way(
                self.character_size.width as int,
                idx as int,
                1,
            );
        }
        let x: u32 = (idx as u32) * self.character_size.width;
        Glyph {
            area: Rectangle {
                top_left: Point { x, y: 0 },
                size: self.character_size,
            },
        }
    }

    /// Height of every character cell in pixels.
    pub fn character_height(&self) -> (h: u32)
        ensures
            h == self.character_size.height,
    {
        self.character_size.height
    }

    /// Fixed spacing between adjacent characters, in pixels.
    pub fn character_spacing(&self) -> (s: u32)
        ensures
            s == self.character_spacing,
    {
        self.character_spacing
    }

    /// Vertical pixel offset of the text baseline.
    pub fn baseline(&self) -> (b: u32)
        ensures
            b == self.baseline,
    {
        self.baseline
    }

    /// Strikethrough placement.
    pub fn strikethrough(&self) -> (d: DecorationDimensions)
        ensures
            d == self.strikethrough,
    {
        self.strikethrough
    }

    /// Underline placement.
    pub fn underline(&self) -> (d: DecorationDimensions)
        ensures
            d == self.underline,
    {
        self.underline
    }
}

} // verus!
