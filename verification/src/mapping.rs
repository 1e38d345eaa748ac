//! Glyph width mapping.
//!
//! A glyph width mapping defines, per character, the horizontal pixel range
//! of the fixed-width cell that should actually be drawn. This is typically
//! used to skip the last few columns of blank pixels in a glyph.

use vstd::prelude::*;

use core::ops::Range;
use crate::mono_font::MonoFont;

verus! {

/// Mapping from characters to glyph widths.
///
/// `glyph_width` returns the half-open pixel range `[start, end)` of the
/// glyph's cell to keep, in coordinates local to the cell (`0` is the cell's
/// left edge). The mapping is a pure function of the font and the character:
/// the returned range always equals `glyph_width_spec`, so two queries with
/// the same inputs return the same range.
pub trait GlyphWidthMapping {
    /// The range this mapping assigns to `c` under `font`.
    spec fn glyph_width_spec(&self, font: &MonoFont, c: char) -> Range<u32>;

    /// Maps a character to a glyph width.
    fn glyph_width(&self, font: &MonoFont, c: char) -> (r: Range<u32>)
        ensures
            r == self.glyph_width_spec(font, c),
    ;
}

/// A lookup-table-based glyph width mapping.
///
/// The lookup table is indexed by the glyph index the [`MonoFont`]'s own
/// character resolution returns, and the entry is the width of the glyph in
/// pixels. No support is provided for skipping space at the start of the
/// glyph or for widths that cannot be stored in a `u8`, but this covers the
/// majority of basic use cases.
///
/// A default width may be specified, which is returned for characters whose
/// glyph index has no lookup table entry; if none is given, the character
/// width of the [`MonoFont`] is used instead.
#[derive(Debug, Clone)]
pub struct LookupTableGlyphWidthMapping<'a> {
    lookup_table: &'a [u8],
    default_width: Option<u32>,
}

impl<'a> LookupTableGlyphWidthMapping<'a> {
    /// The per-glyph-index width entries, as a sequence of bytes.
    pub closed spec fn table(&self) -> Seq<u8> {
        self.lookup_table@
    }

    /// The configured default width, if any.
    pub closed spec fn default_width(&self) -> Option<u32> {
        self.default_width
    }

    /// Creates a new lookup-table-based glyph width mapping.
    pub fn new(lookup_table: &'a [u8], default_width: Option<u32>) -> (m: Self)
        ensures
            m.table() == lookup_table@,
            m.default_width() == default_width,
    {
        Self { lookup_table, default_width }
    }
}

impl<'a> GlyphWidthMapping for LookupTableGlyphWidthMapping<'a> {
    /// `0 .. table[index]` when the glyph index has a table entry, else
    /// `0 .. default_width` when a default is configured, else
    /// `0 .. font.character_size.width`.
    open spec fn glyph_width_spec(&self, font: &MonoFont, c: char) -> Range<u32> {
        let glyph_index = font.glyph_mapping.spec_index(c);
        if glyph_index < self.table().len() {
            Range { start: 0u32, end: self.table()[glyph_index] as u32 }
        } else {
            Range {
                start: 0u32,
                end: match self.default_width() {
                    Some(w) => w,
                    None => font.character_size.width,
                },
            }
        }
    }

    fn glyph_width(&self, font: &MonoFont, c: char) -> (r: Range<u32>) {
        let glyph_index = font.glyph_mapping.index(c);
        if glyph_index < self.lookup_table.len() {
            0..(self.lookup_table[glyph_index] as u32)
        } else {
            0..match self.default_width {
                Some(w) => w,
                None => font.character_size.width,
            }
        }
    }
}

/// The number of pixels a width range covers.
pub trait RangeSize {
    /// The range's size: `end - start`, or `0` for an empty range.
    spec fn spec_range_size(&self) -> u32;

    /// Computes the range's size.
    fn range_size(&self) -> (s: u32)
        ensures
            s == self.spec_range_size(),
    ;
}

impl RangeSize for Range<u32> {
    open spec fn spec_range_size(&self) -> u32 {
        if self.start >= self.end {
            0u32
        } else {
            (self.end - self.start) as u32
        }
    }

    fn range_size(&self) -> (s: u32) {
        if self.start >= self.end {
            0
        } else {
            self.end - self.start
        }
    }
}

/// Characters with a lookup table entry get the range `0 .. entry`: for
/// every character whose glyph index is within the table bounds, the range
/// starts at `0` and ends at the table entry for that index.
pub proof fn lemma_lookup_table_hit(
    m: LookupTableGlyphWidthMapping,
    font: MonoFont,
    c: char,
)
    requires
        font.glyph_mapping.spec_index(c) < m.table().len(),
    ensures
        m.glyph_width_spec(&font, c).start == 0,
        m.glyph_width_spec(&font, c).end == m.table()[font.glyph_mapping.spec_index(c)] as u32,
{
}

/// Characters without a lookup table entry get the fallback range: for every
/// character whose glyph index is outside the table bounds, the range is
/// `0 .. default_width` when a default is configured, else
/// `0 .. font.character_size.width`.
pub proof fn lemma_lookup_table_miss(
    m: LookupTableGlyphWidthMapping,
    font: MonoFont,
    c: char,
)
    requires
        font.glyph_mapping.spec_index(c) >= m.table().len(),
    ensures
        m.glyph_width_spec(&font, c).start == 0,
        m.glyph_width_spec(&font, c).end == (match m.default_width() {
            Some(w) => w,
            None => font.character_size.width,
        }),
{
}

/// A table entry of `0` yields a zero-size range: for every character whose
/// glyph index is within the table bounds and whose entry is `0`, the
/// mapped range has size `0`.
pub proof fn lemma_zero_entry_zero_size(
    m: LookupTableGlyphWidthMapping,
    font: MonoFont,
    c: char,
)
    requires
        font.glyph_mapping.spec_index(c) < m.table().len(),
        m.table()[font.glyph_mapping.spec_index(c)] == 0,
    ensures
        m.glyph_width_spec(&font, c).spec_range_size() == 0,
{
}

} // verus!
