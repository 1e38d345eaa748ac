//! Variable-width bitmap fonts.
//!
//! This module contains support for variable-width bitmap fonts. A
//! [`VariableFont`] is based on an existing [`MonoFont`] instance, which
//! returns glyphs with a fixed width, and keeps only the portion of each
//! returned glyph whose x-coordinates lie in the range given by the included
//! [`GlyphWidthMapping`].
//!
//! Typically, this is used to skip a few extra columns of blank pixels at
//! the end of a glyph's image.

use vstd::prelude::*;

use crate::geometry::{Point, Rectangle, Size};
use crate::mapping::{GlyphWidthMapping, LookupTableGlyphWidthMapping, RangeSize};
use crate::mono_font::{DecorationDimensions, Glyph, MonoFont};

verus! {

/// Variable-width bitmap font.
///
/// A lightweight, copyable view composing a fixed-width font with a borrowed
/// width mapping; it owns neither the font's pixel data nor the mapping. It
/// exposes the same capability surface as the underlying font, so it is a
/// drop-in substitute wherever a fixed-width font is expected.
#[derive(Clone, Copy)]
pub struct VariableFont<'a, M: GlyphWidthMapping> {
    /// The underlying monospaced font.
    pub mono_font: MonoFont,
    /// Glyph width mapping.
    pub glyph_width_mapping: &'a M,
}

impl<'a, M: GlyphWidthMapping> VariableFont<'a, M> {
    /// The underlying font is well formed.
    pub open spec fn wf(&self) -> bool {
        self.mono_font.wf()
    }

    /// The width range the mapping assigns to `c` under the underlying font.
    pub open spec fn spec_width_range(&self, c: char) -> core::ops::Range<u32> {
        self.glyph_width_mapping.glyph_width_spec(&self.mono_font, c)
    }

    /// The number of pixels of `c`'s cell that are kept.
    pub open spec fn spec_char_width(&self, c: char) -> u32 {
        self.spec_width_range(c).spec_range_size()
    }

    /// The mapped range of `c` lies inside the character cell, so the crop
    /// in [`VariableFont::glyph`] stays within the source glyph.
    pub open spec fn range_fits(&self, c: char) -> bool {
        self.spec_width_range(c).start + self.spec_char_width(c)
            <= self.mono_font.character_size.width
    }

    /// Retrieves the glyph of `c`, cropped to the mapped width range.
    ///
    /// The crop keeps the full native height: the returned glyph's height
    /// always equals the underlying cell height, whatever the width mapping,
    /// and its width is exactly the mapped range's size (possibly zero).
    pub fn glyph(&self, c: char) -> (g: Glyph)
        requires
            self.wf(),
            self.range_fits(c),
        ensures
            g.area.size.width == self.spec_char_width(c),
            g.area.size.height == self.mono_font.character_size.height,
            g.area.top_left.x == self.mono_font.spec_glyph(c).area.top_left.x
                + self.spec_width_range(c).start,
            g.area.top_left.y == 0,
            g.wf(),
    {
        let mono_glyph = self.mono_font.glyph(c);
        let mono_glyph_size = mono_glyph.size();
        let glyph_width = self.glyph_width_mapping.glyph_width(&self.mono_font, c);
        let width = glyph_width.range_size();

        mono_glyph.sub_image(
            &Rectangle::new(
                Point::new(glyph_width.start, 0),
                Size::new(width, mono_glyph_size.height),
            ),
        )
    }

    /// Height of every character cell in pixels.
    pub fn character_height(&self) -> (h: u32)
        ensures
            h == self.mono_font.character_size.height,
    {
        self.mono_font.character_height()
    }

    /// Fixed spacing between adjacent characters, in pixels.
    pub fn character_spacing(&self) -> (s: u32)
        ensures
            s == self.mono_font.character_spacing,
    {
        self.mono_font.character_spacing()
    }

    /// Vertical pixel offset of the text baseline.
    pub fn baseline(&self) -> (b: u32)
        ensures
            b == self.mono_font.baseline,
    {
        self.mono_font.baseline()
    }

    /// Strikethrough placement.
    pub fn strikethrough(&self) -> (d: DecorationDimensions)
        ensures
            d == self.mono_font.strikethrough,
    {
        self.mono_font.strikethrough()
    }

    /// Underline placement.
    pub fn underline(&self) -> (d: DecorationDimensions)
        ensures
            d == self.mono_font.underline,
    {
        self.mono_font.underline()
    }

    /// The mapped widths of the characters of `s`, each followed by one
    /// inter-character spacing, summed.
    pub open spec fn spec_width_sum(&self, s: Seq<char>) -> int
        decreases s.len(),
    {
        if s.len() == 0 {
            0
        } else {
            self.spec_width_sum(s.drop_last()) + self.spec_char_width(s.last())
                + self.mono_font.character_spacing
        }
    }

    /// The width of the rendered string `s`: spacing stands only between
    /// glyphs, so one trailing spacing is taken back off, never below zero.
    pub open spec fn spec_string_width(&self, s: Seq<char>) -> int {
        if self.spec_width_sum(s) >= self.mono_font.character_spacing {
            self.spec_width_sum(s) - self.mono_font.character_spacing
        } else {
            0
        }
    }

    /// A prefix never sums to more than the whole string.
    proof fn lemma_width_sum_prefix(&self, s: Seq<char>, j: int)
        requires
            0 <= j <= s.len(),
        ensures
            self.spec_width_sum(s.take(j)) <= self.spec_width_sum(s),
        decreases s.len() - j,
    {
        if j == s.len() {
            assert(s.take(j) =~= s);
        } else {
            assert(s.take(j + 1).drop_last() =~= s.take(j));
            assert(s.take(j + 1).last() == s[j]);
            self.lemma_width_sum_prefix(s, j + 1);
        }
    }

    /// Measures the width in pixels of the rendered string: the sum over its
    /// characters of the mapped width plus the fixed inter-character
    /// spacing, less one trailing spacing. An empty string measures `0`.
    pub fn measure_string_width(&self, text: &str) -> (w: u32)
        requires
            self.spec_width_sum(text@) <= u32::MAX,
        ensures
            w == self.spec_string_width(text@),
            text@.len() == 0 ==> w == 0,
    {
        let mut total: u32 = 0;
        for c in it: text.chars()
            invariant
                self.spec_width_sum(text@) <= u32::MAX,
                it.seq() == text@,
                total == self.spec_width_sum(text@.take(it.index() as int)),
        {
            proof {
                assert(text@.take(it.index() as int + 1).drop_last() =~= text@.take(
                    it.index() as int,
                ));
                assert(text@.take(it.index() as int + 1).last() == text@[it.index() as int]);
                self.lemma_width_sum_prefix(text@, it.index() as int + 1);
            }
            let char_width = self.glyph_width_mapping.glyph_width(&self.mono_font, c).range_size();
            total = total + char_width + self.mono_font.character_spacing();
        }
        proof {
            assert(text@.take(text@.len() as int) =~= text@);
        }
        let spacing = self.mono_font.character_spacing();
        if total >= spacing {
            total - spacing
        } else {
            0
        }
    }

    /// The mapped widths of the characters of `s`, summed without spacing.
    pub open spec fn spec_widths_only(&self, s: Seq<char>) -> int
        decreases s.len(),
    {
        if s.len() == 0 {
            0
        } else {
            self.spec_widths_only(s.drop_last()) + self.spec_char_width(s.last())
        }
    }

    /// The spacing-carrying sum splits into the bare width sum plus one
    /// spacing per character, and the bare width sum is never negative.
    proof fn lemma_width_sum_split(&self, s: Seq<char>)
        ensures
            self.spec_width_sum(s) == self.spec_widths_only(s)
                + self.mono_font.character_spacing * s.len(),
            self.spec_widths_only(s) >= 0,
        decreases s.len(),
    {
        if s.len() > 0 {
            self.lemma_width_sum_split(s.drop_last());
            assert(self.mono_font.character_spacing * s.len() == self.mono_font.character_spacing
                * (s.len() - 1) + self.mono_font.character_spacing) by (nonlinear_arith);
        }
    }

    /// For a non-empty string, the measured width is the sum over its
    /// characters of the mapped width size, plus spacing times one less than
    /// the number of characters.
    pub proof fn lemma_string_width_decomposition(&self, s: Seq<char>)
        requires
            s.len() > 0,
        ensures
            self.spec_string_width(s) == self.spec_widths_only(s)
                + self.mono_font.character_spacing * (s.len() - 1),
    {
        self.lemma_width_sum_split(s);
        assert(self.mono_font.character_spacing * s.len() == self.mono_font.character_spacing * (
        s.len() - 1) + self.mono_font.character_spacing) by (nonlinear_arith);
        vstd::arithmetic::mul::lemma_mul_nonnegative(
            self.mono_font.character_spacing as int,
            s.len() - 1,
        );
    }

    /// Composer equality rule: two composers are equal exactly when their
    /// underlying fonts are equal by value and their width-mapping
    /// references are the same object. Whether the two references are the
    /// same object is an address fact that the verifier does not model, so
    /// the caller establishes it and passes it in as `same_mapping`.
    pub fn eq_given_mapping_identity(
        &self,
        other: &VariableFont<'a, M>,
        same_mapping: bool,
    ) -> (r: bool)
        ensures
            r == (self.mono_font == other.mono_font && same_mapping),
    {
        self.mono_font == other.mono_font && same_mapping
    }
}

/// A zero lookup table entry makes the composed glyph invisible: the mapped
/// width of such a character is zero, so the glyph that
/// [`VariableFont::glyph`] returns for it has width `0`, while, as that
/// function's contract states, its height stays the native cell height.
pub proof fn lemma_zero_entry_invisible_glyph<'a, 'b>(
    vf: VariableFont<'a, LookupTableGlyphWidthMapping<'b>>,
    c: char,
)
    requires
        vf.mono_font.glyph_mapping.spec_index(c) < vf.glyph_width_mapping.table().len(),
        vf.glyph_width_mapping.table()[vf.mono_font.glyph_mapping.spec_index(c)] == 0,
    ensures
        vf.spec_char_width(c) == 0,
        vf.range_fits(c),
{
}

} // verus!
