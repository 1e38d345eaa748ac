use varfont::geometry::Size;
use varfont::mapping::{GlyphWidthMapping, LookupTableGlyphWidthMapping, RangeSize};
use varfont::mono_font::{DecorationDimensions, GlyphIndexing, MonoFont};
use varfont::variable_font::VariableFont;

/// A font whose characters `'a'..` resolve to glyph indices `0..`, with a
/// 10x12 pixel cell, spacing 1 and 26 glyphs; unmapped characters resolve
/// to the replacement index 25.
fn test_font() -> MonoFont {
    MonoFont {
        glyph_mapping: GlyphIndexing {
            first_char: 'a',
            glyph_count: 26,
            fallback_index: 25,
        },
        character_size: Size { width: 10, height: 12 },
        character_spacing: 1,
        baseline: 9,
        strikethrough: DecorationDimensions { offset: 5, height: 1 },
        underline: DecorationDimensions { offset: 11, height: 1 },
    }
}

#[test]
fn lookup_hit_returns_table_entry() {
    let table: [u8; 4] = [3, 5, 0, 8];
    let font = test_font();
    let m = LookupTableGlyphWidthMapping::new(&table, None);
    assert_eq!(m.glyph_width(&font, 'a'), 0..3);
    assert_eq!(m.glyph_width(&font, 'b'), 0..5);
    assert_eq!(m.glyph_width(&font, 'd'), 0..8);
}

#[test]
fn lookup_miss_uses_native_width_without_default() {
    let table: [u8; 4] = [3, 5, 0, 8];
    let font = test_font();
    let m = LookupTableGlyphWidthMapping::new(&table, None);
    // 'k' resolves to glyph index 10, outside the 4-entry table.
    assert_eq!(m.glyph_width(&font, 'k'), 0..10);
    // 'e' resolves to index 4, exactly at the table boundary: out of range.
    assert_eq!(m.glyph_width(&font, 'e'), 0..10);
}

#[test]
fn lookup_miss_uses_configured_default() {
    let table: [u8; 4] = [3, 5, 0, 8];
    let font = test_font();
    let m = LookupTableGlyphWidthMapping::new(&table, Some(4));
    assert_eq!(m.glyph_width(&font, 'k'), 0..4);
    // In-table characters are unaffected by the default.
    assert_eq!(m.glyph_width(&font, 'a'), 0..3);
}

#[test]
fn zero_table_entry_gives_invisible_glyph() {
    let table: [u8; 4] = [3, 5, 0, 8];
    let font = test_font();
    let m = LookupTableGlyphWidthMapping::new(&table, None);
    // 'c' resolves to index 2, whose table entry is 0.
    let r = m.glyph_width(&font, 'c');
    assert_eq!(r, 0..0);
    assert_eq!(r.range_size(), 0);
    let vf = VariableFont { mono_font: font, glyph_width_mapping: &m };
    let g = vf.glyph('c');
    assert_eq!(g.size(), Size { width: 0, height: 12 });
}

#[test]
fn range_size_of_ordinary_and_empty_ranges() {
    assert_eq!((0u32..7u32).range_size(), 7);
    assert_eq!((2u32..7u32).range_size(), 5);
    assert_eq!((7u32..7u32).range_size(), 0);
    assert_eq!((7u32..2u32).range_size(), 0);
}

#[test]
fn glyph_is_cropped_to_mapped_width() {
    let table: [u8; 4] = [3, 5, 0, 8];
    let font = test_font();
    let m = LookupTableGlyphWidthMapping::new(&table, None);
    let vf = VariableFont { mono_font: font, glyph_width_mapping: &m };
    let g = vf.glyph('b');
    assert_eq!(g.size(), Size { width: 5, height: 12 });
    // 'b' is glyph index 1 of a 10-pixel strip cell, kept from column 0.
    assert_eq!(g.area.top_left.x, 10);
    assert_eq!(g.area.top_left.y, 0);
}

#[test]
fn glyph_height_always_native() {
    let table: [u8; 4] = [3, 5, 0, 8];
    let font = test_font();
    let m = LookupTableGlyphWidthMapping::new(&table, Some(4));
    let vf = VariableFont { mono_font: font, glyph_width_mapping: &m };
    for c in ['a', 'b', 'c', 'd', 'k', 'z', '!'] {
        assert_eq!(vf.glyph(c).size().height, 12);
    }
}

#[test]
fn metrics_pass_through_to_mono_font() {
    let table: [u8; 4] = [3, 5, 0, 8];
    let font = test_font();
    let m = LookupTableGlyphWidthMapping::new(&table, None);
    let vf = VariableFont { mono_font: font, glyph_width_mapping: &m };
    assert_eq!(vf.character_height(), 12);
    assert_eq!(vf.character_spacing(), 1);
    assert_eq!(vf.baseline(), 9);
    assert_eq!(vf.strikethrough(), DecorationDimensions { offset: 5, height: 1 });
    assert_eq!(vf.underline(), DecorationDimensions { offset: 11, height: 1 });
}

#[test]
fn measure_empty_string_is_zero() {
    let table: [u8; 4] = [3, 5, 0, 8];
    let font = test_font();
    let m = LookupTableGlyphWidthMapping::new(&table, None);
    let vf = VariableFont { mono_font: font, glyph_width_mapping: &m };
    assert_eq!(vf.measure_string_width(""), 0);
}

#[test]
fn measure_sums_widths_and_inner_spacing() {
    // Three characters with widths 3, 0 and 5 and spacing 1: each character
    // contributes its width plus one spacing, 3 + 1 + 0 + 1 + 5 + 1, and the
    // one trailing spacing comes back off, leaving 10.
    let table: [u8; 3] = [3, 0, 5];
    let font = test_font();
    let m = LookupTableGlyphWidthMapping::new(&table, None);
    let vf = VariableFont { mono_font: font, glyph_width_mapping: &m };
    assert_eq!(vf.measure_string_width("abc"), 10);
}

#[test]
fn measure_single_character_has_no_spacing() {
    let table: [u8; 4] = [3, 5, 0, 8];
    let font = test_font();
    let m = LookupTableGlyphWidthMapping::new(&table, None);
    let vf = VariableFont { mono_font: font, glyph_width_mapping: &m };
    assert_eq!(vf.measure_string_width("a"), 3);
    assert_eq!(vf.measure_string_width("c"), 0);
}

#[test]
fn measure_mixes_table_and_fallback_widths() {
    let table: [u8; 4] = [3, 5, 0, 8];
    let font = test_font();
    let m = LookupTableGlyphWidthMapping::new(&table, None);
    let vf = VariableFont { mono_font: font, glyph_width_mapping: &m };
    // 'a' -> 3, 'k' -> native 10, 'd' -> 8, plus 2 inner spacings.
    assert_eq!(vf.measure_string_width("akd"), 3 + 1 + 10 + 1 + 8);
}

#[test]
fn measure_with_zero_spacing_sums_bare_widths() {
    let table: [u8; 4] = [3, 5, 0, 8];
    let mut font = test_font();
    font.character_spacing = 0;
    let m = LookupTableGlyphWidthMapping::new(&table, None);
    let vf = VariableFont { mono_font: font, glyph_width_mapping: &m };
    assert_eq!(vf.measure_string_width("abd"), 3 + 5 + 8);
    assert_eq!(vf.measure_string_width(""), 0);
}

#[test]
fn default_wider_than_cell_is_returned_unclamped() {
    // The mapping does not clamp the range to the cell width: keeping the
    // range inside the cell is its caller's responsibility.
    let table: [u8; 4] = [3, 5, 0, 8];
    let font = test_font();
    let m = LookupTableGlyphWidthMapping::new(&table, Some(200));
    assert_eq!(m.glyph_width(&font, 'k'), 0..200);
}

#[test]
fn composer_equality_needs_equal_font_and_same_mapping() {
    let table: [u8; 4] = [3, 5, 0, 8];
    let font = test_font();
    let m1 = LookupTableGlyphWidthMapping::new(&table, None);
    let m2 = LookupTableGlyphWidthMapping::new(&table, None);
    let a = VariableFont { mono_font: font, glyph_width_mapping: &m1 };
    let b = VariableFont { mono_font: font, glyph_width_mapping: &m1 };
    let c = VariableFont { mono_font: font, glyph_width_mapping: &m2 };
    // Equal fonts and literally the same mapping object: equal.
    assert!(a.eq_given_mapping_identity(&b, true));
    // Equal fonts but two distinct, value-identical mapping objects: unequal.
    assert!(!a.eq_given_mapping_identity(&c, false));
    // Different fonts are never equal, whatever the mapping identity.
    let mut other = test_font();
    other.character_spacing = 2;
    let d = VariableFont { mono_font: other, glyph_width_mapping: &m1 };
    assert!(!a.eq_given_mapping_identity(&d, true));
}

#[test]
fn scenario_table_with_default_and_fallback() {
    // Table [3, 5, 0, 8], native cell width 10.
    let table: [u8; 4] = [3, 5, 0, 8];
    let font = test_font();
    let none = LookupTableGlyphWidthMapping::new(&table, None);
    // index 0
    assert_eq!(none.glyph_width(&font, 'a'), 0..3);
    // index 2: invisible
    assert_eq!(none.glyph_width(&font, 'c'), 0..0);
    // index 10, out of bounds: native width
    assert_eq!(none.glyph_width(&font, 'k'), 0..10);
    // index 10 with a default configured: the default
    let some = LookupTableGlyphWidthMapping::new(&table, Some(4));
    assert_eq!(some.glyph_width(&font, 'k'), 0..4);
}

#[test]
fn unmapped_character_uses_fallback_glyph() {
    let table: [u8; 4] = [3, 5, 0, 8];
    let font = test_font();
    // '!' is outside 'a'..'z', so it resolves to the fallback index 25,
    // outside the table: native width applies.
    let m = LookupTableGlyphWidthMapping::new(&table, None);
    assert_eq!(m.glyph_width(&font, '!'), 0..10);
    let vf = VariableFont { mono_font: font, glyph_width_mapping: &m };
    let g = vf.glyph('!');
    assert_eq!(g.size(), Size { width: 10, height: 12 });
    assert_eq!(g.area.top_left.x, 250);
}
