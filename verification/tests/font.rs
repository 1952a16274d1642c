use textui::{BitmapFont, Font, GlyphMapping, RangeGlyphMapping};

fn rows(byte: u8) -> [u8; 16] {
    [byte; 16]
}

fn ascii_font() -> BitmapFont<RangeGlyphMapping> {
    let mut glyphs = Vec::new();
    for code in 0x20u8..=0x7e {
        glyphs.push(Font::new(rows(code)));
    }
    BitmapFont::new(glyphs, RangeGlyphMapping::new(' ', '~', ('?' as usize) - (' ' as usize)))
}

#[test]
fn leftmost_pixel_is_the_highest_bit() {
    let mut bits = [0u8; 16];
    bits[0] = 0b1000_0000;
    bits[1] = 0b0000_0001;
    bits[15] = 0b0100_0010;
    let glyph = Font::new(bits);
    assert!(glyph.is_frcolor(0, 0));
    for column in 1..8 {
        assert!(!glyph.is_frcolor(0, column));
    }
    assert!(glyph.is_frcolor(1, 7));
    for column in 0..7 {
        assert!(!glyph.is_frcolor(1, column));
    }
    assert!(glyph.is_frcolor(15, 1));
    assert!(glyph.is_frcolor(15, 6));
    assert!(!glyph.is_frcolor(15, 0));
    assert!(!glyph.is_frcolor(2, 3));
    assert_eq!(glyph.row(15), 0b0100_0010);
}

#[test]
fn range_mapping_counts_from_the_first_character() {
    let mapping = RangeGlyphMapping::new(' ', '~', 31);
    assert_eq!(mapping.index(' '), 0);
    assert_eq!(mapping.index('A'), 0x41 - 0x20);
    assert_eq!(mapping.index('~'), 0x7e - 0x20);
}

#[test]
fn range_mapping_replaces_unmapped_characters() {
    let mapping = RangeGlyphMapping::new(' ', '~', 31);
    assert_eq!(mapping.index('\u{7f}'), 31);
    assert_eq!(mapping.index('\n'), 31);
    assert_eq!(mapping.index('é'), 31);
}

#[test]
fn get_font_finds_the_glyph_of_a_character() {
    let font = ascii_font();
    assert_eq!(Font::get_font(&font, 'A'), Font::new(rows(0x41)));
    assert_eq!(font.char_map('z'), Font::new(rows(0x7a)));
    assert_eq!(Font::get_font(&font, 'é'), Font::new(rows(b'?')));
}

#[test]
fn a_glyph_number_without_glyph_is_blank() {
    let font = BitmapFont::new(vec![Font::new(rows(0xff))], RangeGlyphMapping::new('a', 'c', 7));
    assert_eq!(font.char_map('a'), Font::new(rows(0xff)));
    assert_eq!(font.char_map('b'), Font::new(rows(0)));
    assert_eq!(font.char_map('x'), Font::new(rows(0)));
}

#[test]
fn blank_glyph_has_no_bit_set() {
    let blank = Font::blank();
    assert_eq!(blank, Font::new([0u8; 16]));
    for row in 0..16 {
        for column in 0..8 {
            assert!(!blank.is_frcolor(row, column));
        }
    }
}
