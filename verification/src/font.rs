//! Glyphs: the 8x16 bitmap of a character, and the table that a character is
//! looked up in.

use vstd::prelude::*;

verus! {

/// Whether the pixel in the given row and column of a glyph belongs to the
/// character (and not to its background): bit `7 - column` of the row's
/// byte, so that the leftmost pixel is the highest bit.
pub open spec fn glyph_bit(glyph: Seq<u8>, row: int, column: int) -> bool {
    glyph[row] & (1u8 << ((7 - column) as u8)) != 0
}

/// The glyph that shows nothing: every row empty.
pub open spec fn blank_glyph() -> Seq<u8> {
    Seq::new(16, |row: int| 0u8)
}

/// The bitmap of one character: sixteen rows of eight pixels, a byte a row.
#[derive(Debug, Copy, Clone, Eq, PartialEq, PartialOrd, Ord, Hash)]
pub struct Font([u8; 16]);

impl View for Font {
    type V = Seq<u8>;

    /// The sixteen row bytes, top row first.
    closed spec fn view(&self) -> Seq<u8> {
        self.0@
    }
}

impl Font {
    /// The glyph with the given rows.
    pub fn new(rows: [u8; 16]) -> (font: Font)
        ensures
            font@ == rows@,
            font@.len() == 16,
    {
        Font(rows)
    }

    /// The glyph that shows nothing.
    pub fn blank() -> (font: Font)
        ensures
            font@ == blank_glyph(),
            font@.len() == 16,
    {
        let blank: Font = Font([0u8; 16]);
        assert(blank@ =~= blank_glyph());
        blank
    }

    /// The glyph that `font` holds for `character`.
    pub fn get_font<M: GlyphMapping>(font: &BitmapFont<M>, character: char) -> (glyph: Font)
        ensures
            glyph@ == font.glyph(character),
            glyph@.len() == 16,
    {
        font.char_map(character)
    }

    /// The byte of the given row.
    pub fn row(&self, height: usize) -> (bits: u8)
        requires
            height < 16,
        ensures
            bits == self@[height as int],
    {
        self.0[height]
    }

    /// Whether the pixel at row `height` and column `width` is drawn in the
    /// foreground colour.
    pub fn is_frcolor(&self, height: usize, width: usize) -> (foreground: bool)
        requires
            height < 16,
            width < 8,
        ensures
            foreground == glyph_bit(self@, height as int, width as int),
    {
        let w: u8 = self.0[height];
        let shift: u8 = 7 - (width as u8);
        let testbit: u8 = 1u8 << shift;
        w & testbit != 0
    }
}

/// The rule by which a font finds the glyph of a character.
pub trait GlyphMapping {
    /// The number of the glyph that stands for `c`. Where the font has no
    /// glyph of its own for `c`, this is the number of the glyph shown in its
    /// place.
    spec fn glyph_index(&self, c: char) -> usize;

    /// Maps a character to the number of its glyph.
    fn index(&self, c: char) -> (i: usize)
        ensures
            i == self.glyph_index(c),
    ;
}

/// The mapping of a font that holds the glyphs of one unbroken range of
/// characters, in their order, and shows one of them for every other
/// character.
#[derive(Debug, Copy, Clone)]
pub struct RangeGlyphMapping {
    first: char,
    last: char,
    replacement: usize,
}

impl RangeGlyphMapping {
    /// The mapping for the characters `first ..= last`, with the glyph number
    /// `replacement` for all others.
    pub fn new(first: char, last: char, replacement: usize) -> (mapping: RangeGlyphMapping)
        ensures
            mapping.first() == first,
            mapping.last() == last,
            mapping.replacement() == replacement,
    {
        RangeGlyphMapping { first, last, replacement }
    }

    /// The first character that has a glyph of its own.
    pub closed spec fn first(&self) -> char {
        self.first
    }

    /// The last character that has a glyph of its own.
    pub closed spec fn last(&self) -> char {
        self.last
    }

    /// The number of the glyph shown for a character outside the range.
    pub closed spec fn replacement(&self) -> usize {
        self.replacement
    }
}

impl GlyphMapping for RangeGlyphMapping {
    open spec fn glyph_index(&self, c: char) -> usize {
        if self.first() <= c && c <= self.last() {
            ((c as u32) - (self.first() as u32)) as usize
        } else {
            self.replacement()
        }
    }

    fn index(&self, c: char) -> (i: usize) {
        if self.first <= c && c <= self.last {
            let offset: u32 = (c as u32) - (self.first as u32);
            offset as usize
        } else {
            self.replacement
        }
    }
}

/// A font: its glyphs by number, and the rule that finds the number for a
/// character.
pub struct BitmapFont<M: GlyphMapping> {
    glyphs: Vec<Font>,
    mapping: M,
}

impl<M: GlyphMapping> BitmapFont<M> {
    /// The font with the given glyphs and mapping.
    pub fn new(glyphs: Vec<Font>, mapping: M) -> (font: BitmapFont<M>)
        ensures
            font.glyphs() == glyphs@,
            font.mapping() == mapping,
    {
        BitmapFont { glyphs, mapping }
    }

    /// The glyphs of the font, by number.
    pub closed spec fn glyphs(&self) -> Seq<Font> {
        self.glyphs@
    }

    /// The mapping of the font.
    pub closed spec fn mapping(&self) -> M {
        self.mapping
    }

    /// The rows of the glyph drawn for `c`: the glyph whose number the
    /// mapping gives, or the blank glyph where the font holds no glyph of
    /// that number.
    pub open spec fn glyph(&self, c: char) -> Seq<u8> {
        let i = self.mapping().glyph_index(c);
        if i < self.glyphs().len() {
            self.glyphs()[i as int]@
        } else {
            blank_glyph()
        }
    }

    /// The glyph drawn for `c`.
    pub fn char_map(&self, c: char) -> (glyph: Font)
        ensures
            glyph@ == self.glyph(c),
            glyph@.len() == 16,
    {
        let i: usize = self.mapping.index(c);
        if i < self.glyphs.len() {
            self.glyphs[i]
        } else {
            Font::blank()
        }
    }
}

} // verus!
