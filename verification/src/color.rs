//! Colours of the console: 24 bits of red, green and blue in one word.

use vstd::prelude::*;

verus! {

/// The 24-bit value that three channels pack into: red in bits 16 to 23,
/// green in bits 8 to 15, blue in bits 0 to 7.
pub open spec fn pack_rgb(r: u8, g: u8, b: u8) -> u32 {
    ((r as u32) << 16) | ((g as u32) << 8) | (b as u32)
}

/// What is left of a word when everything above bit 23 is dropped.
pub open spec fn low_24_bits(value: u32) -> u32 {
    value & 0x00ff_ffff
}

/// A colour of the display. Whatever it is made from, only the low 24 bits
/// are kept.
#[derive(Copy, Clone, Debug)]
pub struct FontColor(u32);

impl View for FontColor {
    type V = u32;

    /// The packed value of the colour.
    closed spec fn view(&self) -> u32 {
        self.0
    }
}

impl FontColor {
    /// A colour never has a bit set above bit 23.
    #[verifier::type_invariant]
    closed spec fn masked(self) -> bool {
        self.0 <= 0x00ff_ffff
    }

    /// The colour with the given red, green and blue channels.
    pub fn new(r: u8, g: u8, b: u8) -> (color: FontColor)
        ensures
            color@ == pack_rgb(r, g, b),
            color@ <= 0x00ff_ffff,
    {
        let val: u32 = ((r as u32) << 16) | ((g as u32) << 8) | (b as u32);
        assert((((r as u32) << 16) | ((g as u32) << 8) | (b as u32)) & 0x00ff_ffff == ((r as u32)
            << 16) | ((g as u32) << 8) | (b as u32)) by (bit_vector);
        assert((((r as u32) << 16) | ((g as u32) << 8) | (b as u32)) <= 0x00ff_ffff)
            by (bit_vector);
        FontColor(val & 0x00ff_ffff)
    }

    /// Pure blue.
    pub fn blue() -> (color: FontColor)
        ensures
            color@ == 0x0000ff,
    {
        FontColor(0x0000ff)
    }

    /// Pure red.
    pub fn red() -> (color: FontColor)
        ensures
            color@ == 0xff0000,
    {
        FontColor(0xff0000)
    }

    /// Pure green.
    pub fn green() -> (color: FontColor)
        ensures
            color@ == 0x00ff00,
    {
        FontColor(0x00ff00)
    }

    /// White.
    pub fn white() -> (color: FontColor)
        ensures
            color@ == 0xffffff,
    {
        FontColor(0xffffff)
    }

    /// Black, the colour of a cleared cell.
    pub fn black() -> (color: FontColor)
        ensures
            color@ == 0,
    {
        FontColor(0)
    }

    /// Yellow.
    pub fn yellow() -> (color: FontColor)
        ensures
            color@ == 0xffff00,
    {
        FontColor(0xffff00)
    }

    /// Orange.
    pub fn orange() -> (color: FontColor)
        ensures
            color@ == 0xff8000,
    {
        FontColor(0xff8000)
    }

    /// Indigo.
    pub fn indigo() -> (color: FontColor)
        ensures
            color@ == 0x00ffff,
    {
        FontColor(0x00ffff)
    }

    /// Purple.
    pub fn purple() -> (color: FontColor)
        ensures
            color@ == 0x8000ff,
    {
        FontColor(0x8000ff)
    }

    /// The colour that the low 24 bits of `value` stand for.
    pub fn from_u32(value: u32) -> (color: FontColor)
        ensures
            color@ == low_24_bits(value),
            color@ <= 0x00ff_ffff,
    {
        assert(value & 0x00ff_ffff <= 0x00ff_ffff) by (bit_vector);
        FontColor(value & 0x00ff_ffff)
    }

    /// The packed value, as the 32-bit pixel formats store it.
    pub fn to_u32(self) -> (value: u32)
        ensures
            value == self@,
            value <= 0x00ff_ffff,
    {
        proof {
            use_type_invariant(self);
        }
        self.0
    }

    /// The packed value, widened.
    pub fn to_u64(self) -> (value: u64)
        ensures
            value == self@,
    {
        self.0 as u64
    }

    /// The packed value, widened to the size of an index.
    pub fn to_usize(self) -> (value: usize)
        ensures
            value == self@,
    {
        self.0 as usize
    }

    /// The low 16 bits of the packed value, as the 16-bit pixel format
    /// stores it.
    pub fn to_u16(self) -> (value: u16)
        ensures
            value == self@ & 0xffff,
    {
        let packed: u32 = self.0;
        let low: u32 = packed & 0xffff;
        assert(packed & 0xffff <= 0xffff) by (bit_vector);
        low as u16
    }
}

impl From<u32> for FontColor {
    /// The colour that the low 24 bits of `value` stand for.
    fn from(value: u32) -> (color: FontColor) {
        FontColor::from_u32(value)
    }
}

impl vstd::std_specs::convert::FromSpecImpl<u32> for FontColor {
    open spec fn obeys_from_spec() -> bool {
        true
    }

    closed spec fn from_spec(value: u32) -> FontColor {
        FontColor(value & 0x00ff_ffff)
    }
}

impl From<FontColor> for u32 {
    /// The packed value of the colour.
    fn from(value: FontColor) -> (packed: u32) {
        value.to_u32()
    }
}

impl vstd::std_specs::convert::FromSpecImpl<FontColor> for u32 {
    open spec fn obeys_from_spec() -> bool {
        true
    }

    open spec fn from_spec(value: FontColor) -> u32 {
        value@
    }
}

/// A colour made by `from` holds the low 24 bits of the word it was made
/// from.
pub proof fn lemma_color_from(value: u32)
    ensures
        <FontColor as vstd::std_specs::convert::FromSpec<u32>>::from_spec(value)@ == low_24_bits(
            value,
        ),
{
}

/// Packing three channels and reading the value back gives the three
/// channels again, and nothing else.
pub proof fn lemma_color_channels(r: u8, g: u8, b: u8)
    ensures
        pack_rgb(r, g, b) <= 0x00ff_ffff,
        low_24_bits(pack_rgb(r, g, b)) == pack_rgb(r, g, b),
        (pack_rgb(r, g, b) >> 16) & 0xff == r,
        (pack_rgb(r, g, b) >> 8) & 0xff == g,
        pack_rgb(r, g, b) & 0xff == b,
{
    assert((((r as u32) << 16) | ((g as u32) << 8) | (b as u32)) <= 0x00ff_ffff) by (bit_vector);
    assert((((r as u32) << 16) | ((g as u32) << 8) | (b as u32)) & 0x00ff_ffff == ((r as u32)
        << 16) | ((g as u32) << 8) | (b as u32)) by (bit_vector);
    assert(((((r as u32) << 16) | ((g as u32) << 8) | (b as u32)) >> 16) & 0xff == r as u32)
        by (bit_vector);
    assert(((((r as u32) << 16) | ((g as u32) << 8) | (b as u32)) >> 8) & 0xff == g as u32)
        by (bit_vector);
    assert((((r as u32) << 16) | ((g as u32) << 8) | (b as u32)) & 0xff == b as u32)
        by (bit_vector);
}

/// A colour made from any word reads back as the low 24 bits of that word:
/// bits above bit 23 leave no trace, and making a colour from what was read
/// back changes nothing.
pub proof fn lemma_color_round_trip(value: u32)
    ensures
        low_24_bits(value) <= 0x00ff_ffff,
        low_24_bits(low_24_bits(value)) == low_24_bits(value),
        forall|high: u32| low_24_bits(value | (#[trigger] (high << 24))) == low_24_bits(value),
{
    assert(value & 0x00ff_ffff <= 0x00ff_ffff) by (bit_vector);
    assert((value & 0x00ff_ffff) & 0x00ff_ffff == value & 0x00ff_ffff) by (bit_vector);
    assert forall|high: u32| low_24_bits(value | (#[trigger] (high << 24))) == low_24_bits(
        value,
    ) by {
        assert((value | (high << 24)) & 0x00ff_ffff == value & 0x00ff_ffff) by (bit_vector);
    }
}

} // verus!
