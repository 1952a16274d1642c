use textui::FontColor;

#[test]
fn new_packs_red_green_blue() {
    assert_eq!(FontColor::new(0x12, 0x34, 0x56).to_u32(), 0x0012_3456);
    assert_eq!(FontColor::new(0xff, 0x80, 0x00).to_u32(), 0x00ff_8000);
    assert_eq!(FontColor::new(0, 0, 0).to_u32(), 0);
    assert_eq!(FontColor::new(0xff, 0xff, 0xff).to_u32(), 0x00ff_ffff);
}

#[test]
fn from_u32_drops_bits_above_bit_23() {
    assert_eq!(FontColor::from_u32(0xab12_3456).to_u32(), 0x0012_3456);
    assert_eq!(FontColor::from_u32(0xff00_0000).to_u32(), 0);
    assert_eq!(FontColor::from_u32(0x0100_0001).to_u32(), 1);
    assert_eq!(FontColor::from_u32(u32::MAX).to_u32(), 0x00ff_ffff);
}

#[test]
fn color_round_trip_keeps_the_24_bit_value() {
    for value in [0u32, 1, 0x00ff_ffff, 0x0012_3456, 0x8000_0000, 0xdead_beef] {
        let color = FontColor::from_u32(value);
        let read = color.to_u32();
        assert_eq!(read, value & 0x00ff_ffff);
        assert_eq!(FontColor::from_u32(read).to_u32(), read);
    }
    for (r, g, b) in [(0u8, 0u8, 0u8), (1, 2, 3), (0xff, 0, 0x80), (0x7f, 0xff, 0x01)] {
        let read = FontColor::new(r, g, b).to_u32();
        assert_eq!((read >> 16) as u8, r);
        assert_eq!((read >> 8) as u8, g);
        assert_eq!(read as u8, b);
        assert_eq!(read >> 24, 0);
    }
}

#[test]
fn named_colors_have_their_values() {
    assert_eq!(FontColor::blue().to_u32(), 0x0000ff);
    assert_eq!(FontColor::red().to_u32(), 0xff0000);
    assert_eq!(FontColor::green().to_u32(), 0x00ff00);
    assert_eq!(FontColor::white().to_u32(), 0xffffff);
    assert_eq!(FontColor::black().to_u32(), 0);
    assert_eq!(FontColor::yellow().to_u32(), 0xffff00);
    assert_eq!(FontColor::orange().to_u32(), 0xff8000);
    assert_eq!(FontColor::indigo().to_u32(), 0x00ffff);
    assert_eq!(FontColor::purple().to_u32(), 0x8000ff);
}

#[test]
fn color_widens_and_narrows() {
    let color = FontColor::new(0x12, 0x34, 0x56);
    assert_eq!(color.to_u64(), 0x12_3456u64);
    assert_eq!(color.to_usize(), 0x12_3456usize);
    assert_eq!(color.to_u16(), 0x3456u16);
}

#[test]
fn from_and_into_convert_like_the_named_functions() {
    let color: FontColor = 0xff12_3456u32.into();
    assert_eq!(color.to_u32(), 0x0012_3456);
    let packed: u32 = FontColor::new(1, 2, 3).into();
    assert_eq!(packed, 0x0001_0203);
    assert_eq!(u32::from(FontColor::from(u32::MAX)), 0x00ff_ffff);
}
