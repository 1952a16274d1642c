use textui::{
    BitmapFont, Font, FontColor, LineId, LineIndex, RangeGlyphMapping, ScmBuffer, ScmBufferInfo,
    TextuiCharChromatic,
};

fn ascii_font() -> BitmapFont<RangeGlyphMapping> {
    let mut glyphs = Vec::new();
    for code in 0x20u8..=0x7e {
        glyphs.push(Font::new([code; 16]));
    }
    BitmapFont::new(glyphs, RangeGlyphMapping::new(' ', '~', ('?' as usize) - (' ' as usize)))
}

fn surface(width: u32, height: u32, depth: u32, device: bool) -> ScmBufferInfo {
    let memory = vec![0xeeu8; (width * height * (depth / 8)) as usize];
    let buffer = if device {
        ScmBuffer::DeviceBuffer(memory)
    } else {
        ScmBuffer::DoubleBuffer(memory)
    };
    ScmBufferInfo::new(width, height, depth, buffer).unwrap()
}

fn bytes(info: &ScmBufferInfo) -> Vec<u8> {
    (0..info.buf_size()).map(|at| info.byte(at)).collect()
}

/// The bytes of a surface of 0xee on which one glyph was drawn, worked out
/// pixel by pixel.
fn expected(
    width: usize,
    height: usize,
    depth: usize,
    row: usize,
    column: usize,
    glyph: u8,
    fr: u32,
    bk: u32,
) -> Vec<u8> {
    let bpp = depth / 8;
    let mut out = vec![0xeeu8; width * height * bpp];
    for i in 0..16 {
        for j in 0..8 {
            let color = if glyph & (0x80 >> j) != 0 { fr } else { bk };
            let pixel = (row * 16 + i) * width + column * 8 + j;
            for k in 0..bpp {
                out[pixel * bpp + k] = (color >> (8 * k)) as u8;
            }
        }
    }
    out
}

#[test]
fn refresh_character_draws_foreground_and_background_32_bits() {
    let font = ascii_font();
    let mut info = surface(16, 32, 32, false);
    let cell = TextuiCharChromatic::new(Some('A'), FontColor::red(), FontColor::blue());
    let done = cell.textui_refresh_character(LineId::new(1), LineIndex::new(1), &font, &mut info);
    assert_eq!(done, Ok(0));
    let got = bytes(&info);
    assert_eq!(got, expected(16, 32, 32, 1, 1, 0x41, 0xff0000, 0x0000ff));
    // glyph 0x41: the pixels in columns 1 and 7 of the cell are foreground
    let first = (16 * 16 + 8) * 4;
    assert_eq!(&got[first..first + 4], &[0xff, 0, 0, 0]);
    assert_eq!(&got[first + 4..first + 8], &[0, 0, 0xff, 0]);
    assert_eq!(&got[first + 28..first + 32], &[0, 0, 0xff, 0]);
    // the cell to the left is untouched
    assert_eq!(&got[first - 4..first], &[0xee; 4]);
}

#[test]
fn refresh_character_draws_24_bits() {
    let font = ascii_font();
    let mut info = surface(24, 16, 24, false);
    let cell = TextuiCharChromatic::new(
        Some('z'),
        FontColor::from_u32(0x123456),
        FontColor::from_u32(0xabcdef),
    );
    cell.textui_refresh_character(LineId::new(0), LineIndex::new(2), &font, &mut info).unwrap();
    assert_eq!(bytes(&info), expected(24, 16, 24, 0, 2, 0x7a, 0x123456, 0xabcdef));
}

#[test]
fn refresh_character_draws_16_bits() {
    let font = ascii_font();
    let mut info = surface(8, 48, 16, false);
    let cell = TextuiCharChromatic::new(
        Some('#'),
        FontColor::from_u32(0x123456),
        FontColor::from_u32(0xabcdef),
    );
    cell.textui_refresh_character(LineId::new(2), LineIndex::new(0), &font, &mut info).unwrap();
    let got = bytes(&info);
    assert_eq!(got, expected(8, 48, 16, 2, 0, 0x23, 0x123456, 0xabcdef));
    // 0x23 = 0010_0011: first pixel is background, truncated to two bytes
    assert_eq!(&got[32 * 8 * 2..32 * 8 * 2 + 2], &[0xef, 0xcd]);
}

#[test]
fn a_cell_without_character_is_filled_with_its_background() {
    // every glyph of this font has bits set, that of the space too
    let font = ascii_font();
    for depth in [16usize, 24, 32] {
        let mut blank = surface(16, 16, depth as u32, false);
        TextuiCharChromatic::new(None, FontColor::white(), FontColor::green())
            .textui_refresh_character(LineId::new(0), LineIndex::new(1), &font, &mut blank)
            .unwrap();
        // a glyph without any bit set: all 128 pixels are background
        assert_eq!(bytes(&blank), expected(16, 16, depth, 0, 1, 0x00, 0xffffff, 0x00ff00));
        let mut space = surface(16, 16, depth as u32, false);
        TextuiCharChromatic::new(Some(' '), FontColor::white(), FontColor::green())
            .textui_refresh_character(LineId::new(0), LineIndex::new(1), &font, &mut space)
            .unwrap();
        assert_eq!(bytes(&space), expected(16, 16, depth, 0, 1, 0x20, 0xffffff, 0x00ff00));
        assert_ne!(bytes(&blank), bytes(&space));
    }
    let mut early = surface(8, 16, 32, true);
    TextuiCharChromatic::new(None, FontColor::red(), FontColor::blue())
        .no_init_textui_render_chromatic(LineId::new(0), LineIndex::new(0), &font, &mut early);
    let mut all_blue = Vec::new();
    for _ in 0..8 * 16 {
        all_blue.extend_from_slice(&[0xff, 0x00, 0x00, 0x00]);
    }
    assert_eq!(bytes(&early), all_blue);
}

#[test]
fn a_cell_off_the_surface_is_not_drawn() {
    let font = ascii_font();
    let cell = TextuiCharChromatic::new(Some('A'), FontColor::red(), FontColor::blue());
    let untouched = vec![0xeeu8; 16 * 32 * 4];
    for (row, column) in [(-1, 0), (0, -1), (2, 0), (0, 2), (i32::MAX, 0), (0, i32::MAX)] {
        let mut info = surface(16, 32, 32, false);
        let done = cell.textui_refresh_character(
            LineId::new(row),
            LineIndex::new(column),
            &font,
            &mut info,
        );
        assert_eq!(done, Ok(0));
        assert_eq!(bytes(&info), untouched);
    }
    // a surface whose width is no multiple of 8 has no cell in the rest
    let mut narrow = surface(15, 16, 32, false);
    cell.textui_refresh_character(LineId::new(0), LineIndex::new(1), &font, &mut narrow).unwrap();
    assert_eq!(bytes(&narrow), vec![0xeeu8; 15 * 16 * 4]);
}

#[test]
fn cell_keeps_what_it_was_made_with() {
    let cell = TextuiCharChromatic::new(Some('q'), FontColor::red(), FontColor::blue());
    assert_eq!(cell.c(), Some('q'));
    assert_eq!(cell.frcolor().to_u32(), 0xff0000);
    assert_eq!(cell.bkcolor().to_u32(), 0x0000ff);
}

#[test]
fn early_renderer_draws_what_the_window_renderer_draws() {
    let font = ascii_font();
    for depth in [16u32, 24, 32] {
        let mut by_pixel = surface(24, 32, depth, true);
        let mut by_address = surface(24, 32, depth, true);
        let cell = TextuiCharChromatic::new(
            Some('K'),
            FontColor::from_u32(0x123456),
            FontColor::from_u32(0xabcdef),
        );
        cell.textui_refresh_character(LineId::new(1), LineIndex::new(2), &font, &mut by_pixel)
            .unwrap();
        cell.no_init_textui_render_chromatic(
            LineId::new(1),
            LineIndex::new(2),
            &font,
            &mut by_address,
        );
        assert_eq!(bytes(&by_pixel), bytes(&by_address));
        assert_eq!(
            bytes(&by_address),
            expected(24, 32, depth as usize, 1, 2, b'K', 0x123456, 0xabcdef)
        );
    }
}

#[test]
fn early_renderer_leaves_out_cells_off_the_surface() {
    let font = ascii_font();
    let mut info = surface(8, 16, 32, true);
    let cell = TextuiCharChromatic::new(Some('K'), FontColor::red(), FontColor::blue());
    cell.no_init_textui_render_chromatic(LineId::new(1), LineIndex::new(0), &font, &mut info);
    cell.no_init_textui_render_chromatic(LineId::new(0), LineIndex::new(-3), &font, &mut info);
    assert_eq!(bytes(&info), vec![0xeeu8; 8 * 16 * 4]);
}
