use textui::window::{TextuiVlineChromatic, TextuiWindow, WindowFlag, WindowId};
use textui::{
    BitmapFont, Font, FontColor, LineId, LineIndex, RangeGlyphMapping, ScmBuffer, ScmBufferInfo,
    TextuiCharChromatic, TextuiError,
};

struct Screen {
    font: BitmapFont<RangeGlyphMapping>,
    info: ScmBufferInfo,
    rows: i32,
    serial: Vec<u8>,
}

fn ascii_font() -> BitmapFont<RangeGlyphMapping> {
    let mut glyphs = Vec::new();
    for code in 0x20u8..=0x7e {
        glyphs.push(Font::new([code; 16]));
    }
    BitmapFont::new(glyphs, RangeGlyphMapping::new(' ', '~', ('?' as usize) - (' ' as usize)))
}

/// A screen of `rows` rows of `columns` cells, 32 bits a pixel, all zero.
fn screen(columns: u32, rows: u32) -> Screen {
    let memory = vec![0u8; (columns * 8 * rows * 16 * 4) as usize];
    Screen {
        font: ascii_font(),
        info: ScmBufferInfo::new(columns * 8, rows * 16, 32, ScmBuffer::DoubleBuffer(memory))
            .unwrap(),
        rows: rows as i32,
        serial: Vec::new(),
    }
}

fn window(vlines: i32, chars: i32) -> TextuiWindow {
    let mut next = 0u32;
    TextuiWindow::new(WindowId::new(&mut next), WindowFlag::chromatic(), vlines, chars)
}

fn put(w: &mut TextuiWindow, s: &mut Screen, text: &str) -> Result<(), TextuiError> {
    for c in text.chars() {
        w.textui_putchar_window(
            c,
            FontColor::white(),
            FontColor::black(),
            true,
            &s.font,
            &mut s.info,
            s.rows,
            &mut s.serial,
        )?;
    }
    Ok(())
}

fn line_text(w: &TextuiWindow, line: i32) -> String {
    (0..w.chars_per_line())
        .map(|i| w.cell(LineId::new(line), LineIndex::new(i)).c().unwrap_or('.'))
        .collect()
}

fn bytes(info: &ScmBufferInfo) -> Vec<u8> {
    (0..info.buf_size()).map(|at| info.byte(at)).collect()
}

/// What the screen must show: every visible line of the window drawn in the
/// row that its place behind the top gives it.
fn drawn(w: &TextuiWindow, s: &Screen, lines: &[(i32, i32)]) -> Vec<u8> {
    let mut info = ScmBufferInfo::new(
        s.info.width(),
        s.info.height(),
        32,
        ScmBuffer::DoubleBuffer(vec![0u8; s.info.buf_size()]),
    )
    .unwrap();
    for &(line, row) in lines {
        for i in 0..w.chars_per_line() {
            w.cell(LineId::new(line), LineIndex::new(i))
                .textui_refresh_character(LineId::new(row), LineIndex::new(i), &s.font, &mut info)
                .unwrap();
        }
    }
    bytes(&info)
}

fn state(w: &TextuiWindow) -> (i32, i32, i32, i32) {
    let operating = w.vline_operating();
    (operating.data(), w.line_index(operating).data(), w.top_vline().data(), w.vlines_used())
}

#[test]
fn new_window_is_cleared() {
    let w = window(4, 8);
    assert_eq!(w.vline_sum(), 4);
    assert_eq!(w.chars_per_line(), 8);
    assert_eq!(state(&w), (0, 0, 0, 1));
    for line in 0..4 {
        assert_eq!(line_text(&w, line), "........");
        assert_eq!(w.line_index(LineId::new(line)).data(), 0);
        let cell = w.cell(LineId::new(line), LineIndex::new(3));
        assert_eq!(cell.frcolor().to_u32(), 0);
        assert_eq!(cell.bkcolor().to_u32(), 0);
    }
    assert!(w.window_flags().contains(WindowFlag::chromatic()));
}

#[test]
fn window_ids_count_up_and_wrap() {
    let mut next = 0u32;
    assert_eq!(WindowId::new(&mut next).data(), 0);
    assert_eq!(WindowId::new(&mut next).data(), 1);
    assert_eq!(next, 2);
    let mut last = u32::MAX;
    assert_eq!(WindowId::new(&mut last).data(), u32::MAX);
    assert_eq!(last, 0);
    let mut n = 41u32;
    let w = TextuiWindow::new(WindowId::new(&mut n), WindowFlag::chromatic(), 1, 1);
    assert_eq!(w.id().data(), 41);
}

#[test]
fn window_flags_know_the_chromatic_bit() {
    assert_eq!(WindowFlag::chromatic().bits(), 1);
    assert_eq!(WindowFlag::empty().bits(), 0);
    assert!(WindowFlag::chromatic().contains(WindowFlag::chromatic()));
    assert!(WindowFlag::chromatic().contains(WindowFlag::empty()));
    assert!(!WindowFlag::empty().contains(WindowFlag::chromatic()));
    assert_eq!(WindowFlag::from_bits_truncate(0xff), WindowFlag::chromatic());
    assert_eq!(WindowFlag::from_bits_truncate(0xfe), WindowFlag::empty());
}

#[test]
fn default_window_has_no_lines() {
    let w = TextuiWindow::default();
    assert_eq!(w.vline_sum(), 0);
    assert_eq!(w.chars_per_line(), 0);
    assert_eq!(w.vlines_used(), 1);
    assert_eq!(w.top_vline().data(), 0);
    assert_eq!(w.vline_operating().data(), 0);
}

#[test]
fn line_stores_erases_and_clears() {
    let mut line = TextuiVlineChromatic::new(3);
    assert_eq!(line.len(), 3);
    assert_eq!(line.index().data(), 0);
    let at = line.store(TextuiCharChromatic::new(Some('x'), FontColor::red(), FontColor::blue()));
    assert_eq!(at.data(), 0);
    assert_eq!(line.index().data(), 1);
    assert_eq!(line.cell(0).c(), Some('x'));
    let at = line.erase();
    assert_eq!(at.data(), 0);
    assert_eq!(line.index().data(), 0);
    assert_eq!(line.cell(0).c(), None);
    assert_eq!(line.cell(0).frcolor().to_u32(), 0xff0000);
    assert_eq!(line.cell(0).bkcolor().to_u32(), 0x0000ff);
    line.store(TextuiCharChromatic::new(Some('y'), FontColor::red(), FontColor::blue()));
    line.clear();
    assert_eq!(line.index().data(), 0);
    for i in 0..3 {
        assert_eq!(line.cell(i).c(), None);
        assert_eq!(line.cell(i).frcolor().to_u32(), 0);
        assert_eq!(line.cell(i).bkcolor().to_u32(), 0);
    }
}

#[test]
fn seven_characters_and_a_newline_end_on_the_second_line() {
    let mut w = window(4, 8);
    let mut s = screen(8, 2);
    put(&mut w, &mut s, "ABCDEFG\n").unwrap();
    assert_eq!(line_text(&w, 0), "ABCDEFG.");
    assert_eq!(state(&w), (1, 0, 0, 2));
    assert_eq!(w.line_index(LineId::new(0)).data(), 7);
    assert_eq!(bytes(&s.info), drawn(&w, &s, &[(0, 0)]));
    assert_eq!(s.serial, b"ABCDEFG\n\r".to_vec());
}

#[test]
fn newline_on_a_full_screen_scrolls() {
    let mut w = window(4, 8);
    let mut s = screen(8, 2);
    put(&mut w, &mut s, "ABCDEFG\n").unwrap();
    put(&mut w, &mut s, "\n").unwrap();
    assert_eq!(state(&w), (2, 0, 1, 2));
    assert_eq!(line_text(&w, 2), "........");
    assert_eq!(line_text(&w, 0), "ABCDEFG.");
    // the screen shows lines 1 and 2, both blank
    assert_eq!(bytes(&s.info), drawn(&w, &s, &[(1, 0), (2, 1)]));
}

#[test]
fn tab_runs_over_the_end_of_the_line() {
    let mut w = window(4, 4);
    let mut s = screen(4, 2);
    put(&mut w, &mut s, "AB\t").unwrap();
    assert_eq!(line_text(&w, 0), "AB  ");
    // four of the six spaces went to the next line, filled it, and began a third
    assert_eq!(line_text(&w, 1), "    ");
    assert_eq!(line_text(&w, 2), "....");
    assert_eq!(state(&w), (2, 0, 1, 2));
    assert_eq!(w.line_index(LineId::new(0)).data(), 4);
    assert_eq!(w.line_index(LineId::new(1)).data(), 4);
    assert_eq!(s.serial, b"AB\t".to_vec());
}

#[test]
fn refresh_rejects_what_the_window_does_not_have() {
    let mut w = window(4, 8);
    let mut s = screen(8, 2);
    put(&mut w, &mut s, "hello").unwrap();
    let before_state = state(&w);
    let before_text = line_text(&w, 0);
    let before_pixels = bytes(&s.info);
    let done = w.textui_refresh_characters(
        LineId::new(4),
        LineIndex::new(0),
        1,
        &s.font,
        &mut s.info,
        s.rows,
    );
    assert_eq!(done, Err(TextuiError::InvalidArgument));
    let done = w.textui_refresh_characters(
        LineId::new(0),
        LineIndex::new(8),
        1,
        &s.font,
        &mut s.info,
        s.rows,
    );
    assert_eq!(done, Err(TextuiError::InvalidArgument));
    let done = w.textui_refresh_characters(
        LineId::new(0),
        LineIndex::new(8),
        0,
        &s.font,
        &mut s.info,
        s.rows,
    );
    assert_eq!(done, Err(TextuiError::InvalidArgument));
    for (line, start, count) in [(-1, 0, 1), (0, -1, 1), (0, 0, -1), (0, 7, 2), (0, 0, 9)] {
        let done = w.textui_refresh_characters(
            LineId::new(line),
            LineIndex::new(start),
            count,
            &s.font,
            &mut s.info,
            s.rows,
        );
        assert_eq!(done, Err(TextuiError::InvalidArgument));
    }
    assert_eq!(state(&w), before_state);
    assert_eq!(line_text(&w, 0), before_text);
    assert_eq!(bytes(&s.info), before_pixels);
    let done = w.textui_refresh_vline(LineId::new(4), &s.font, &mut s.info, s.rows);
    assert_eq!(done, Err(TextuiError::InvalidArgument));
    assert_eq!(bytes(&s.info), before_pixels);
}

#[test]
fn refresh_draws_the_cells_asked_for() {
    let mut w = window(2, 4);
    let mut s = screen(4, 2);
    put(&mut w, &mut s, "abc").unwrap();
    // wipe the screen, then draw two cells of line 0 again
    let mut wiped = screen(4, 2);
    let done = w.textui_refresh_characters(
        LineId::new(0),
        LineIndex::new(1),
        2,
        &wiped.font,
        &mut wiped.info,
        2,
    );
    assert_eq!(done, Ok(()));
    let mut expected = screen(4, 2);
    for i in 1..3 {
        w.cell(LineId::new(0), LineIndex::new(i))
            .textui_refresh_character(
                LineId::new(0),
                LineIndex::new(i),
                &expected.font,
                &mut expected.info,
            )
            .unwrap();
    }
    assert_eq!(bytes(&wiped.info), bytes(&expected.info));
    assert_ne!(bytes(&wiped.info), vec![0u8; wiped.info.buf_size()]);
    // an empty request in a valid column draws nothing
    let mut empty = screen(4, 2);
    let done = w.textui_refresh_characters(
        LineId::new(0),
        LineIndex::new(3),
        0,
        &empty.font,
        &mut empty.info,
        2,
    );
    assert_eq!(done, Ok(()));
    assert_eq!(bytes(&empty.info), vec![0u8; empty.info.buf_size()]);
}

#[test]
fn refresh_vlines_goes_round_the_ring() {
    let mut w = window(3, 2);
    let mut s = screen(2, 3);
    put(&mut w, &mut s, "a\nb\nc").unwrap();
    assert_eq!(state(&w), (2, 1, 0, 3));
    let mut again = screen(2, 3);
    let done = w.textui_refresh_vlines(LineId::new(1), 3, &again.font, &mut again.info, 3);
    assert_eq!(done, Ok(0));
    // lines 1, 2, then 0: with the top at line 0 each is drawn in its own row
    assert_eq!(bytes(&again.info), drawn(&w, &again, &[(0, 0), (1, 1), (2, 2)]));
    // nothing to draw
    let mut none = screen(2, 3);
    assert_eq!(w.textui_refresh_vlines(LineId::new(1), 0, &none.font, &mut none.info, 3), Ok(0));
    assert_eq!(w.textui_refresh_vlines(LineId::new(1), -2, &none.font, &mut none.info, 3), Ok(0));
    assert_eq!(bytes(&none.info), vec![0u8; none.info.buf_size()]);
    // up to the end of the ring and once round it: every line, some twice
    let mut twice = screen(2, 3);
    assert_eq!(w.textui_refresh_vlines(LineId::new(1), 5, &twice.font, &mut twice.info, 3), Ok(0));
    assert_eq!(bytes(&twice.info), drawn(&w, &twice, &[(0, 0), (1, 1), (2, 2)]));
    // more lines than are left for the start of the ring: nothing is drawn
    let mut over = screen(2, 3);
    let done = w.textui_refresh_vlines(LineId::new(1), 6, &over.font, &mut over.info, 3);
    assert_eq!(done, Err(TextuiError::InvalidArgument));
    assert_eq!(bytes(&over.info), vec![0u8; over.info.buf_size()]);
    // a start that is no line of the ring: nothing is drawn
    for (start, count) in [(-1, 2), (-1, 1), (3, 1), (3, 3), (4, 2), (i32::MAX, 1), (i32::MIN, 4)] {
        let mut outside = screen(2, 3);
        let done = w.textui_refresh_vlines(
            LineId::new(start),
            count,
            &outside.font,
            &mut outside.info,
            3,
        );
        assert_eq!(done, Err(TextuiError::InvalidArgument));
        assert_eq!(bytes(&outside.info), vec![0u8; outside.info.buf_size()]);
    }
    assert_eq!(state(&w), (2, 1, 0, 3));
    // without a line to draw the start is not looked at
    let mut idle = screen(2, 3);
    assert_eq!(w.textui_refresh_vlines(LineId::new(3), 0, &idle.font, &mut idle.info, 3), Ok(0));
    assert_eq!(bytes(&idle.info), vec![0u8; idle.info.buf_size()]);
}

#[test]
fn a_line_takes_one_character_less_than_it_has_cells() {
    for chars in [1i32, 2, 5, 8] {
        let mut w = window(3, chars);
        let mut s = screen(chars as u32, 3);
        let text: String = (0..chars - 1).map(|i| (b'a' + i as u8) as char).collect();
        put(&mut w, &mut s, &text).unwrap();
        assert_eq!(state(&w), (0, chars - 1, 0, 1));
        for i in 0..chars - 1 {
            assert_eq!(
                w.cell(LineId::new(0), LineIndex::new(i)).c(),
                Some((b'a' + i as u8) as char)
            );
        }
        assert_eq!(w.cell(LineId::new(0), LineIndex::new(chars - 1)).c(), None);
        // the next character fills the last cell and begins a new line
        put(&mut w, &mut s, "Z").unwrap();
        assert_eq!(state(&w), (1, 0, 0, 2));
        assert_eq!(w.cell(LineId::new(0), LineIndex::new(chars - 1)).c(), Some('Z'));
        assert_eq!(w.line_index(LineId::new(0)).data(), chars);
    }
}

#[test]
fn newlines_fill_the_screen_and_then_scroll() {
    for (vlines, rows) in [(4, 2), (5, 5), (3, 1), (6, 3)] {
        let mut w = window(vlines, 4);
        let mut s = screen(4, rows as u32);
        for k in 1..=(rows - 1) {
            put(&mut w, &mut s, "\n").unwrap();
            assert_eq!(state(&w), (k % vlines, 0, 0, 1 + k));
        }
        // the newline that finds the screen full moves the top by one line
        put(&mut w, &mut s, "\n").unwrap();
        assert_eq!(state(&w), (rows % vlines, 0, 1 % vlines, rows));
        put(&mut w, &mut s, "\n").unwrap();
        assert_eq!(state(&w), ((rows + 1) % vlines, 0, 2 % vlines, rows));
        for k in (rows + 2)..(rows + 2 * vlines) {
            put(&mut w, &mut s, "\n").unwrap();
            assert_eq!(state(&w), (k % vlines, 0, (k - rows + 1) % vlines, rows));
        }
    }
}

#[test]
fn scrolling_moves_the_text_up_on_the_screen() {
    let mut w = window(2, 4);
    let mut s = screen(4, 2);
    put(&mut w, &mut s, "ab\ncd\nef").unwrap();
    assert_eq!(state(&w), (0, 2, 1, 2));
    assert_eq!(line_text(&w, 1), "cd..");
    assert_eq!(line_text(&w, 0), "ef..");
    // line 1 is the top row, line 0 the row below it
    assert_eq!(bytes(&s.info), drawn(&w, &s, &[(1, 0), (0, 1)]));
}

#[test]
fn backspace_in_the_first_column_gives_up_the_line() {
    let mut w = window(4, 8);
    let mut s = screen(8, 4);
    put(&mut w, &mut s, "ab\ncd\n").unwrap();
    assert_eq!(state(&w), (2, 0, 0, 3));
    put(&mut w, &mut s, "\x08").unwrap();
    assert_eq!(state(&w), (1, 2, 0, 2));
    assert_eq!(line_text(&w, 2), "........");
    assert_eq!(line_text(&w, 1), "cd......");
    assert_eq!(bytes(&s.info), drawn(&w, &s, &[(0, 0), (1, 1), (2, 2), (3, 3)]));
}

#[test]
fn backspace_in_the_first_column_of_line_zero_wraps() {
    let mut w = window(4, 8);
    let mut s = screen(8, 4);
    put(&mut w, &mut s, "\x08").unwrap();
    assert_eq!(state(&w), (3, 0, 0, 0));
    assert_eq!(line_text(&w, 0), "........");
    assert_eq!(w.line_index(LineId::new(0)).data(), 0);
}

#[test]
fn backspace_behind_the_first_column_erases_a_cell() {
    let mut w = window(2, 8);
    let mut s = screen(8, 2);
    for c in "abc".chars() {
        w.textui_putchar_window(
            c,
            FontColor::yellow(),
            FontColor::green(),
            true,
            &s.font,
            &mut s.info,
            2,
            &mut s.serial,
        )
        .unwrap();
    }
    let before = bytes(&s.info);
    // the colours of the backspace itself leave no trace
    w.textui_putchar_window(
        '\x08',
        FontColor::red(),
        FontColor::blue(),
        true,
        &s.font,
        &mut s.info,
        2,
        &mut s.serial,
    )
    .unwrap();
    assert_eq!(state(&w), (0, 2, 0, 1));
    assert_eq!(line_text(&w, 0), "ab......");
    let erased = w.cell(LineId::new(0), LineIndex::new(2));
    assert_eq!(erased.c(), None);
    assert_eq!(erased.frcolor().to_u32(), 0xffff00);
    assert_eq!(erased.bkcolor().to_u32(), 0x00ff00);
    for i in 0..2 {
        let kept = w.cell(LineId::new(0), LineIndex::new(i));
        assert_eq!(kept.frcolor().to_u32(), 0xffff00);
        assert_eq!(kept.bkcolor().to_u32(), 0x00ff00);
    }
    // only the block of the erased cell is drawn again: all of it green
    let now = bytes(&s.info);
    assert_eq!(now, drawn(&w, &s, &[(0, 0)]));
    let width = 8 * 8;
    for y in 0..32 {
        for x in 0..width {
            let at = (y * width + x) * 4;
            if y < 16 && (16..24).contains(&x) {
                assert_eq!(&now[at..at + 4], &[0x00, 0xff, 0x00, 0x00]);
            } else {
                assert_eq!(&now[at..at + 4], &before[at..at + 4]);
            }
        }
    }
    assert_eq!(s.serial, b"abc\x08".to_vec());
}

#[test]
fn tab_goes_to_the_next_multiple_of_eight() {
    for (start, end) in [(0, 8), (1, 8), (7, 8), (8, 16), (13, 16)] {
        let mut w = window(2, 20);
        let mut s = screen(20, 2);
        let text: String = (0..start).map(|_| 'x').collect();
        put(&mut w, &mut s, &text).unwrap();
        put(&mut w, &mut s, "\t").unwrap();
        assert_eq!(state(&w), (0, end, 0, 1));
        for i in start..end {
            assert_eq!(w.cell(LineId::new(0), LineIndex::new(i)).c(), Some(' '));
        }
        assert_eq!(w.cell(LineId::new(0), LineIndex::new(end)).c(), None);
    }
}

#[test]
fn tab_that_ends_in_the_last_column_begins_no_line() {
    let mut w = window(2, 9);
    let mut s = screen(9, 2);
    put(&mut w, &mut s, "\t").unwrap();
    assert_eq!(state(&w), (0, 8, 0, 1));
}

#[test]
fn tab_that_fills_the_line_begins_a_new_one() {
    let mut w = window(3, 8);
    let mut s = screen(8, 3);
    put(&mut w, &mut s, "abc\t").unwrap();
    assert_eq!(line_text(&w, 0), "abc     ");
    assert_eq!(state(&w), (1, 0, 0, 2));
    // with one cell a line every space begins a line
    let mut w = window(3, 1);
    let mut s = screen(1, 3);
    put(&mut w, &mut s, "\t").unwrap();
    assert_eq!(state(&w), (8 % 3, 0, 6 % 3, 3));
}

#[test]
fn tab_on_a_full_line_is_refused_and_changes_nothing() {
    let mut w = window(3, 4);
    let mut s = screen(4, 3);
    // fill line 0, go on to line 1, and come back to the full line
    put(&mut w, &mut s, "abcd").unwrap();
    assert_eq!(state(&w), (1, 0, 0, 2));
    put(&mut w, &mut s, "\x08").unwrap();
    assert_eq!(state(&w), (0, 4, 0, 1));
    let pixels = bytes(&s.info);
    s.serial.clear();
    assert_eq!(put(&mut w, &mut s, "\t"), Err(TextuiError::InvalidArgument));
    assert_eq!(state(&w), (0, 4, 0, 1));
    assert_eq!(line_text(&w, 0), "abcd");
    assert_eq!(bytes(&s.info), pixels);
    assert_eq!(s.serial, vec![b'\t']);
    let done = w.true_textui_putchar_window(
        'x',
        FontColor::white(),
        FontColor::black(),
        &s.font,
        &mut s.info,
        3,
    );
    assert_eq!(done, Err(TextuiError::InvalidArgument));
    assert_eq!(state(&w), (0, 4, 0, 1));
    // a character that takes a cell begins a new line first
    put(&mut w, &mut s, "e").unwrap();
    assert_eq!(state(&w), (1, 1, 0, 2));
    assert_eq!(line_text(&w, 1), "e...");
}

#[test]
fn nul_and_carriage_return_do_nothing() {
    let mut w = window(2, 4);
    let mut s = screen(4, 2);
    put(&mut w, &mut s, "a\0\rb").unwrap();
    assert_eq!(line_text(&w, 0), "ab..");
    assert_eq!(state(&w), (0, 2, 0, 1));
    assert_eq!(s.serial, b"ab".to_vec());
}

#[test]
fn characters_are_mirrored_by_their_low_byte() {
    let mut w = window(2, 8);
    let mut s = screen(8, 2);
    put(&mut w, &mut s, "é\u{141}\n").unwrap();
    assert_eq!(s.serial, vec![0xe9, 0x41, b'\n', b'\r']);
    assert_eq!(w.cell(LineId::new(0), LineIndex::new(0)).c(), Some('é'));
}

#[test]
fn switched_off_window_is_not_written_but_mirrored() {
    let mut w = window(2, 4);
    let mut s = screen(4, 2);
    for c in "a\tb\n\x08".chars() {
        let done = w.textui_putchar_window(
            c,
            FontColor::white(),
            FontColor::black(),
            false,
            &s.font,
            &mut s.info,
            2,
            &mut s.serial,
        );
        assert_eq!(done, Ok(()));
    }
    assert_eq!(state(&w), (0, 0, 0, 1));
    assert_eq!(line_text(&w, 0), "....");
    assert_eq!(bytes(&s.info), vec![0u8; s.info.buf_size()]);
    assert_eq!(s.serial, b"a\tb\n\r\x08".to_vec());
}

#[test]
fn plain_text_window_is_unsupported() {
    let mut next = 0u32;
    let mut w = TextuiWindow::new(WindowId::new(&mut next), WindowFlag::empty(), 2, 4);
    let mut s = screen(4, 2);
    assert_eq!(put(&mut w, &mut s, "\0\r"), Ok(()));
    assert_eq!(put(&mut w, &mut s, "a"), Err(TextuiError::Unsupported));
    assert_eq!(put(&mut w, &mut s, "\n"), Err(TextuiError::Unsupported));
    assert_eq!(state(&w), (0, 0, 0, 1));
    assert!(s.serial.is_empty());
    assert_eq!(
        w.textui_refresh_vline(LineId::new(0), &s.font, &mut s.info, 2),
        Err(TextuiError::Unsupported)
    );
    assert_eq!(
        w.textui_refresh_vlines(LineId::new(0), 1, &s.font, &mut s.info, 2),
        Err(TextuiError::Unsupported)
    );
    assert_eq!(w.textui_refresh_vlines(LineId::new(0), 0, &s.font, &mut s.info, 2), Ok(0));
    assert_eq!(
        w.true_textui_putchar_window(
            'a',
            FontColor::white(),
            FontColor::black(),
            &s.font,
            &mut s.info,
            2
        ),
        Err(TextuiError::Unsupported)
    );
    assert_eq!(w.textui_new_line(&s.font, &mut s.info, 2), Err(TextuiError::Unsupported));
    assert_eq!(state(&w), (0, 0, 0, 1));
    // a request that names no line of the ring is refused as such
    assert_eq!(
        w.textui_refresh_vlines(LineId::new(2), 1, &s.font, &mut s.info, 2),
        Err(TextuiError::InvalidArgument)
    );
    // cells of a plain window can be asked to be drawn; nothing is drawn
    assert_eq!(
        w.textui_refresh_characters(LineId::new(0), LineIndex::new(0), 4, &s.font, &mut s.info, 2),
        Ok(())
    );
    assert_eq!(bytes(&s.info), vec![0u8; s.info.buf_size()]);
}

#[test]
fn new_line_clears_the_line_it_moves_to() {
    let mut w = window(2, 4);
    let mut s = screen(4, 2);
    put(&mut w, &mut s, "ab\ncd").unwrap();
    let done = w.textui_new_line(&s.font, &mut s.info, 2);
    assert_eq!(done, Ok(0));
    assert_eq!(state(&w), (0, 0, 1, 2));
    assert_eq!(line_text(&w, 0), "....");
    assert_eq!(line_text(&w, 1), "cd..");
    assert_eq!(bytes(&s.info), drawn(&w, &s, &[(1, 0), (0, 1)]));
}

#[test]
fn colors_of_the_character_are_stored_and_drawn() {
    let mut w = window(2, 4);
    let mut s = screen(4, 2);
    w.textui_putchar_window(
        'Q',
        FontColor::orange(),
        FontColor::purple(),
        true,
        &s.font,
        &mut s.info,
        2,
        &mut s.serial,
    )
    .unwrap();
    let cell = w.cell(LineId::new(0), LineIndex::new(0));
    assert_eq!(cell.c(), Some('Q'));
    assert_eq!(cell.frcolor().to_u32(), 0xff8000);
    assert_eq!(cell.bkcolor().to_u32(), 0x8000ff);
    // glyph 0x51 = 0101_0001: the first pixel is background, the second foreground
    assert_eq!(&bytes(&s.info)[0..8], &[0xff, 0x00, 0x80, 0x00, 0x00, 0x80, 0xff, 0x00]);
}

#[test]
fn line_whose_row_lies_above_the_screen_is_stored_but_not_drawn() {
    // four lines in the ring, two rows on the screen: after four newlines the
    // cursor is on line 0 again and the top is line 3, three lines behind it
    let mut w = window(4, 4);
    let mut s = screen(4, 2);
    put(&mut w, &mut s, "\n\n\n\n").unwrap();
    assert_eq!(state(&w), (0, 0, 3, 2));
    let before = bytes(&s.info);
    put(&mut w, &mut s, "x").unwrap();
    assert_eq!(line_text(&w, 0), "x...");
    assert_eq!(state(&w), (0, 1, 3, 2));
    // line 0 lies 3 lines before the top: its row is 0 - 3 + 2 = -1
    assert_eq!(bytes(&s.info), before);
    // with as many lines as rows the same line is on the screen
    let mut w = window(2, 4);
    let mut s = screen(4, 2);
    put(&mut w, &mut s, "\n\nx").unwrap();
    assert_eq!(state(&w), (0, 1, 1, 2));
    assert_eq!(bytes(&s.info), drawn(&w, &s, &[(1, 0), (0, 1)]));
}
