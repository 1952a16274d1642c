//! Text before any window exists: characters are drawn straight onto the
//! region that the display reads, at a cursor that knows no scrollback.

use crate::chars::{CellView, TextuiCharChromatic};
use crate::color::FontColor;
use crate::error::TextuiError;
use crate::font::{BitmapFont, GlyphMapping};
use crate::position::{LineId, LineIndex, TEXTUI_CHAR_HEIGHT, TEXTUI_CHAR_WIDTH};
use crate::surface::{ScmBufferInfo, Surface};
use vstd::prelude::*;

verus! {

/// Where the next character goes on a screen without windows: a row and a
/// column of the screen itself.
pub struct EarlyView {
    pub line: int,
    pub index: int,
}

/// The number of cells that fit into a row of the surface.
pub open spec fn early_columns(surface: Surface) -> int {
    surface.width / 8
}

/// The number of rows of cells that fit onto the surface.
pub open spec fn early_rows(surface: Surface) -> int {
    surface.height / 16
}

/// The bytes that a character sends to the serial line before any window
/// exists: its low byte, and a carriage return behind a newline. NUL sends
/// nothing.
pub open spec fn early_mirrored(character: char) -> Seq<u8> {
    if character == '\0' {
        Seq::<u8>::empty()
    } else if character == '\n' {
        seq![((character as u32) % 256) as u8, 13u8]
    } else {
        seq![((character as u32) % 256) as u8]
    }
}

impl EarlyView {
    /// The cursor stands on a cell of the screen, or in the upper left corner
    /// of a screen too small for any cell.
    pub open spec fn wf(self, surface: Surface) -> bool {
        &&& 0 <= self.line
        &&& 0 <= self.index
        &&& self.line < early_rows(surface) || self.line == 0
        &&& self.index < early_columns(surface) || self.index == 0
    }

    /// The cursor at the start of the next row, which is the first row again
    /// behind the last.
    pub open spec fn next_row(self, surface: Surface) -> EarlyView {
        EarlyView {
            line: if self.line + 1 < early_rows(surface) {
                self.line + 1
            } else {
                0
            },
            index: 0,
        }
    }

    /// The cursor one cell on, which is the start of the next row behind the
    /// last cell of a row.
    pub open spec fn advance(self, surface: Surface) -> EarlyView {
        if self.index + 1 < early_columns(surface) {
            EarlyView { index: self.index + 1, ..self }
        } else {
            self.next_row(surface)
        }
    }

    /// The cursor after `count` cells were written.
    pub open spec fn advance_by(self, surface: Surface, count: int) -> EarlyView
        decreases count,
    {
        if count <= 0 {
            self
        } else {
            self.advance(surface).advance_by(surface, count - 1)
        }
    }

    /// The cursor one cell back: in its row, or in the row above where it
    /// stood in the first column, and unmoved in the upper left corner.
    pub open spec fn retreat(self) -> EarlyView {
        if self.index >= 1 {
            EarlyView { index: self.index - 1, ..self }
        } else if self.line >= 1 {
            EarlyView { line: self.line - 1, index: 0 }
        } else {
            self
        }
    }

    /// Whether a character leaves the screen alone: NUL and carriage return
    /// always, every character while writing to the screen is switched off.
    pub open spec fn ignores(character: char, is_put_to_window: bool) -> bool {
        character == '\0' || character == '\r' || !is_put_to_window
    }

    /// The cursor after one character was handled.
    pub open spec fn put_char(self, surface: Surface, character: char, is_put_to_window: bool)
        -> EarlyView {
        if Self::ignores(character, is_put_to_window) {
            self
        } else if character == '\n' {
            self.next_row(surface)
        } else if character == '\t' {
            self.advance_by(surface, 8 - self.index % 8)
        } else if character == '\x08' {
            self.retreat()
        } else {
            self.advance(surface)
        }
    }

    /// The surface after `count` spaces were drawn from the cursor on.
    pub open spec fn put_spaces_surface<M: GlyphMapping>(
        self,
        surface: Surface,
        font: &BitmapFont<M>,
        count: int,
        frcolor: u32,
        bkcolor: u32,
    ) -> Surface
        decreases count,
    {
        if count <= 0 {
            surface
        } else {
            self.advance(surface).put_spaces_surface(
                (CellView { c: Some(' '), frcolor, bkcolor }).render(
                    surface,
                    font,
                    self.line,
                    self.index,
                ),
                font,
                count - 1,
                frcolor,
                bkcolor,
            )
        }
    }

    /// The surface after one character was handled: a tab draws its spaces,
    /// a backspace fills the cell where the cursor then stands with the
    /// background, a newline draws nothing, and any other character is drawn
    /// at the cursor.
    pub open spec fn put_char_surface<M: GlyphMapping>(
        self,
        surface: Surface,
        font: &BitmapFont<M>,
        character: char,
        frcolor: u32,
        bkcolor: u32,
        is_put_to_window: bool,
    ) -> Surface {
        if Self::ignores(character, is_put_to_window) || character == '\n' {
            surface
        } else if character == '\t' {
            self.put_spaces_surface(surface, font, 8 - self.index % 8, frcolor, bkcolor)
        } else if character == '\x08' {
            (CellView { c: None, frcolor, bkcolor }).render(
                surface,
                font,
                self.retreat().line,
                self.retreat().index,
            )
        } else {
            (CellView { c: Some(character), frcolor, bkcolor }).render(
                surface,
                font,
                self.line,
                self.index,
            )
        }
    }

    /// The cursor after the characters of `text` from number `from` on were
    /// handled.
    pub open spec fn put_text(
        self,
        surface: Surface,
        text: Seq<char>,
        from: int,
        is_put_to_window: bool,
    ) -> EarlyView
        decreases text.len() - from,
    {
        if from < 0 || from >= text.len() {
            self
        } else {
            self.put_char(surface, text[from], is_put_to_window).put_text(
                surface,
                text,
                from + 1,
                is_put_to_window,
            )
        }
    }

    /// The surface after the characters of `text` from number `from` on were
    /// handled.
    pub open spec fn put_text_surface<M: GlyphMapping>(
        self,
        surface: Surface,
        font: &BitmapFont<M>,
        text: Seq<char>,
        from: int,
        frcolor: u32,
        bkcolor: u32,
        is_put_to_window: bool,
    ) -> Surface
        decreases text.len() - from,
    {
        if from < 0 || from >= text.len() {
            surface
        } else {
            self.put_char(surface, text[from], is_put_to_window).put_text_surface(
                self.put_char_surface(
                    surface,
                    font,
                    text[from],
                    frcolor,
                    bkcolor,
                    is_put_to_window,
                ),
                font,
                text,
                from + 1,
                frcolor,
                bkcolor,
                is_put_to_window,
            )
        }
    }
}

/// The bytes that the characters of `text` from number `from` on send to the
/// serial line before any window exists.
pub open spec fn early_text_serial(text: Seq<char>, from: int) -> Seq<u8>
    decreases text.len() - from,
{
    if from < 0 || from >= text.len() {
        Seq::<u8>::empty()
    } else {
        early_mirrored(text[from]) + early_text_serial(text, from + 1)
    }
}

/// The cursor of the screen without windows.
#[derive(Debug, Copy, Clone)]
pub struct EarlyCursor {
    line: i32,
    index: i32,
}

impl View for EarlyCursor {
    type V = EarlyView;

    closed spec fn view(&self) -> EarlyView {
        EarlyView { line: self.line as int, index: self.index as int }
    }
}

impl EarlyCursor {
    /// The cursor in the upper left corner.
    pub fn new() -> (cursor: EarlyCursor)
        ensures
            cursor@ == (EarlyView { line: 0, index: 0 }),
    {
        EarlyCursor { line: 0, index: 0 }
    }

    /// The row of the cursor.
    pub fn line(&self) -> (line: LineId)
        ensures
            line@ == self@.line,
    {
        LineId::new(self.line)
    }

    /// The column of the cursor.
    pub fn index(&self) -> (index: LineIndex)
        ensures
            index@ == self@.index,
    {
        LineIndex::new(self.index)
    }

    /// Moves the cursor to the start of the next row.
    fn next_row(&mut self, device_buffer: &ScmBufferInfo)
        requires
            old(self)@.wf(device_buffer@),
        ensures
            final(self)@ == old(self)@.next_row(device_buffer@),
            final(self)@.wf(device_buffer@),
    {
        let rows: i32 = (device_buffer.height() / TEXTUI_CHAR_HEIGHT) as i32;
        self.index = 0;
        if self.line + 1 < rows {
            self.line = self.line + 1;
        } else {
            self.line = 0;
        }
    }

    /// Moves the cursor one cell on.
    fn advance(&mut self, device_buffer: &ScmBufferInfo)
        requires
            old(self)@.wf(device_buffer@),
        ensures
            final(self)@ == old(self)@.advance(device_buffer@),
            final(self)@.wf(device_buffer@),
    {
        let columns: i32 = (device_buffer.width() / TEXTUI_CHAR_WIDTH) as i32;
        if self.index + 1 < columns {
            self.index = self.index + 1;
        } else {
            self.next_row(device_buffer);
        }
    }

    /// Handles one character of a text while no window exists.
    ///
    /// NUL does nothing. Every other character is sent to the serial line
    /// (its low byte, and a carriage return behind a newline). Then, unless
    /// it is a carriage return or writing to the screen is switched off: a
    /// newline moves the cursor to the start of the next row; a tab draws
    /// spaces up to the next column that is a multiple of 8; a backspace
    /// moves the cursor a cell back and fills that cell with the background;
    /// any other
    /// character is drawn at the cursor, which moves a cell on. Behind the
    /// last row the cursor starts again in the first.
    pub fn no_init_textui_putchar_window<M: GlyphMapping>(
        &mut self,
        character: char,
        frcolor: FontColor,
        bkcolor: FontColor,
        is_put_to_window: bool,
        font: &BitmapFont<M>,
        device_buffer: &mut ScmBufferInfo,
        serial: &mut Vec<u8>,
    ) -> (done: Result<(), TextuiError>)
        requires
            old(device_buffer).wf(),
            old(device_buffer).is_device_buffer(),
            old(self)@.wf(old(device_buffer)@),
        ensures
            done == Ok::<(), TextuiError>(()),
            final(device_buffer).wf(),
            final(device_buffer).is_device_buffer(),
            final(self)@.wf(final(device_buffer)@),
            final(device_buffer)@.same_size(old(device_buffer)@),
            final(self)@ == old(self)@.put_char(old(device_buffer)@, character, is_put_to_window),
            final(device_buffer)@ == old(self)@.put_char_surface(
                old(device_buffer)@,
                font,
                character,
                frcolor@,
                bkcolor@,
                is_put_to_window,
            ),
            final(serial)@ == old(serial)@ + early_mirrored(character),
    {
        let ghost before = self@;
        let ghost surface = device_buffer@;
        let ghost sent = serial@;
        if character == '\0' {
            assert(serial@ =~= sent + early_mirrored(character));
            return Ok(());
        }
        serial.push(((character as u32) % 256) as u8);
        if character == '\n' {
            serial.push(13u8);
        }
        assert(serial@ =~= sent + early_mirrored(character));
        if character == '\r' || !is_put_to_window {
            return Ok(());
        }
        if character == '\n' {
            self.next_row(device_buffer);
        } else if character == '\t' {
            let space: TextuiCharChromatic = TextuiCharChromatic::new(Some(' '), frcolor, bkcolor);
            let width: i32 = 8 - self.index % 8;
            let mut space_to_print: i32 = width;
            while space_to_print > 0
                invariant
                    0 <= space_to_print <= width <= 8,
                    space@ == (CellView { c: Some(' '), frcolor: frcolor@, bkcolor: bkcolor@ }),
                    device_buffer.wf(),
                    device_buffer.is_device_buffer(),
                    device_buffer@.same_size(surface),
                    self@.wf(device_buffer@),
                    self@.advance_by(device_buffer@, space_to_print as int) == before.advance_by(
                        surface,
                        width as int,
                    ),
                    self@.put_spaces_surface(
                        device_buffer@,
                        font,
                        space_to_print as int,
                        frcolor@,
                        bkcolor@,
                    ) == before.put_spaces_surface(surface, font, width as int, frcolor@, bkcolor@),
                decreases space_to_print,
            {
                let ghost now = self@;
                let ghost drawn_on = device_buffer@;
                space.no_init_textui_render_chromatic(
                    self.line(),
                    self.index(),
                    font,
                    device_buffer,
                );
                self.advance(device_buffer);
                proof {
                    Self::lemma_same_grid(drawn_on, device_buffer@, now, space_to_print as int);
                }
                space_to_print -= 1;
            }
            proof {
                Self::lemma_same_grid(surface, device_buffer@, before, width as int);
            }
        } else if character == '\x08' {
            if self.index >= 1 {
                self.index = self.index - 1;
            } else if self.line >= 1 {
                self.line = self.line - 1;
            }
            let blank: TextuiCharChromatic = TextuiCharChromatic::new(None, frcolor, bkcolor);
            blank.no_init_textui_render_chromatic(self.line(), self.index(), font, device_buffer);
        } else {
            let cell: TextuiCharChromatic = TextuiCharChromatic::new(
                Some(character),
                frcolor,
                bkcolor,
            );
            cell.no_init_textui_render_chromatic(self.line(), self.index(), font, device_buffer);
            self.advance(device_buffer);
        }
        Ok(())
    }

    /// Handles the characters of a text one after the other while no window
    /// exists.
    pub fn no_init_textui_putstr<M: GlyphMapping>(
        &mut self,
        string: &str,
        frcolor: FontColor,
        bkcolor: FontColor,
        is_put_to_window: bool,
        font: &BitmapFont<M>,
        device_buffer: &mut ScmBufferInfo,
        serial: &mut Vec<u8>,
    ) -> (done: Result<(), TextuiError>)
        requires
            old(device_buffer).wf(),
            old(device_buffer).is_device_buffer(),
            old(self)@.wf(old(device_buffer)@),
        ensures
            done == Ok::<(), TextuiError>(()),
            final(device_buffer).wf(),
            final(device_buffer).is_device_buffer(),
            final(self)@.wf(final(device_buffer)@),
            final(device_buffer)@.same_size(old(device_buffer)@),
            final(self)@ == old(self)@.put_text(
                old(device_buffer)@,
                string@,
                0,
                is_put_to_window,
            ),
            final(device_buffer)@ == old(self)@.put_text_surface(
                old(device_buffer)@,
                font,
                string@,
                0,
                frcolor@,
                bkcolor@,
                is_put_to_window,
            ),
            final(serial)@ == old(serial)@ + early_text_serial(string@, 0),
    {
        let ghost before = self@;
        let ghost surface = device_buffer@;
        let ghost sent = serial@;
        let ghost text = string@;
        for character in it: string.chars()
            invariant
                it.seq() == text,
                device_buffer.wf(),
                device_buffer.is_device_buffer(),
                device_buffer@.same_size(surface),
                self@.wf(device_buffer@),
                self@.put_text(surface, text, it.index() as int, is_put_to_window)
                    == before.put_text(surface, text, 0, is_put_to_window),
                self@.put_text_surface(
                    device_buffer@,
                    font,
                    text,
                    it.index() as int,
                    frcolor@,
                    bkcolor@,
                    is_put_to_window,
                ) == before.put_text_surface(
                    surface,
                    font,
                    text,
                    0,
                    frcolor@,
                    bkcolor@,
                    is_put_to_window,
                ),
                serial@ + early_text_serial(text, it.index() as int) == sent + early_text_serial(
                    text,
                    0,
                ),
        {
            let ghost now = self@;
            let ghost drawn_on = device_buffer@;
            let ghost at = it.index() as int;
            let ghost sent_now = serial@;
            assert(text[at] == character);
            proof {
                Self::lemma_put_char_same_grid(surface, drawn_on, now, character, is_put_to_window);
                assert(sent_now + early_text_serial(text, at) =~= (sent_now + early_mirrored(
                    character,
                )) + early_text_serial(text, at + 1));
            }
            let _ = self.no_init_textui_putchar_window(
                character,
                frcolor,
                bkcolor,
                is_put_to_window,
                font,
                device_buffer,
                serial,
            );
            proof {
                Self::lemma_text_same_grid(
                    drawn_on,
                    device_buffer@,
                    self@,
                    font,
                    text,
                    at + 1,
                    frcolor@,
                    bkcolor@,
                    is_put_to_window,
                );
                Self::lemma_text_same_grid(
                    surface,
                    drawn_on,
                    now,
                    font,
                    text,
                    at,
                    frcolor@,
                    bkcolor@,
                    is_put_to_window,
                );
                Self::lemma_text_same_grid(
                    surface,
                    drawn_on,
                    self@,
                    font,
                    text,
                    at + 1,
                    frcolor@,
                    bkcolor@,
                    is_put_to_window,
                );
            }
        }
        assert(serial@ + early_text_serial(text, text.len() as int) =~= serial@);
        Ok(())
    }

    /// One character moves the cursor over two surfaces of one size in the
    /// same way.
    proof fn lemma_put_char_same_grid(
        a: Surface,
        b: Surface,
        cursor: EarlyView,
        character: char,
        is_put_to_window: bool,
    )
        requires
            a.width == b.width,
            a.height == b.height,
        ensures
            cursor.put_char(a, character, is_put_to_window) == cursor.put_char(
                b,
                character,
                is_put_to_window,
            ),
    {
        Self::lemma_same_grid(a, b, cursor, 8 - cursor.index % 8);
    }

    /// A text moves the cursor over two surfaces of one size in the same
    /// way.
    proof fn lemma_text_same_grid<M: GlyphMapping>(
        a: Surface,
        b: Surface,
        cursor: EarlyView,
        font: &BitmapFont<M>,
        text: Seq<char>,
        from: int,
        frcolor: u32,
        bkcolor: u32,
        is_put_to_window: bool,
    )
        requires
            a.width == b.width,
            a.height == b.height,
        ensures
            cursor.put_text(a, text, from, is_put_to_window) == cursor.put_text(
                b,
                text,
                from,
                is_put_to_window,
            ),
        decreases text.len() - from,
    {
        if 0 <= from < text.len() {
            Self::lemma_put_char_same_grid(a, b, cursor, text[from], is_put_to_window);
            Self::lemma_text_same_grid(
                a,
                b,
                cursor.put_char(a, text[from], is_put_to_window),
                font,
                text,
                from + 1,
                frcolor,
                bkcolor,
                is_put_to_window,
            );
        }
    }

    /// The cursor moves over two surfaces of one size in the same way.
    proof fn lemma_same_grid(a: Surface, b: Surface, cursor: EarlyView, count: int)
        requires
            a.width == b.width,
            a.height == b.height,
        ensures
            cursor.advance_by(a, count) == cursor.advance_by(b, count),
            cursor.advance(a) == cursor.advance(b),
            cursor.next_row(a) == cursor.next_row(b),
        decreases count,
    {
        if count > 0 {
            Self::lemma_same_grid(a, b, cursor.advance(a), count - 1);
        }
    }
}

} // verus!
