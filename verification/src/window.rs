//! A window: a ring of virtual lines, the cursor that writes into it, and the
//! part of the ring that the screen shows.
//!
//! The first half of this file is the mathematical model: what a window is
//! ([`WindowView`]) and what each operation makes of it and of the pixel
//! surface. The second half is the window itself, each of whose operations
//! is proved to do what the model says.

use crate::chars::{CellView, TextuiCharChromatic};
use crate::color::FontColor;
use crate::error::TextuiError;
use crate::font::{BitmapFont, GlyphMapping};
use crate::position::{LineId, LineIndex};
use crate::surface::{ScmBufferInfo, Surface};
use vstd::prelude::*;

verus! {

/// What a line holds: its cells, and the column that the next character is
/// written to.
pub struct VlineView {
    pub chars: Seq<CellView>,
    pub index: int,
}

impl VlineView {
    /// A line of `char_num` blank cells with the cursor at its start.
    pub open spec fn cleared(char_num: int) -> VlineView {
        VlineView { chars: Seq::new(char_num as nat, |i: int| CellView::blank()), index: 0 }
    }

    /// The line has `chars_per_line` cells, and its cursor stands on one of
    /// them or just behind the last.
    pub open spec fn wf(self, chars_per_line: int) -> bool {
        &&& self.chars.len() == chars_per_line
        &&& 0 <= self.index <= chars_per_line
    }

    /// The surface after the cells `start .. start + count` of this line
    /// were drawn in the given row of the screen, from the left.
    pub open spec fn draw_cells<M: GlyphMapping>(
        self,
        surface: Surface,
        font: &BitmapFont<M>,
        row: int,
        start: int,
        count: int,
    ) -> Surface
        decreases count,
    {
        if count <= 0 {
            surface
        } else {
            self.draw_cells(
                self.chars[start].render(surface, font, row, start),
                font,
                row,
                start + 1,
                count - 1,
            )
        }
    }
}

/// What a window is: `vline_sum` lines in a ring, of which the screen shows
/// those from `top_vline` on; `vline_operating` is the line that is written
/// to, `vlines_used` counts the lines in view.
pub struct WindowView {
    pub id: u32,
    pub vline_sum: int,
    pub vlines_used: int,
    pub top_vline: int,
    pub vlines: Seq<VlineView>,
    pub vline_operating: int,
    pub chars_per_line: int,
    pub chromatic: bool,
}

/// The cell that a character is stored as.
pub open spec fn cell_of(character: char, frcolor: u32, bkcolor: u32) -> CellView {
    CellView { c: Some(character), frcolor, bkcolor }
}

/// Whether a character takes a cell of its own: every character but NUL,
/// carriage return, newline, tab and backspace.
pub open spec fn is_printable(character: char) -> bool {
    character != '\0' && character != '\r' && character != '\n' && character != '\t' && character
        != '\x08'
}

impl WindowView {
    /// The window has at least one line and one column, both pointers name
    /// lines of the ring, and every line has its full number of cells.
    pub open spec fn wf(self) -> bool {
        &&& 1 <= self.vline_sum <= i32::MAX
        &&& 1 <= self.chars_per_line <= i32::MAX
        &&& 0 <= self.top_vline < self.vline_sum
        &&& 0 <= self.vline_operating < self.vline_sum
        &&& i32::MIN <= self.vlines_used <= i32::MAX
        &&& self.vlines.len() == self.vline_sum
        &&& forall|i: int|
            0 <= i < self.vlines.len() ==> (#[trigger] self.vlines[i]).wf(self.chars_per_line)
    }

    /// The window as it is made: every line cleared, the first line in use
    /// and at the top.
    pub open spec fn fresh(id: u32, chromatic: bool, vline_sum: int, chars_per_line: int)
        -> WindowView {
        WindowView {
            id,
            vline_sum,
            vlines_used: 1,
            top_vline: 0,
            vlines: Seq::new(
                (if vline_sum > 0 {
                    vline_sum
                } else {
                    0
                }) as nat,
                |i: int| VlineView::cleared(chars_per_line),
            ),
            vline_operating: 0,
            chars_per_line,
            chromatic,
        }
    }

    /// The line after `id` in the ring.
    pub open spec fn next_line_id(self, id: int) -> int {
        if id + 1 < self.vline_sum {
            id + 1
        } else {
            0
        }
    }

    /// The line before `id` in the ring.
    pub open spec fn prev_line_id(self, id: int) -> int {
        if id - 1 >= 0 {
            id - 1
        } else {
            self.vline_sum - 1
        }
    }

    /// The column of the cursor.
    pub open spec fn column(self) -> int {
        self.vlines[self.vline_operating].index
    }

    /// The row of the screen that a line is drawn in: as many rows below the
    /// top as the line lies behind `top_vline`, and for a line before
    /// `top_vline` that distance taken from the number of rows of the screen.
    pub open spec fn actual_line(self, vline_id: int, actual_line_sum: int) -> int {
        let distance = vline_id - self.top_vline;
        if distance < 0 {
            distance + actual_line_sum
        } else {
            distance
        }
    }

    /// Whether a request to redraw `count` cells of line `vline_id` from
    /// column `start` on names cells that the window has.
    pub open spec fn refresh_valid(self, vline_id: int, start: int, count: int) -> bool {
        &&& 0 <= vline_id < self.vline_sum
        &&& 0 <= start < self.chars_per_line
        &&& 0 <= count
        &&& start + count <= self.chars_per_line
    }

    /// The surface after the cells `start .. start + count` of line
    /// `vline_id` were drawn. A window of plain text draws nothing.
    pub open spec fn refresh_characters<M: GlyphMapping>(
        self,
        surface: Surface,
        font: &BitmapFont<M>,
        vline_id: int,
        start: int,
        count: int,
        actual_line_sum: int,
    ) -> Surface {
        if self.chromatic {
            self.vlines[vline_id].draw_cells(
                surface,
                font,
                self.actual_line(vline_id, actual_line_sum),
                start,
                count,
            )
        } else {
            surface
        }
    }

    /// The surface after the whole of line `vline_id` was drawn.
    pub open spec fn refresh_vline<M: GlyphMapping>(
        self,
        surface: Surface,
        font: &BitmapFont<M>,
        vline_id: int,
        actual_line_sum: int,
    ) -> Surface {
        self.refresh_characters(
            surface,
            font,
            vline_id,
            0,
            self.chars_per_line,
            actual_line_sum,
        )
    }

    /// The surface after the lines `from .. to` were drawn one after the
    /// other. A line that the window does not have ends the drawing.
    pub open spec fn refresh_run<M: GlyphMapping>(
        self,
        surface: Surface,
        font: &BitmapFont<M>,
        from: int,
        to: int,
        actual_line_sum: int,
    ) -> Surface
        decreases to - from,
    {
        if from >= to || !(0 <= from < self.vline_sum) {
            surface
        } else {
            self.refresh_run(
                self.refresh_vline(surface, font, from, actual_line_sum),
                font,
                from + 1,
                to,
                actual_line_sum,
            )
        }
    }

    /// Of `count` lines to draw from line `start` on, the line behind the
    /// last that lies before the end of the ring.
    pub open spec fn first_run_end(self, start: int, count: int) -> int {
        if start + count < self.vline_sum {
            start + count
        } else {
            self.vline_sum
        }
    }

    /// Of `count` lines to draw from line `start` on, the number of those
    /// left for the start of the ring.
    pub open spec fn second_run_len(self, start: int, count: int) -> int {
        if self.first_run_end(start, count) > start {
            count - (self.first_run_end(start, count) - start)
        } else {
            count
        }
    }

    /// Whether a request to redraw `count` lines from line `start` on names
    /// lines that the window has: it asks for no line at all, or `start` is
    /// a line of the ring and the lines left for the start of the ring are
    /// no more than the ring has.
    pub open spec fn refresh_lines_valid(self, start: int, count: int) -> bool {
        count <= 0 || (0 <= start < self.vline_sum && self.second_run_len(start, count)
            <= self.vline_sum)
    }

    /// How drawing `count` lines from line `start` on ends: well where no
    /// line is asked for; as `InvalidArgument` where the request names a
    /// line that the window does not have; on a window of plain text as
    /// `Unsupported`; well in every other case.
    pub open spec fn refresh_vlines_result(self, start: int, count: int) -> Result<
        i32,
        TextuiError,
    > {
        if count <= 0 {
            Ok(0)
        } else if !self.refresh_lines_valid(start, count) {
            Err(TextuiError::InvalidArgument)
        } else if !self.chromatic {
            Err(TextuiError::Unsupported)
        } else {
            Ok(0)
        }
    }

    /// The surface after `count` lines were drawn from line `start` on: first
    /// those up to the end of the ring, then the rest from line 0 on. A
    /// request that is refused draws nothing.
    pub open spec fn refresh_vlines<M: GlyphMapping>(
        self,
        surface: Surface,
        font: &BitmapFont<M>,
        start: int,
        count: int,
        actual_line_sum: int,
    ) -> Surface {
        if count <= 0 || self.refresh_vlines_result(start, count) is Err {
            surface
        } else {
            self.refresh_run(
                self.refresh_run(
                    surface,
                    font,
                    start,
                    self.first_run_end(start, count),
                    actual_line_sum,
                ),
                font,
                0,
                self.second_run_len(start, count),
                actual_line_sum,
            )
        }
    }

    /// The window after a new line was begun: the cursor moves to the next
    /// line of the ring, which is cleared. While the screen has a row left
    /// one more line is in use; once it is full the top moves on by a line
    /// instead.
    pub open spec fn new_line(self, actual_line_sum: int) -> WindowView {
        let operating = self.next_line_id(self.vline_operating);
        let vlines = self.vlines.update(operating, VlineView::cleared(self.chars_per_line));
        if self.vlines_used == actual_line_sum {
            WindowView {
                vline_operating: operating,
                vlines,
                top_vline: self.next_line_id(self.top_vline),
                ..self
            }
        } else {
            WindowView {
                vline_operating: operating,
                vlines,
                vlines_used: self.vlines_used + 1,
                ..self
            }
        }
    }

    /// The surface after a new line was begun: where the top has moved,
    /// every row of the screen is drawn again.
    pub open spec fn new_line_surface<M: GlyphMapping>(
        self,
        surface: Surface,
        font: &BitmapFont<M>,
        actual_line_sum: int,
    ) -> Surface {
        let after = self.new_line(actual_line_sum);
        if self.vlines_used == actual_line_sum {
            after.refresh_vlines(surface, font, after.top_vline, actual_line_sum, actual_line_sum)
        } else {
            surface
        }
    }

    /// The window after `cell` was stored at the cursor and the cursor moved
    /// one column on.
    pub open spec fn store(self, cell: CellView) -> WindowView {
        let line = self.vlines[self.vline_operating];
        WindowView {
            vlines: self.vlines.update(
                self.vline_operating,
                VlineView { chars: line.chars.update(line.index, cell), index: line.index + 1 },
            ),
            ..self
        }
    }

    /// The window after `cell` was written at the cursor: the cell is
    /// stored, and where it went to the last column a new line is begun.
    pub open spec fn put_printable(self, cell: CellView, actual_line_sum: int) -> WindowView {
        if self.column() >= self.chars_per_line - 1 {
            self.store(cell).new_line(actual_line_sum)
        } else {
            self.store(cell)
        }
    }

    /// The surface after `cell` was written at the cursor: the cell is drawn,
    /// and then what a new line draws, where one is begun.
    pub open spec fn put_printable_surface<M: GlyphMapping>(
        self,
        surface: Surface,
        font: &BitmapFont<M>,
        cell: CellView,
        actual_line_sum: int,
    ) -> Surface {
        let stored = self.store(cell);
        let drawn = stored.refresh_characters(
            surface,
            font,
            self.vline_operating,
            self.column(),
            1,
            actual_line_sum,
        );
        if self.column() >= self.chars_per_line - 1 {
            stored.new_line_surface(drawn, font, actual_line_sum)
        } else {
            drawn
        }
    }

    /// The window after `count` cells were written one after the other, each
    /// a space in the given colours.
    pub open spec fn put_spaces(self, count: int, frcolor: u32, bkcolor: u32, actual_line_sum: int)
        -> WindowView
        decreases count,
    {
        if count <= 0 {
            self
        } else {
            self.put_printable(cell_of(' ', frcolor, bkcolor), actual_line_sum).put_spaces(
                count - 1,
                frcolor,
                bkcolor,
                actual_line_sum,
            )
        }
    }

    /// The surface after `count` spaces were written one after the other.
    pub open spec fn put_spaces_surface<M: GlyphMapping>(
        self,
        surface: Surface,
        font: &BitmapFont<M>,
        count: int,
        frcolor: u32,
        bkcolor: u32,
        actual_line_sum: int,
    ) -> Surface
        decreases count,
    {
        if count <= 0 {
            surface
        } else {
            self.put_printable(cell_of(' ', frcolor, bkcolor), actual_line_sum).put_spaces_surface(
                self.put_printable_surface(
                    surface,
                    font,
                    cell_of(' ', frcolor, bkcolor),
                    actual_line_sum,
                ),
                font,
                count - 1,
                frcolor,
                bkcolor,
                actual_line_sum,
            )
        }
    }

    /// The number of spaces that a tab writes: as many as lead to the next
    /// column that is a multiple of 8.
    pub open spec fn tab_width(self) -> int {
        8 - self.column() % 8
    }

    /// The window after a backspace behind the first column: the cursor
    /// moves one column back, and the cell there loses its character; its
    /// colours stay as they were.
    pub open spec fn erase(self) -> WindowView {
        let line = self.vlines[self.vline_operating];
        let column = line.index - 1;
        WindowView {
            vlines: self.vlines.update(
                self.vline_operating,
                VlineView {
                    chars: line.chars.update(column, CellView { c: None, ..line.chars[column] }),
                    index: column,
                },
            ),
            ..self
        }
    }

    /// The window after a backspace in the first column: the line of the
    /// cursor is cleared and the cursor moves to the line before it in the
    /// ring; one line less is in use, and where more lines were in use than
    /// the screen has rows the top moves back by a line too.
    pub open spec fn retreat(self, actual_line_sum: int) -> WindowView {
        WindowView {
            vlines: self.vlines.update(
                self.vline_operating,
                VlineView::cleared(self.chars_per_line),
            ),
            vline_operating: self.prev_line_id(self.vline_operating),
            top_vline: if self.vlines_used > actual_line_sum {
                self.prev_line_id(self.top_vline)
            } else {
                self.top_vline
            },
            vlines_used: self.vlines_used - 1,
            ..self
        }
    }

    /// The window after a backspace.
    pub open spec fn backspace(self, actual_line_sum: int) -> WindowView {
        if self.column() >= 1 {
            self.erase()
        } else {
            self.retreat(actual_line_sum)
        }
    }

    /// The surface after a backspace: the erased cell is drawn, or, where
    /// the cursor left its line, every row of the screen.
    pub open spec fn backspace_surface<M: GlyphMapping>(
        self,
        surface: Surface,
        font: &BitmapFont<M>,
        actual_line_sum: int,
    ) -> Surface {
        let after = self.backspace(actual_line_sum);
        if self.column() >= 1 {
            after.refresh_characters(
                surface,
                font,
                self.vline_operating,
                self.column() - 1,
                1,
                actual_line_sum,
            )
        } else {
            after.refresh_vlines(surface, font, after.top_vline, actual_line_sum, actual_line_sum)
        }
    }

    /// The window after a character that takes a cell was written: on a full
    /// line a new line is begun first.
    pub open spec fn put_visible(self, cell: CellView, actual_line_sum: int) -> WindowView {
        if self.column() >= self.chars_per_line {
            self.new_line(actual_line_sum).put_printable(cell, actual_line_sum)
        } else {
            self.put_printable(cell, actual_line_sum)
        }
    }

    /// The surface after a character that takes a cell was written.
    pub open spec fn put_visible_surface<M: GlyphMapping>(
        self,
        surface: Surface,
        font: &BitmapFont<M>,
        cell: CellView,
        actual_line_sum: int,
    ) -> Surface {
        if self.column() >= self.chars_per_line {
            self.new_line(actual_line_sum).put_printable_surface(
                self.new_line_surface(surface, font, actual_line_sum),
                font,
                cell,
                actual_line_sum,
            )
        } else {
            self.put_printable_surface(surface, font, cell, actual_line_sum)
        }
    }

    /// Whether a character changes nothing in the window: NUL and carriage
    /// return never do, and no character does on a window of plain text or
    /// while writing to the window is switched off.
    pub open spec fn ignores(self, character: char, is_enable_window: bool) -> bool {
        character == '\0' || character == '\r' || !self.chromatic || !is_enable_window
    }

    /// The window after one character of a text was handled.
    pub open spec fn put_char(
        self,
        character: char,
        frcolor: u32,
        bkcolor: u32,
        is_enable_window: bool,
        actual_line_sum: int,
    ) -> WindowView {
        if self.ignores(character, is_enable_window) {
            self
        } else if character == '\n' {
            self.new_line(actual_line_sum)
        } else if character == '\t' {
            if self.column() < self.chars_per_line {
                self.put_spaces(self.tab_width(), frcolor, bkcolor, actual_line_sum)
            } else {
                self
            }
        } else if character == '\x08' {
            self.backspace(actual_line_sum)
        } else {
            self.put_visible(cell_of(character, frcolor, bkcolor), actual_line_sum)
        }
    }

    /// The surface after one character of a text was handled.
    pub open spec fn put_char_surface<M: GlyphMapping>(
        self,
        surface: Surface,
        font: &BitmapFont<M>,
        character: char,
        frcolor: u32,
        bkcolor: u32,
        is_enable_window: bool,
        actual_line_sum: int,
    ) -> Surface {
        if self.ignores(character, is_enable_window) {
            surface
        } else if character == '\n' {
            self.new_line_surface(surface, font, actual_line_sum)
        } else if character == '\t' {
            if self.column() < self.chars_per_line {
                self.put_spaces_surface(
                    surface,
                    font,
                    self.tab_width(),
                    frcolor,
                    bkcolor,
                    actual_line_sum,
                )
            } else {
                surface
            }
        } else if character == '\x08' {
            self.backspace_surface(surface, font, actual_line_sum)
        } else {
            self.put_visible_surface(
                surface,
                font,
                cell_of(character, frcolor, bkcolor),
                actual_line_sum,
            )
        }
    }

    /// How handling one character ends: NUL and carriage return are always
    /// accepted; a window of plain text refuses every other character as
    /// `Unsupported`; a tab on a line that is full to its last cell is an
    /// `InvalidArgument`; everything else is accepted.
    pub open spec fn put_char_result(self, character: char, is_enable_window: bool) -> Result<
        (),
        TextuiError,
    > {
        if character == '\0' || character == '\r' {
            Ok(())
        } else if !self.chromatic {
            Err(TextuiError::Unsupported)
        } else if character == '\t' && is_enable_window && self.column() >= self.chars_per_line {
            Err(TextuiError::InvalidArgument)
        } else {
            Ok(())
        }
    }

    /// The bytes that handling one character sends to the serial line: the
    /// low byte of the character, and a carriage return behind a newline.
    /// NUL and carriage return send nothing, nor does a window of plain
    /// text.
    pub open spec fn mirrored(self, character: char) -> Seq<u8> {
        if character == '\0' || character == '\r' || !self.chromatic {
            Seq::<u8>::empty()
        } else if character == '\n' {
            seq![((character as u32) % 256) as u8, 13u8]
        } else {
            seq![((character as u32) % 256) as u8]
        }
    }
}

impl WindowView {
    /// The window after the characters of `text` from number `from` on were
    /// handled one after the other, up to the first that is refused.
    pub open spec fn put_text(
        self,
        text: Seq<char>,
        from: int,
        frcolor: u32,
        bkcolor: u32,
        is_enable_window: bool,
        actual_line_sum: int,
    ) -> WindowView
        decreases text.len() - from,
    {
        if from < 0 || from >= text.len() || self.put_char_result(text[from], is_enable_window)
            is Err {
            self
        } else {
            self.put_char(
                text[from],
                frcolor,
                bkcolor,
                is_enable_window,
                actual_line_sum,
            ).put_text(text, from + 1, frcolor, bkcolor, is_enable_window, actual_line_sum)
        }
    }

    /// How handling the characters of `text` from number `from` on ends: as
    /// the first character that is refused, or well.
    pub open spec fn put_text_result(
        self,
        text: Seq<char>,
        from: int,
        frcolor: u32,
        bkcolor: u32,
        is_enable_window: bool,
        actual_line_sum: int,
    ) -> Result<(), TextuiError>
        decreases text.len() - from,
    {
        if from < 0 || from >= text.len() {
            Ok(())
        } else if self.put_char_result(text[from], is_enable_window) is Err {
            self.put_char_result(text[from], is_enable_window)
        } else {
            self.put_char(
                text[from],
                frcolor,
                bkcolor,
                is_enable_window,
                actual_line_sum,
            ).put_text_result(text, from + 1, frcolor, bkcolor, is_enable_window, actual_line_sum)
        }
    }

    /// The surface after the characters of `text` from number `from` on were
    /// handled.
    pub open spec fn put_text_surface<M: GlyphMapping>(
        self,
        surface: Surface,
        font: &BitmapFont<M>,
        text: Seq<char>,
        from: int,
        frcolor: u32,
        bkcolor: u32,
        is_enable_window: bool,
        actual_line_sum: int,
    ) -> Surface
        decreases text.len() - from,
    {
        if from < 0 || from >= text.len() || self.put_char_result(text[from], is_enable_window)
            is Err {
            surface
        } else {
            self.put_char(
                text[from],
                frcolor,
                bkcolor,
                is_enable_window,
                actual_line_sum,
            ).put_text_surface(
                self.put_char_surface(
                    surface,
                    font,
                    text[from],
                    frcolor,
                    bkcolor,
                    is_enable_window,
                    actual_line_sum,
                ),
                font,
                text,
                from + 1,
                frcolor,
                bkcolor,
                is_enable_window,
                actual_line_sum,
            )
        }
    }

    /// The bytes that handling the characters of `text` from number `from`
    /// on sends to the serial line. The character that is refused is still
    /// sent; those behind it are not.
    pub open spec fn put_text_serial(
        self,
        text: Seq<char>,
        from: int,
        frcolor: u32,
        bkcolor: u32,
        is_enable_window: bool,
        actual_line_sum: int,
    ) -> Seq<u8>
        decreases text.len() - from,
    {
        if from < 0 || from >= text.len() {
            Seq::<u8>::empty()
        } else if self.put_char_result(text[from], is_enable_window) is Err {
            self.mirrored(text[from])
        } else {
            self.mirrored(text[from]) + self.put_char(
                text[from],
                frcolor,
                bkcolor,
                is_enable_window,
                actual_line_sum,
            ).put_text_serial(text, from + 1, frcolor, bkcolor, is_enable_window, actual_line_sum)
        }
    }
}

/// The bit of a window flag that says that the window shows text in colour.
pub const TEXTUI_CHROMATIC: u8 = 1;

/// The flags of a window, one bit each.
#[derive(Debug, Copy, Clone, Eq, PartialEq, Hash)]
pub struct WindowFlag {
    bits: u8,
}

impl View for WindowFlag {
    type V = u8;

    closed spec fn view(&self) -> u8 {
        self.bits
    }
}

impl WindowFlag {
    /// Whether the flags say that the window shows text in colour.
    pub open spec fn is_chromatic(self) -> bool {
        self@ & TEXTUI_CHROMATIC == TEXTUI_CHROMATIC
    }

    /// No flag set.
    pub fn empty() -> (flags: WindowFlag)
        ensures
            flags@ == 0,
            !flags.is_chromatic(),
    {
        assert(0u8 & 1u8 != 1u8) by (bit_vector);
        WindowFlag { bits: 0 }
    }

    /// The flag of a window that shows text in colour.
    pub fn chromatic() -> (flags: WindowFlag)
        ensures
            flags@ == TEXTUI_CHROMATIC,
            flags.is_chromatic(),
    {
        assert(1u8 & 1u8 == 1u8) by (bit_vector);
        WindowFlag { bits: TEXTUI_CHROMATIC }
    }

    /// The flags with the given bits, those that name no flag dropped.
    pub fn from_bits_truncate(bits: u8) -> (flags: WindowFlag)
        ensures
            flags@ == bits & TEXTUI_CHROMATIC,
    {
        WindowFlag { bits: bits & TEXTUI_CHROMATIC }
    }

    /// The bits of the flags.
    pub fn bits(&self) -> (bits: u8)
        ensures
            bits == self@,
    {
        self.bits
    }

    /// Whether every flag of `other` is set in these flags.
    pub fn contains(&self, other: WindowFlag) -> (all: bool)
        ensures
            all == (self@ & other@ == other@),
    {
        (self.bits & other.bits) == other.bits
    }
}

/// The number by which a window is told from the others.
#[derive(Debug, Copy, Clone, Eq, PartialEq, PartialOrd, Ord, Hash)]
pub struct WindowId(u32);

impl View for WindowId {
    type V = u32;

    closed spec fn view(&self) -> u32 {
        self.0
    }
}

impl WindowId {
    /// The next number that no window has yet: the count `max_id`, which
    /// then moves on by one, and starts again at zero behind the last.
    pub fn new(max_id: &mut u32) -> (id: WindowId)
        ensures
            id@ == *old(max_id),
            *final(max_id) == (if *old(max_id) == u32::MAX {
                0u32
            } else {
                (*old(max_id) + 1) as u32
            }),
    {
        let id: u32 = *max_id;
        *max_id = if id == u32::MAX {
            0
        } else {
            id + 1
        };
        WindowId(id)
    }

    /// The number.
    pub fn data(&self) -> (id: u32)
        ensures
            id == self@,
    {
        self.0
    }
}

/// A cell of a line of plain text.
#[derive(Clone, Debug)]
struct TextuiCharNormal {
    _data: u8,
}

/// A line of plain text. No window shows one yet.
#[derive(Clone, Debug)]
pub struct TextuiVlineNormal {
    _characters: Vec<TextuiCharNormal>,
    _index: i16,
}

/// A line of coloured text.
#[derive(Clone, Debug)]
pub struct TextuiVlineChromatic {
    chars: Vec<TextuiCharChromatic>,
    index: LineIndex,
}

impl View for TextuiVlineChromatic {
    type V = VlineView;

    closed spec fn view(&self) -> VlineView {
        VlineView { chars: Seq::new(self.chars@.len(), |i: int| self.chars@[i]@), index: self.index@ }
    }
}

impl TextuiVlineChromatic {
    /// A line of `char_num` blank cells with the cursor at its start.
    pub fn new(char_num: usize) -> (line: Self)
        ensures
            line@ == VlineView::cleared(char_num as int),
    {
        let mut r = TextuiVlineChromatic { chars: Vec::with_capacity(char_num), index: LineIndex::new(0) };
        let mut made: usize = 0;
        while made < char_num
            invariant
                made <= char_num,
                r.chars@.len() == made,
                r.index@ == 0,
                forall|i: int| 0 <= i < made ==> (#[trigger] r.chars@[i])@ == CellView::blank(),
            decreases char_num - made,
        {
            r.chars.push(TextuiCharChromatic::new(None, FontColor::black(), FontColor::black()));
            made += 1;
        }
        assert(r@.chars =~= VlineView::cleared(char_num as int).chars);
        r
    }

    /// Clears the line: every cell blank, the cursor at the start.
    pub fn clear(&mut self)
        ensures
            final(self)@ == VlineView::cleared(old(self)@.chars.len() as int),
    {
        let len: usize = self.chars.len();
        let mut at: usize = 0;
        while at < len
            invariant
                at <= len,
                self.chars@.len() == len,
                forall|i: int| 0 <= i < at ==> (#[trigger] self.chars@[i])@ == CellView::blank(),
            decreases len - at,
        {
            self.chars[at] = TextuiCharChromatic::new(None, FontColor::black(), FontColor::black());
            at += 1;
        }
        self.index = LineIndex::new(0);
        assert(self@.chars =~= VlineView::cleared(len as int).chars);
    }

    /// Stores `cell` at the cursor and moves the cursor one column on.
    /// Returns the column that the cell was stored in.
    pub fn store(&mut self, cell: TextuiCharChromatic) -> (column: LineIndex)
        requires
            0 <= old(self)@.index < old(self)@.chars.len(),
            old(self)@.chars.len() <= i32::MAX,
        ensures
            column@ == old(self)@.index,
            final(self)@ == (VlineView {
                chars: old(self)@.chars.update(old(self)@.index, cell@),
                index: old(self)@.index + 1,
            }),
    {
        let ghost before = self@;
        let column: LineIndex = self.index;
        let len: usize = self.chars.len();
        self.chars[column.to_usize()] = cell;
        self.index = column + 1;
        assert(self@.chars =~= before.chars.update(before.index, cell@));
        column
    }

    /// Moves the cursor one column back and takes the character out of the
    /// cell there, which keeps its colours. Returns the column of that cell.
    pub fn erase(&mut self) -> (column: LineIndex)
        requires
            1 <= old(self)@.index <= old(self)@.chars.len(),
        ensures
            column@ == old(self)@.index - 1,
            final(self)@ == (VlineView {
                chars: old(self)@.chars.update(
                    old(self)@.index - 1,
                    CellView { c: None, ..old(self)@.chars[old(self)@.index - 1] },
                ),
                index: old(self)@.index - 1,
            }),
    {
        let ghost before = self@;
        self.index = self.index - 1;
        let column: LineIndex = self.index;
        let at: usize = column.to_usize();
        let frcolor: FontColor = self.chars[at].frcolor();
        let bkcolor: FontColor = self.chars[at].bkcolor();
        self.chars[at] = TextuiCharChromatic::new(None, frcolor, bkcolor);
        assert(self@.chars =~= before.chars.update(
            before.index - 1,
            CellView { c: None, ..before.chars[before.index - 1] },
        ));
        column
    }

    /// The number of cells of the line.
    pub fn len(&self) -> (len: usize)
        ensures
            len == self@.chars.len(),
    {
        self.chars.len()
    }

    /// The column that the next character is written to.
    pub fn index(&self) -> (index: LineIndex)
        ensures
            index@ == self@.index,
    {
        self.index
    }

    /// The cell in the given column.
    pub fn cell(&self, column: usize) -> (cell: TextuiCharChromatic)
        requires
            column < self@.chars.len(),
        ensures
            cell@ == self@.chars[column as int],
    {
        self.chars[column]
    }
}

/// A line of a window.
#[derive(Clone, Debug)]
pub enum TextuiVline {
    Chromatic(TextuiVlineChromatic),
    _Normal(TextuiVlineNormal),
}

impl View for TextuiVline {
    type V = VlineView;

    /// What the line holds. A line of plain text holds no cells.
    open spec fn view(&self) -> VlineView {
        match self {
            TextuiVline::Chromatic(line) => line@,
            TextuiVline::_Normal(_) => VlineView { chars: Seq::empty(), index: 0 },
        }
    }
}

/// A window of the console.
#[derive(Clone, Debug)]
pub struct TextuiWindow {
    id: WindowId,
    vline_sum: i32,
    vlines_used: i32,
    top_vline: LineId,
    vlines: Vec<TextuiVline>,
    vline_operating: LineId,
    chars_per_line: i32,
    flags: WindowFlag,
}

impl View for TextuiWindow {
    type V = WindowView;

    closed spec fn view(&self) -> WindowView {
        WindowView {
            id: self.id@,
            vline_sum: self.vline_sum as int,
            vlines_used: self.vlines_used as int,
            top_vline: self.top_vline@,
            vlines: Seq::new(self.vlines@.len(), |i: int| self.vlines@[i]@),
            vline_operating: self.vline_operating@,
            chars_per_line: self.chars_per_line as int,
            chromatic: self.flags.is_chromatic(),
        }
    }
}

impl TextuiWindow {
    /// Every line of the window is a line of coloured text.
    pub closed spec fn all_chromatic(&self) -> bool {
        forall|i: int| 0 <= i < self.vlines@.len() ==> (#[trigger] self.vlines@[i]) is Chromatic
    }

    /// The flags of the window.
    pub closed spec fn flags(&self) -> WindowFlag {
        self.flags
    }

    /// The window can be written to: it has at least one line and one
    /// column, its pointers name lines of the ring, and every line has its
    /// full number of cells.
    pub open spec fn wf(&self) -> bool {
        &&& self.all_chromatic()
        &&& self@.wf()
    }

    /// A window with `vlines_num` cleared lines of `chars_num` cells each,
    /// the first line in use and at the top.
    pub fn new(id: WindowId, flags: WindowFlag, vlines_num: i32, chars_num: i32) -> (window: Self)
        requires
            0 <= chars_num,
        ensures
            window@ == WindowView::fresh(
                id@,
                flags.is_chromatic(),
                vlines_num as int,
                chars_num as int,
            ),
            window.flags() == flags,
            window.wf() <==> vlines_num >= 1 && chars_num >= 1,
    {
        let mut initial_vlines: Vec<TextuiVline> = Vec::new();
        let mut made: i32 = 0;
        while made < vlines_num
            invariant
                0 <= made,
                made <= vlines_num || made == 0,
                0 <= chars_num,
                initial_vlines@.len() == made,
                forall|i: int|
                    0 <= i < made ==> (#[trigger] initial_vlines@[i]) is Chromatic
                        && initial_vlines@[i]@ == VlineView::cleared(chars_num as int),
            decreases vlines_num - made,
        {
            let vline = TextuiVlineChromatic::new(chars_num as usize);
            initial_vlines.push(TextuiVline::Chromatic(vline));
            made += 1;
        }
        let window = TextuiWindow {
            id,
            flags,
            vline_sum: vlines_num,
            vlines_used: 1,
            top_vline: LineId::new(0),
            vlines: initial_vlines,
            vline_operating: LineId::new(0),
            chars_per_line: chars_num,
        };
        assert(window@.vlines =~= WindowView::fresh(
            id@,
            flags.is_chromatic(),
            vlines_num as int,
            chars_num as int,
        ).vlines);
        window
    }

    /// The number of the window.
    pub fn id(&self) -> (id: WindowId)
        ensures
            id@ == self@.id,
    {
        self.id
    }

    /// The number of lines of the ring.
    pub fn vline_sum(&self) -> (sum: i32)
        ensures
            sum == self@.vline_sum,
    {
        self.vline_sum
    }

    /// The number of lines in use.
    pub fn vlines_used(&self) -> (used: i32)
        ensures
            used == self@.vlines_used,
    {
        self.vlines_used
    }

    /// The line at the top of the screen.
    pub fn top_vline(&self) -> (top: LineId)
        ensures
            top@ == self@.top_vline,
    {
        self.top_vline
    }

    /// The line that is written to.
    pub fn vline_operating(&self) -> (operating: LineId)
        ensures
            operating@ == self@.vline_operating,
    {
        self.vline_operating
    }

    /// The number of cells of a line.
    pub fn chars_per_line(&self) -> (chars: i32)
        ensures
            chars == self@.chars_per_line,
    {
        self.chars_per_line
    }

    /// The flags that the window was made with.
    pub fn window_flags(&self) -> (flags: WindowFlag)
        ensures
            flags == self.flags(),
            flags.is_chromatic() == self@.chromatic,
    {
        self.flags
    }

    /// The column of the cursor in line `vline_id`.
    pub fn line_index(&self, vline_id: LineId) -> (index: LineIndex)
        requires
            self.wf(),
            0 <= vline_id@ < self@.vline_sum,
        ensures
            index@ == self@.vlines[vline_id@].index,
    {
        match &self.vlines[vline_id.to_usize()] {
            TextuiVline::Chromatic(line) => line.index,
            TextuiVline::_Normal(_) => LineIndex::new(0),
        }
    }

    /// The cell in column `index` of line `vline_id`.
    pub fn cell(&self, vline_id: LineId, index: LineIndex) -> (cell: TextuiCharChromatic)
        requires
            self.wf(),
            0 <= vline_id@ < self@.vline_sum,
            0 <= index@ < self@.chars_per_line,
        ensures
            cell@ == self@.vlines[vline_id@].chars[index@],
    {
        assert(self@.vlines[vline_id@].wf(self@.chars_per_line));
        match &self.vlines[vline_id.to_usize()] {
            TextuiVline::Chromatic(line) => line.chars[index.to_usize()],
            TextuiVline::_Normal(_) => TextuiCharChromatic::new(
                None,
                FontColor::black(),
                FontColor::black(),
            ),
        }
    }
}

impl WindowView {
    /// A new line leaves a window fit to be written to.
    pub proof fn lemma_new_line_wf(self, actual_line_sum: int)
        requires
            self.wf(),
            self.vlines_used < i32::MAX || self.vlines_used == actual_line_sum,
        ensures
            self.new_line(actual_line_sum).wf(),
            self.new_line(actual_line_sum).column() == 0,
            self.new_line(actual_line_sum).chromatic == self.chromatic,
            self.new_line(actual_line_sum).vline_sum == self.vline_sum,
            self.new_line(actual_line_sum).chars_per_line == self.chars_per_line,
            self.vlines_used <= self.new_line(actual_line_sum).vlines_used <= self.vlines_used + 1,
    {
        let after = self.new_line(actual_line_sum);
        assert forall|i: int| 0 <= i < after.vlines.len() implies (#[trigger] after.vlines[i]).wf(
            after.chars_per_line,
        ) by {
            assert(self.vlines[i].wf(self.chars_per_line));
        }
    }

    /// Once the screen has no more rows than the ring has lines, the redraw
    /// that a new line asks for on a window of colour names only lines that
    /// the window has.
    pub proof fn lemma_new_line_ok(self, actual_line_sum: int)
        requires
            self.wf(),
            self.chromatic,
            0 <= actual_line_sum <= self.vline_sum,
        ensures
            self.new_line(actual_line_sum).refresh_vlines_result(
                self.new_line(actual_line_sum).top_vline,
                actual_line_sum,
            ) == Ok::<i32, TextuiError>(0),
    {
    }

    /// Storing a cell in a line that has room leaves a window fit to be
    /// written to.
    pub proof fn lemma_store_wf(self, cell: CellView)
        requires
            self.wf(),
            self.column() < self.chars_per_line,
        ensures
            self.store(cell).wf(),
            self.store(cell).column() == self.column() + 1,
            self.store(cell).vlines_used == self.vlines_used,
            self.store(cell).chromatic == self.chromatic,
            self.store(cell).vline_sum == self.vline_sum,
            self.store(cell).chars_per_line == self.chars_per_line,
    {
        let after = self.store(cell);
        assert(self.vlines[self.vline_operating].wf(self.chars_per_line));
        assert forall|i: int| 0 <= i < after.vlines.len() implies (#[trigger] after.vlines[i]).wf(
            after.chars_per_line,
        ) by {
            assert(self.vlines[i].wf(self.chars_per_line));
        }
    }

    /// Writing a cell in a line that has room leaves a window fit to be
    /// written to, with room in the line of the cursor.
    pub proof fn lemma_put_printable_wf(self, cell: CellView, actual_line_sum: int)
        requires
            self.wf(),
            self.column() < self.chars_per_line,
            self.vlines_used < i32::MAX || self.vlines_used == actual_line_sum,
        ensures
            self.put_printable(cell, actual_line_sum).wf(),
            self.put_printable(cell, actual_line_sum).column() < self.chars_per_line,
            self.put_printable(cell, actual_line_sum).chromatic == self.chromatic,
            self.put_printable(cell, actual_line_sum).vline_sum == self.vline_sum,
            self.put_printable(cell, actual_line_sum).chars_per_line == self.chars_per_line,
            self.vlines_used <= self.put_printable(cell, actual_line_sum).vlines_used
                <= self.vlines_used + 1,
    {
        self.lemma_store_wf(cell);
        self.store(cell).lemma_new_line_wf(actual_line_sum);
    }

    /// A backspace leaves a window fit to be written to.
    pub proof fn lemma_backspace_wf(self, actual_line_sum: int)
        requires
            self.wf(),
            i32::MIN < self.vlines_used,
        ensures
            self.backspace(actual_line_sum).wf(),
            self.backspace(actual_line_sum).chromatic == self.chromatic,
            self.backspace(actual_line_sum).vline_sum == self.vline_sum,
            self.backspace(actual_line_sum).chars_per_line == self.chars_per_line,
            self.vlines_used - 1 <= self.backspace(actual_line_sum).vlines_used
                <= self.vlines_used,
    {
        let after = self.backspace(actual_line_sum);
        assert(self.vlines[self.vline_operating].wf(self.chars_per_line));
        assert forall|i: int| 0 <= i < after.vlines.len() implies (#[trigger] after.vlines[i]).wf(
            after.chars_per_line,
        ) by {
            assert(self.vlines[i].wf(self.chars_per_line));
        }
    }
}

impl TextuiWindow {
    /// Draws the cells `start .. start + count` of line `vline_id` again.
    ///
    /// A line that the window does not have, a first column that the line
    /// does not have, a negative count, or a count that leads beyond the end
    /// of the line is an `InvalidArgument`, and nothing is drawn.
    pub fn textui_refresh_characters<M: GlyphMapping>(
        &self,
        vline_id: LineId,
        start: LineIndex,
        count: i32,
        font: &BitmapFont<M>,
        buf_info: &mut ScmBufferInfo,
        actual_line_sum: i32,
    ) -> (done: Result<(), TextuiError>)
        requires
            self.wf(),
            old(buf_info).wf(),
            0 <= actual_line_sum,
        ensures
            final(buf_info).wf(),
            final(buf_info).is_device_buffer() == old(buf_info).is_device_buffer(),
            final(buf_info)@.same_size(old(buf_info)@),
            !self@.refresh_valid(vline_id@, start@, count as int) ==> done == Err::<
                (),
                TextuiError,
            >(TextuiError::InvalidArgument) && final(buf_info)@ == old(buf_info)@,
            self@.refresh_valid(vline_id@, start@, count as int) ==> done == Ok::<(), TextuiError>(
                (),
            ) && final(buf_info)@ == self@.refresh_characters(
                old(buf_info)@,
                font,
                vline_id@,
                start@,
                count as int,
                actual_line_sum as int,
            ),
    {
        if !vline_id.check(self.vline_sum) || !start.check(self.chars_per_line) || count < 0
            || start.data() as i64 + count as i64 > self.chars_per_line as i64 {
            return Err(TextuiError::InvalidArgument);
        }
        let ghost before = buf_info@;
        let ghost line = self@.vlines[vline_id@];
        assert(line.wf(self@.chars_per_line));
        let mut actual_line_id: LineId = vline_id - self.top_vline;
        if actual_line_id.data() < 0 {
            actual_line_id = actual_line_id + actual_line_sum;
        }
        if self.flags.contains(WindowFlag::chromatic()) {
            match &self.vlines[vline_id.to_usize()] {
                TextuiVline::Chromatic(vline) => {
                    let mut i: i32 = 0;
                    let mut index: LineIndex = start;
                    while i < count
                        invariant
                            0 <= i <= count,
                            index@ == start@ + i,
                            0 <= start@,
                            start@ + count <= line.chars.len(),
                            line.chars.len() <= i32::MAX,
                            vline@ == line,
                            buf_info.wf(),
                            buf_info.is_device_buffer() == old(buf_info).is_device_buffer(),
                            buf_info@.same_size(old(buf_info)@),
                            line.draw_cells(
                                buf_info@,
                                font,
                                actual_line_id@,
                                start@ + i,
                                count - i,
                            ) == line.draw_cells(before, font, actual_line_id@, start@, count as int),
                        decreases count - i,
                    {
                        let cell: TextuiCharChromatic = vline.cell(index.to_usize());
                        cell.textui_refresh_character(actual_line_id, index, font, buf_info)?;
                        index = index + 1;
                        i += 1;
                    }
                },
                _ => {},
            }
        }
        Ok(())
    }

    /// Draws the whole of line `vline_id` again.
    ///
    /// A window of plain text is `Unsupported`; a line that the window does
    /// not have is an `InvalidArgument`. Nothing is drawn then.
    pub fn textui_refresh_vline<M: GlyphMapping>(
        &self,
        vline_id: LineId,
        font: &BitmapFont<M>,
        buf_info: &mut ScmBufferInfo,
        actual_line_sum: i32,
    ) -> (done: Result<(), TextuiError>)
        requires
            self.wf(),
            old(buf_info).wf(),
            0 <= actual_line_sum,
        ensures
            final(buf_info).wf(),
            final(buf_info).is_device_buffer() == old(buf_info).is_device_buffer(),
            final(buf_info)@.same_size(old(buf_info)@),
            !self@.chromatic ==> done == Err::<(), TextuiError>(TextuiError::Unsupported)
                && final(buf_info)@ == old(buf_info)@,
            self@.chromatic && !(0 <= vline_id@ < self@.vline_sum) ==> done == Err::<
                (),
                TextuiError,
            >(TextuiError::InvalidArgument) && final(buf_info)@ == old(buf_info)@,
            self@.chromatic && 0 <= vline_id@ < self@.vline_sum ==> done == Ok::<(), TextuiError>(
                (),
            ) && final(buf_info)@ == self@.refresh_vline(
                old(buf_info)@,
                font,
                vline_id@,
                actual_line_sum as int,
            ),
    {
        if self.flags.contains(WindowFlag::chromatic()) {
            self.textui_refresh_characters(
                vline_id,
                LineIndex::new(0),
                self.chars_per_line,
                font,
                buf_info,
                actual_line_sum,
            )
        } else {
            Err(TextuiError::Unsupported)
        }
    }

    /// Draws `count` lines again, from line `start` on: first those up to the
    /// end of the ring, then the rest from line 0 on.
    ///
    /// A request for no line does nothing. A start that is no line of the
    /// ring, or a count that leaves more lines for the start of the ring
    /// than the ring has, is an `InvalidArgument`; a window of plain text is
    /// `Unsupported`. Nothing is drawn then.
    pub fn textui_refresh_vlines<M: GlyphMapping>(
        &self,
        start: LineId,
        count: i32,
        font: &BitmapFont<M>,
        buf_info: &mut ScmBufferInfo,
        actual_line_sum: i32,
    ) -> (done: Result<i32, TextuiError>)
        requires
            self.wf(),
            old(buf_info).wf(),
            0 <= actual_line_sum,
        ensures
            final(buf_info).wf(),
            final(buf_info).is_device_buffer() == old(buf_info).is_device_buffer(),
            final(buf_info)@.same_size(old(buf_info)@),
            done == self@.refresh_vlines_result(start@, count as int),
            done is Err ==> final(buf_info)@ == old(buf_info)@,
            count >= 1 && !(0 <= start@ < self@.vline_sum) ==> done == Err::<i32, TextuiError>(
                TextuiError::InvalidArgument,
            ),
            final(buf_info)@ == self@.refresh_vlines(
                old(buf_info)@,
                font,
                start@,
                count as int,
                actual_line_sum as int,
            ),
    {
        let ghost before = buf_info@;
        let ghost view = self@;
        if count <= 0 {
            return Ok(0);
        }
        if !start.check(self.vline_sum) {
            return Err(TextuiError::InvalidArgument);
        }
        let first: i64 = start.data() as i64;
        let end: i64 = if first + (count as i64) < self.vline_sum as i64 {
            first + count as i64
        } else {
            self.vline_sum as i64
        };
        if count as i64 - (end - first) > self.vline_sum as i64 {
            return Err(TextuiError::InvalidArgument);
        }
        if !self.flags.contains(WindowFlag::chromatic()) {
            return Err(TextuiError::Unsupported);
        }
        let mut refresh_count: i32 = count;
        let mut i: i64 = first;
        while i < end
            invariant
                self.wf(),
                view == self@,
                view.chromatic,
                0 <= actual_line_sum,
                first == start@,
                end == view.first_run_end(start@, count as int),
                0 <= first <= i <= end <= view.vline_sum,
                refresh_count == count - (i - first),
                buf_info.wf(),
                buf_info.is_device_buffer() == old(buf_info).is_device_buffer(),
                buf_info@.same_size(old(buf_info)@),
                view.refresh_run(buf_info@, font, i as int, end as int, actual_line_sum as int)
                    == view.refresh_run(
                    before,
                    font,
                    start@,
                    end as int,
                    actual_line_sum as int,
                ),
            decreases end - i,
        {
            self.textui_refresh_vline(LineId::new(i as i32), font, buf_info, actual_line_sum)?;
            refresh_count -= 1;
            i += 1;
        }
        let ghost middle = buf_info@;
        let ghost rest = view.second_run_len(start@, count as int);
        let mut refresh_start: i32 = 0;
        while refresh_count > 0
            invariant
                self.wf(),
                view == self@,
                view.chromatic,
                0 <= actual_line_sum,
                rest <= view.vline_sum,
                0 <= refresh_start,
                0 <= refresh_count,
                refresh_start + refresh_count == rest,
                buf_info.wf(),
                buf_info.is_device_buffer() == old(buf_info).is_device_buffer(),
                buf_info@.same_size(old(buf_info)@),
                view.refresh_run(
                    buf_info@,
                    font,
                    refresh_start as int,
                    rest,
                    actual_line_sum as int,
                ) == view.refresh_run(middle, font, 0, rest, actual_line_sum as int),
            decreases refresh_count,
        {
            self.textui_refresh_vline(LineId::new(refresh_start), font, buf_info, actual_line_sum)?;
            refresh_start += 1;
            refresh_count -= 1;
        }
        Ok(0)
    }

    /// Begins a new line: the cursor moves to the next line of the ring,
    /// which is cleared. While the screen has a row left, one more line is
    /// in use; once it is full, the top moves on by a line and every row of
    /// the screen is drawn again.
    ///
    /// A window of plain text is `Unsupported`, and nothing changes.
    pub fn textui_new_line<M: GlyphMapping>(
        &mut self,
        font: &BitmapFont<M>,
        buf_info: &mut ScmBufferInfo,
        actual_line_sum: i32,
    ) -> (done: Result<i32, TextuiError>)
        requires
            old(self).wf(),
            old(buf_info).wf(),
            0 <= actual_line_sum <= old(self)@.vline_sum,
            old(self)@.vlines_used < i32::MAX,
        ensures
            final(self).wf(),
            final(self).flags() == old(self).flags(),
            final(buf_info).wf(),
            final(buf_info).is_device_buffer() == old(buf_info).is_device_buffer(),
            final(buf_info)@.same_size(old(buf_info)@),
            !old(self)@.chromatic ==> done == Err::<i32, TextuiError>(TextuiError::Unsupported)
                && final(self)@ == old(self)@ && final(buf_info)@ == old(buf_info)@,
            old(self)@.chromatic ==> {
                &&& done == Ok::<i32, TextuiError>(0)
                &&& final(self)@ == old(self)@.new_line(actual_line_sum as int)
                &&& final(buf_info)@ == old(self)@.new_line_surface(
                    old(buf_info)@,
                    font,
                    actual_line_sum as int,
                )
            },
    {
        let ghost before = self@;
        if !self.flags.contains(WindowFlag::chromatic()) {
            return Err(TextuiError::Unsupported);
        }
        proof {
            before.lemma_new_line_wf(actual_line_sum as int);
            before.lemma_new_line_ok(actual_line_sum as int);
        }
        self.vline_operating = self.vline_operating + 1;
        if !self.vline_operating.check(self.vline_sum) {
            self.vline_operating = LineId::new(0);
        }
        let operating: usize = self.vline_operating.to_usize();
        match &mut self.vlines[operating] {
            TextuiVline::Chromatic(vline) => {
                vline.clear();
            },
            _ => {},
        }
        assert(before.vlines[operating as int].wf(before.chars_per_line));
        if self.vlines_used == actual_line_sum {
            self.top_vline = self.top_vline + 1;
            if !self.top_vline.check(self.vline_sum) {
                self.top_vline = LineId::new(0);
            }
            assert(self@.vlines =~= before.new_line(actual_line_sum as int).vlines);
            self.textui_refresh_vlines(self.top_vline, actual_line_sum, font, buf_info, actual_line_sum)?;
        } else {
            self.vlines_used += 1;
            assert(self@.vlines =~= before.new_line(actual_line_sum as int).vlines);
        }
        Ok(0)
    }

    /// Writes a character at the cursor: the cell there takes the character
    /// and the colours, the cursor moves one column on, and the cell is drawn.
    /// Where the character went to the last column a new line is begun.
    ///
    /// A window of plain text is `Unsupported`; a line that is full to its
    /// last cell is an `InvalidArgument`. Nothing changes then.
    pub fn true_textui_putchar_window<M: GlyphMapping>(
        &mut self,
        character: char,
        frcolor: FontColor,
        bkcolor: FontColor,
        font: &BitmapFont<M>,
        buf_info: &mut ScmBufferInfo,
        actual_line_sum: i32,
    ) -> (done: Result<(), TextuiError>)
        requires
            old(self).wf(),
            old(buf_info).wf(),
            0 <= actual_line_sum <= old(self)@.vline_sum,
            old(self)@.vlines_used < i32::MAX,
        ensures
            final(self).wf(),
            final(self).flags() == old(self).flags(),
            final(buf_info).wf(),
            final(buf_info).is_device_buffer() == old(buf_info).is_device_buffer(),
            final(buf_info)@.same_size(old(buf_info)@),
            !old(self)@.chromatic ==> done == Err::<(), TextuiError>(TextuiError::Unsupported)
                && final(self)@ == old(self)@ && final(buf_info)@ == old(buf_info)@,
            old(self)@.chromatic && old(self)@.column() >= old(self)@.chars_per_line ==> done
                == Err::<(), TextuiError>(TextuiError::InvalidArgument) && final(self)@ == old(self)@ && final(buf_info)@ == old(buf_info)@,
            old(self)@.chromatic && old(self)@.column() < old(self)@.chars_per_line ==> {
                &&& done == Ok::<(), TextuiError>(())
                &&& final(self)@ == old(self)@.put_printable(
                    cell_of(character, frcolor@, bkcolor@),
                    actual_line_sum as int,
                )
                &&& final(buf_info)@ == old(self)@.put_printable_surface(
                    old(buf_info)@,
                    font,
                    cell_of(character, frcolor@, bkcolor@),
                    actual_line_sum as int,
                )
            },
    {
        let ghost before = self@;
        let ghost cell = cell_of(character, frcolor@, bkcolor@);
        if !self.flags.contains(WindowFlag::chromatic()) {
            return Err(TextuiError::Unsupported);
        }
        let operating: usize = self.vline_operating.to_usize();
        assert(before.vlines[operating as int].wf(before.chars_per_line));
        if !self.line_index(self.vline_operating).check(self.chars_per_line) {
            return Err(TextuiError::InvalidArgument);
        }
        let mut line_index: LineIndex = LineIndex::new(0);
        match &mut self.vlines[operating] {
            TextuiVline::Chromatic(vline) => {
                line_index = vline.store(TextuiCharChromatic::new(Some(character), frcolor, bkcolor));
            },
            _ => {},
        }
        proof {
            before.lemma_store_wf(cell);
            before.store(cell).lemma_new_line_wf(actual_line_sum as int);
        }
        assert(self@.vlines =~= before.store(cell).vlines);
        assert(self@ == before.store(cell));
        self.textui_refresh_characters(
            self.vline_operating,
            line_index,
            1,
            font,
            buf_info,
            actual_line_sum,
        )?;
        if !line_index.check(self.chars_per_line - 1) {
            self.textui_new_line(font, buf_info, actual_line_sum)?;
        }
        Ok(())
    }

    /// Handles one character of a text.
    ///
    /// NUL and carriage return do nothing. Every other character is first
    /// sent to the serial line (its low byte, and a carriage return behind a
    /// newline). Then, if writing to the window is switched on: a newline
    /// begins a new line; a tab writes spaces up to the next column that is
    /// a multiple of 8; a backspace blanks the cell before the cursor or, in
    /// the first column, gives up the line; any other character is written
    /// at the cursor, on a new line if the line is full.
    ///
    /// A window of plain text refuses every character but NUL and carriage
    /// return as `Unsupported`. A tab on a line that is full to its last
    /// cell is an `InvalidArgument`. The window and the surface are as
    /// before then.
    pub fn textui_putchar_window<M: GlyphMapping>(
        &mut self,
        character: char,
        frcolor: FontColor,
        bkcolor: FontColor,
        is_enable_window: bool,
        font: &BitmapFont<M>,
        buf_info: &mut ScmBufferInfo,
        actual_line_sum: i32,
        serial: &mut Vec<u8>,
    ) -> (done: Result<(), TextuiError>)
        requires
            old(self).wf(),
            old(buf_info).wf(),
            0 <= actual_line_sum <= old(self)@.vline_sum,
            i32::MIN < old(self)@.vlines_used,
            old(self)@.vlines_used + 8 <= i32::MAX,
        ensures
            final(self).wf(),
            final(self).flags() == old(self).flags(),
            final(buf_info).wf(),
            final(buf_info).is_device_buffer() == old(buf_info).is_device_buffer(),
            final(buf_info)@.same_size(old(buf_info)@),
            final(self)@ == old(self)@.put_char(
                character,
                frcolor@,
                bkcolor@,
                is_enable_window,
                actual_line_sum as int,
            ),
            final(buf_info)@ == old(self)@.put_char_surface(
                old(buf_info)@,
                font,
                character,
                frcolor@,
                bkcolor@,
                is_enable_window,
                actual_line_sum as int,
            ),
            final(serial)@ == old(serial)@ + old(self)@.mirrored(character),
            done == old(self)@.put_char_result(character, is_enable_window),
            old(self)@.vlines_used - 1 <= final(self)@.vlines_used <= old(self)@.vlines_used + 8,
            final(self)@.vline_sum == old(self)@.vline_sum,
            final(self)@.chars_per_line == old(self)@.chars_per_line,
            final(self)@.chromatic == old(self)@.chromatic,
            final(self)@.id == old(self)@.id,
    {
        let ghost before = self@;
        let ghost surface = buf_info@;
        let ghost sent = serial@;
        if character == '\0' {
            assert(serial@ =~= sent + before.mirrored(character));
            return Ok(());
        }
        if character == '\r' {
            assert(serial@ =~= sent + before.mirrored(character));
            return Ok(());
        }
        if !self.flags.contains(WindowFlag::chromatic()) {
            assert(serial@ =~= sent + before.mirrored(character));
            return Err(TextuiError::Unsupported);
        }
        serial.push(((character as u32) % 256) as u8);
        let operating: usize = self.vline_operating.to_usize();
        assert(before.vlines[operating as int].wf(before.chars_per_line));
        if character == '\n' {
            serial.push(13u8);
            assert(serial@ =~= sent + before.mirrored(character));
            if is_enable_window {
                self.textui_new_line(font, buf_info, actual_line_sum)?;
            }
            return Ok(());
        }
        assert(serial@ =~= sent + before.mirrored(character));
        if character == '\t' {
            if is_enable_window {
                let index: LineIndex = self.line_index(self.vline_operating);
                if !index.check(self.chars_per_line) {
                    return Err(TextuiError::InvalidArgument);
                }
                let width: i32 = 8 - index.data() % 8;
                let mut space_to_print: i32 = width;
                while space_to_print > 0
                    invariant
                        0 <= space_to_print <= width <= 8,
                        self.wf(),
                        self.flags() == old(self).flags(),
                        self@.chromatic,
                        self@.vline_sum == before.vline_sum,
                        self@.chars_per_line == before.chars_per_line,
                        self@.id == before.id,
                        self@.column() < self@.chars_per_line,
                        0 <= actual_line_sum <= self@.vline_sum,
                        before.vlines_used <= self@.vlines_used <= before.vlines_used + (width
                            - space_to_print),
                        before.vlines_used + 8 <= i32::MAX,
                        buf_info.wf(),
                        buf_info.is_device_buffer() == old(buf_info).is_device_buffer(),
                        buf_info@.same_size(old(buf_info)@),
                        self@.put_spaces(
                            space_to_print as int,
                            frcolor@,
                            bkcolor@,
                            actual_line_sum as int,
                        ) == before.put_spaces(
                            width as int,
                            frcolor@,
                            bkcolor@,
                            actual_line_sum as int,
                        ),
                        self@.put_spaces_surface(
                            buf_info@,
                            font,
                            space_to_print as int,
                            frcolor@,
                            bkcolor@,
                            actual_line_sum as int,
                        ) == before.put_spaces_surface(
                            surface,
                            font,
                            width as int,
                            frcolor@,
                            bkcolor@,
                            actual_line_sum as int,
                        ),
                    decreases space_to_print,
                {
                    proof {
                        self@.lemma_put_printable_wf(
                            cell_of(' ', frcolor@, bkcolor@),
                            actual_line_sum as int,
                        );
                    }
                    self.true_textui_putchar_window(
                        ' ',
                        frcolor,
                        bkcolor,
                        font,
                        buf_info,
                        actual_line_sum,
                    )?;
                    space_to_print -= 1;
                }
            }
        } else if character == '\x08' {
            if is_enable_window {
                proof {
                    before.lemma_backspace_wf(actual_line_sum as int);
                }
                let index: LineIndex = self.line_index(self.vline_operating);
                if index.data() >= 1 {
                    let mut tmp: LineIndex = LineIndex::new(0);
                    match &mut self.vlines[operating] {
                        TextuiVline::Chromatic(vline) => {
                            tmp = vline.erase();
                        },
                        _ => {},
                    }
                    assert(self@.vlines =~= before.erase().vlines);
                    return self.textui_refresh_characters(
                        self.vline_operating,
                        tmp,
                        1,
                        font,
                        buf_info,
                        actual_line_sum,
                    );
                }
                match &mut self.vlines[operating] {
                    TextuiVline::Chromatic(vline) => {
                        vline.clear();
                    },
                    _ => {},
                }
                self.vline_operating = self.vline_operating - 1;
                if self.vline_operating.data() < 0 {
                    self.vline_operating = LineId::new(self.vline_sum - 1);
                }
                if self.vlines_used > actual_line_sum {
                    self.top_vline = self.top_vline - 1;
                    if self.top_vline.data() < 0 {
                        self.top_vline = LineId::new(self.vline_sum - 1);
                    }
                }
                self.vlines_used -= 1;
                assert(self@.vlines =~= before.retreat(actual_line_sum as int).vlines);
                self.textui_refresh_vlines(
                    self.top_vline,
                    actual_line_sum,
                    font,
                    buf_info,
                    actual_line_sum,
                )?;
            }
        } else if is_enable_window {
            let index: LineIndex = self.line_index(self.vline_operating);
            if !index.check(self.chars_per_line) {
                proof {
                    before.lemma_new_line_wf(actual_line_sum as int);
                }
                self.textui_new_line(font, buf_info, actual_line_sum)?;
            }
            proof {
                self@.lemma_put_printable_wf(
                    cell_of(character, frcolor@, bkcolor@),
                    actual_line_sum as int,
                );
            }
            return self.true_textui_putchar_window(
                character,
                frcolor,
                bkcolor,
                font,
                buf_info,
                actual_line_sum,
            );
        }
        Ok(())
    }
}

impl Default for TextuiWindow {
    /// A window of colour without any line. It cannot be written to.
    fn default() -> (window: Self)
        ensures
            window@ == WindowView::fresh(0, true, 0, 0),
            !window.wf(),
    {
        let window = TextuiWindow {
            id: WindowId(0),
            flags: WindowFlag::chromatic(),
            vline_sum: 0,
            vlines_used: 1,
            top_vline: LineId::new(0),
            vlines: Vec::new(),
            vline_operating: LineId::new(0),
            chars_per_line: 0,
        };
        assert(window@.vlines =~= WindowView::fresh(0, true, 0, 0).vlines);
        window
    }
}

} // verus!
