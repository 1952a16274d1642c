//! A character cell: a character with its two colours, and how it is drawn.

use crate::color::FontColor;
use crate::error::TextuiError;
use crate::font::{blank_glyph, BitmapFont, Font, GlyphMapping};
use crate::position::{LineId, LineIndex};
use crate::surface::{
    lemma_cell_address, lemma_cell_in_bytes, ScmBufferInfo, Surface, TextuiBuf,
};
use vstd::prelude::*;

verus! {

/// What a cell holds: the character, if there is one, and the packed values
/// of the colour of the character and of the colour behind it.
pub struct CellView {
    pub c: Option<char>,
    pub frcolor: u32,
    pub bkcolor: u32,
}

impl CellView {
    /// The cell of a cleared line: no character, black on black.
    pub open spec fn blank() -> CellView {
        CellView { c: None, frcolor: 0, bkcolor: 0 }
    }

    /// The glyph that the cell is drawn with: that which `font` has for its
    /// character, and the blank glyph where the cell holds no character, so
    /// that such a cell is filled with its background.
    pub open spec fn glyph<M: GlyphMapping>(self, font: &BitmapFont<M>) -> Seq<u8> {
        match self.c {
            Some(c) => font.glyph(c),
            None => blank_glyph(),
        }
    }

    /// The surface after this cell was drawn in the given row and column of
    /// the screen. Nothing is drawn where the cell does not lie on the
    /// surface.
    pub open spec fn render<M: GlyphMapping>(
        self,
        surface: Surface,
        font: &BitmapFont<M>,
        row: int,
        column: int,
    ) -> Surface {
        surface.draw_cell(row, column, self.glyph(font), self.frcolor, self.bkcolor)
    }
}

/// A cell without character is filled with its background: every pixel of
/// its block gets the background colour, whatever the foreground colour and
/// whatever glyphs the font holds.
pub proof fn lemma_blank_cell_is_background<M: GlyphMapping>(
    cell: CellView,
    font: &BitmapFont<M>,
    x: int,
    y: int,
    px: int,
    py: int,
)
    requires
        cell.c is None,
        x <= px < x + 8,
        y <= py < y + 16,
    ensures
        Surface::glyph_color(x, y, cell.glyph(font), cell.frcolor, cell.bkcolor, px, py)
            == cell.bkcolor,
{
    let shift = (7 - (px - x)) as u8;
    assert(0u8 & (1u8 << shift) == 0) by (bit_vector);
}

/// One cell of a line of coloured text.
#[derive(Clone, Debug, Copy)]
pub struct TextuiCharChromatic {
    c: Option<char>,
    frcolor: FontColor,
    bkcolor: FontColor,
}

impl View for TextuiCharChromatic {
    type V = CellView;

    closed spec fn view(&self) -> CellView {
        CellView { c: self.c, frcolor: self.frcolor@, bkcolor: self.bkcolor@ }
    }
}

impl TextuiCharChromatic {
    /// The cell with the given character and colours.
    pub fn new(c: Option<char>, frcolor: FontColor, bkcolor: FontColor) -> (cell: Self)
        ensures
            cell@ == (CellView { c, frcolor: frcolor@, bkcolor: bkcolor@ }),
    {
        TextuiCharChromatic { c, frcolor, bkcolor }
    }

    /// The character of the cell, if it holds one.
    pub fn c(&self) -> (c: Option<char>)
        ensures
            c == self@.c,
    {
        self.c
    }

    /// The colour of the character.
    pub fn frcolor(&self) -> (color: FontColor)
        ensures
            color@ == self@.frcolor,
    {
        self.frcolor
    }

    /// The colour behind the character.
    pub fn bkcolor(&self) -> (color: FontColor)
        ensures
            color@ == self@.bkcolor,
    {
        self.bkcolor
    }

    /// The glyph that the cell is drawn with.
    fn glyph<M: GlyphMapping>(&self, font: &BitmapFont<M>) -> (glyph: Font)
        ensures
            glyph@ == self@.glyph(font),
            glyph@.len() == 16,
    {
        match self.c {
            Some(c) => Font::get_font(font, c),
            None => Font::blank(),
        }
    }

    /// Whether the cell in the given row and column lies on the surface.
    fn on_surface(lineid: LineId, lineindex: LineIndex, buf_info: &ScmBufferInfo) -> (fits: bool)
        ensures
            fits == buf_info@.cell_fits(lineid@, lineindex@),
    {
        let row: i64 = lineid.data() as i64;
        let column: i64 = lineindex.data() as i64;
        row >= 0 && column >= 0 && column * 8 + 8 <= buf_info.width() as i64 && row * 16 + 16
            <= buf_info.height() as i64
    }

    /// Draws the cell in row `lineid` and column `lineindex` of the screen:
    /// for each of the sixteen rows and eight columns of the glyph, the
    /// pixel gets the foreground colour where the glyph has a bit set and
    /// the background colour where it has none. A cell without character
    /// is filled with its background. A cell that does not lie on the
    /// surface is left out.
    pub fn textui_refresh_character<M: GlyphMapping>(
        &self,
        lineid: LineId,
        lineindex: LineIndex,
        font: &BitmapFont<M>,
        buf_info: &mut ScmBufferInfo,
    ) -> (done: Result<i32, TextuiError>)
        requires
            old(buf_info).wf(),
        ensures
            done == Ok::<i32, TextuiError>(0),
            final(buf_info)@ == self@.render(old(buf_info)@, font, lineid@, lineindex@),
            final(buf_info)@.same_size(old(buf_info)@),
            final(buf_info).is_device_buffer() == old(buf_info).is_device_buffer(),
            final(buf_info).wf(),
    {
        let glyph: Font = self.glyph(font);
        if !Self::on_surface(lineid, lineindex, buf_info) {
            return Ok(0);
        }
        let frcolor: u32 = self.frcolor.to_u32();
        let bkcolor: u32 = self.bkcolor.to_u32();
        let ghost before = buf_info@;
        let ghost after = final(buf_info)@;
        let ghost x = lineindex@ * 8;
        let ghost y = lineid@ * 16;
        let mut buf = TextuiBuf::new(buf_info);
        let len: usize = buf.buf.len();
        proof {
            lemma_cell_in_bytes(before, lineid@, lineindex@, 0, 0);
            before.lemma_draw_glyph_rows(x, y, glyph@, frcolor, bkcolor, 0);
        }
        let mut count: usize = buf.get_start_index_by_lineid_lineindex(lineid, lineindex);
        let mut i: u32 = 0;
        while i < 16
            invariant
                0 <= i <= 16,
                before.wf(),
                before.cell_fits(lineid@, lineindex@),
                x == lineindex@ * 8,
                y == lineid@ * 16,
                glyph@.len() == 16,
                i < 16 ==> count == (y + i) * before.width + x,
                before.bytes.len() <= usize::MAX,
                buf@ == before.draw_glyph_part(x, y, glyph@, frcolor, bkcolor, i as int, 0),
                after == (Surface { bytes: final(buf.buf)@, ..before }),
            decreases 16 - i,
        {
            let start: usize = count;
            let mut j: u32 = 0;
            while j < 8
                invariant
                    0 <= j <= 8,
                    0 <= i < 16,
                    before.wf(),
                    before.cell_fits(lineid@, lineindex@),
                    x == lineindex@ * 8,
                    y == lineid@ * 16,
                    glyph@.len() == 16,
                    start == (y + i) * before.width + x,
                    before.bytes.len() <= usize::MAX,
                    count == start + j,
                    buf@ == before.draw_glyph_part(
                        x,
                        y,
                        glyph@,
                        frcolor,
                        bkcolor,
                        i as int,
                        j as int,
                    ),
                    after == (Surface { bytes: final(buf.buf)@, ..before }),
                decreases 8 - j,
            {
                proof {
                    lemma_cell_in_bytes(before, lineid@, lineindex@, i as int, j as int);
                    before.lemma_draw_glyph_step(
                        x,
                        y,
                        glyph@,
                        frcolor,
                        bkcolor,
                        i as int,
                        j as int,
                    );
                }
                if glyph.is_frcolor(i as usize, j as usize) {
                    buf.put_color_in_pixel(frcolor, count);
                } else {
                    buf.put_color_in_pixel(bkcolor, count);
                }
                count += 1;
                j += 1;
            }
            proof {
                before.lemma_draw_glyph_rows(x, y, glyph@, frcolor, bkcolor, i as int);
                if i + 1 < 16 {
                    lemma_cell_in_bytes(before, lineid@, lineindex@, i + 1, 0);
                    assert((y + i + 1) * before.width == (y + i) * before.width + before.width)
                        by (nonlinear_arith);
                }
            }
            i += 1;
            if i < 16 {
                count = buf.get_index_of_next_line(start);
            }
        }
        proof {
            before.lemma_draw_glyph_rows(x, y, glyph@, frcolor, bkcolor, 16);
        }
        Ok(0)
    }

    /// Draws the cell as [`Self::textui_refresh_character`] does, finding each
    /// pixel by the address of its first byte: for the time before any
    /// window exists, when characters go straight to the region that the
    /// display reads.
    pub fn no_init_textui_render_chromatic<M: GlyphMapping>(
        &self,
        lineid: LineId,
        lineindex: LineIndex,
        font: &BitmapFont<M>,
        device_buffer: &mut ScmBufferInfo,
    )
        requires
            old(device_buffer).wf(),
            old(device_buffer).is_device_buffer(),
        ensures
            final(device_buffer)@ == self@.render(old(device_buffer)@, font, lineid@, lineindex@),
            final(device_buffer)@.same_size(old(device_buffer)@),
            final(device_buffer).is_device_buffer(),
            final(device_buffer).wf(),
    {
        let glyph: Font = self.glyph(font);
        if !Self::on_surface(lineid, lineindex, device_buffer) {
            return ;
        }
        let frcolor: u32 = self.frcolor.to_u32();
        let bkcolor: u32 = self.bkcolor.to_u32();
        let buf_depth: u32 = device_buffer.bit_depth();
        let buf_width: u32 = device_buffer.width();
        let buf_height: u32 = device_buffer.height();
        let index_x: u32 = lineindex.to_u32();
        let x: u32 = index_x * 8;
        let id_y: u32 = lineid.to_u32();
        let y: u32 = id_y * 16;
        assert(x + 8 <= buf_width && y + 16 <= buf_height);
        let byte_num_of_depth: usize = (buf_depth / 8) as usize;
        let ghost before = device_buffer@;
        let ghost after = final(device_buffer)@;
        let mut buf = TextuiBuf::new(device_buffer);
        let len: usize = buf.buf.len();
        proof {
            before.lemma_draw_glyph_rows(x as int, y as int, glyph@, frcolor, bkcolor, 0);
        }
        let mut i: u32 = 0;
        while i < 16
            invariant
                0 <= i <= 16,
                before.wf(),
                before.cell_fits(lineid@, lineindex@),
                x == lineindex@ * 8,
                y == lineid@ * 16,
                buf_width == before.width,
                byte_num_of_depth == before.bytes_per_pixel(),
                glyph@.len() == 16,
                before.bytes.len() <= usize::MAX,
                buf@ == before.draw_glyph_part(
                    x as int,
                    y as int,
                    glyph@,
                    frcolor,
                    bkcolor,
                    i as int,
                    0,
                ),
                after == (Surface { bytes: final(buf.buf)@, ..before }),
            decreases 16 - i,
        {
            proof {
                lemma_cell_address(before, lineid@, lineindex@, i as int, 0);
            }
            let mut addr: usize = buf_width as usize * byte_num_of_depth * (y as usize
                + i as usize) + byte_num_of_depth * x as usize;
            let mut j: u32 = 0;
            while j < 8
                invariant
                    0 <= j <= 8,
                    0 <= i < 16,
                    before.wf(),
                    before.cell_fits(lineid@, lineindex@),
                    x == lineindex@ * 8,
                    y == lineid@ * 16,
                    buf_width == before.width,
                    byte_num_of_depth == before.bytes_per_pixel(),
                    glyph@.len() == 16,
                    before.bytes.len() <= usize::MAX,
                    addr == before.width * before.bytes_per_pixel() * (y + i)
                        + before.bytes_per_pixel() * x + j * before.bytes_per_pixel(),
                    j == 8 ==> addr <= before.bytes.len(),
                    buf@ == before.draw_glyph_part(
                        x as int,
                        y as int,
                        glyph@,
                        frcolor,
                        bkcolor,
                        i as int,
                        j as int,
                    ),
                    after == (Surface { bytes: final(buf.buf)@, ..before }),
                decreases 8 - j,
            {
                let ghost index = (y + i) * before.width + x + j;
                let ghost part = buf@;
                proof {
                    lemma_cell_address(before, lineid@, lineindex@, i as int, j as int);
                    part.lemma_put_pixel_bytes(index, frcolor);
                    part.lemma_put_pixel_bytes(index, bkcolor);
                    before.lemma_draw_glyph_step(
                        x as int,
                        y as int,
                        glyph@,
                        frcolor,
                        bkcolor,
                        i as int,
                        j as int,
                    );
                    assert((j + 1) * before.bytes_per_pixel() == j * before.bytes_per_pixel()
                        + before.bytes_per_pixel()) by (nonlinear_arith);
                }
                if glyph.is_frcolor(i as usize, j as usize) {
                    buf.put_color_at(frcolor, addr);
                } else {
                    buf.put_color_at(bkcolor, addr);
                }
                addr = addr + byte_num_of_depth;
                j += 1;
            }
            proof {
                before.lemma_draw_glyph_rows(
                    x as int,
                    y as int,
                    glyph@,
                    frcolor,
                    bkcolor,
                    i as int,
                );
            }
            i += 1;
        }
        proof {
            before.lemma_draw_glyph_rows(x as int, y as int, glyph@, frcolor, bkcolor, 16);
        }
    }
}

} // verus!
