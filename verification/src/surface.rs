//! The pixel surface: the bytes of a framebuffer, how a pixel of 16, 24 or
//! 32 bits is stored in them, and where the pixels of a character cell lie.

use crate::error::TextuiError;
use crate::font::glyph_bit;
use crate::position::{LineId, LineIndex};
use vstd::arithmetic::div_mod::{
    lemma_fundamental_div_mod, lemma_fundamental_div_mod_converse, lemma_mod_pos_bound,
};
use vstd::arithmetic::mul::lemma_mul_is_commutative;
use vstd::prelude::*;

verus! {

/// Byte `k` of a colour as the framebuffer stores it: the lowest byte first.
pub open spec fn color_byte(color: u32, k: int) -> u8 {
    if k == 0 {
        (color & 0xff) as u8
    } else if k == 1 {
        ((color >> 8) & 0xff) as u8
    } else if k == 2 {
        ((color >> 16) & 0xff) as u8
    } else {
        ((color >> 24) & 0xff) as u8
    }
}

/// A framebuffer as the renderer sees it: `width` pixels a row, `height`
/// rows, each pixel `bit_depth / 8` bytes, rows one after the other in
/// `bytes`. Pixel number `p` is the pixel in column `p % width` of row
/// `p / width`.
pub struct Surface {
    pub bytes: Seq<u8>,
    pub width: int,
    pub height: int,
    pub bit_depth: int,
}

impl Surface {
    /// Whether two surfaces have the same size, depth and number of bytes.
    pub open spec fn same_size(self, other: Surface) -> bool {
        &&& self.width == other.width
        &&& self.height == other.height
        &&& self.bit_depth == other.bit_depth
        &&& self.bytes.len() == other.bytes.len()
    }

    /// The number of bytes of one pixel.
    pub open spec fn bytes_per_pixel(self) -> int {
        self.bit_depth / 8
    }

    /// The depth is one of the three that can be drawn, and the bytes hold
    /// every pixel of every row.
    pub open spec fn wf(self) -> bool {
        &&& self.bit_depth == 16 || self.bit_depth == 24 || self.bit_depth == 32
        &&& 0 <= self.width
        &&& 0 <= self.height
        &&& self.width * self.height * self.bytes_per_pixel() <= self.bytes.len()
    }

    /// The surface after pixel number `index` was given `color`: the bytes
    /// of that pixel hold the low bytes of the colour, all others are as
    /// before. With 32 bits all four bytes of the colour are stored, with 24
    /// bits three, with 16 bits two.
    pub open spec fn put_pixel(self, index: int, color: u32) -> Surface {
        Surface {
            bytes: Seq::new(
                self.bytes.len(),
                |b: int|
                    if index * self.bytes_per_pixel() <= b < (index + 1) * self.bytes_per_pixel() {
                        color_byte(color, b - index * self.bytes_per_pixel())
                    } else {
                        self.bytes[b]
                    },
            ),
            ..self
        }
    }

    /// The surface after the low bytes of `color` were stored from byte `at`
    /// on, as many as a pixel has.
    pub open spec fn put_bytes(self, at: int, color: u32) -> Surface {
        Surface {
            bytes: Seq::new(
                self.bytes.len(),
                |b: int|
                    if at <= b < at + self.bytes_per_pixel() {
                        color_byte(color, b - at)
                    } else {
                        self.bytes[b]
                    },
            ),
            ..self
        }
    }

    /// Pixel number `index` begins at byte `index * bytes_per_pixel`.
    pub proof fn lemma_put_pixel_bytes(self, index: int, color: u32)
        ensures
            self.put_pixel(index, color) == self.put_bytes(index * self.bytes_per_pixel(), color),
    {
        let bpp = self.bytes_per_pixel();
        assert((index + 1) * bpp == index * bpp + bpp) by (nonlinear_arith);
        assert(self.put_pixel(index, color).bytes =~= self.put_bytes(index * bpp, color).bytes);
    }

    /// Whether the cell in the given row and column of the screen lies on
    /// the surface with all its pixels.
    pub open spec fn cell_fits(self, row: int, column: int) -> bool {
        &&& 0 <= row
        &&& 0 <= column
        &&& column * 8 + 8 <= self.width
        &&& row * 16 + 16 <= self.height
    }

    /// The colour of the pixel `(px, py)` where a glyph was drawn with its
    /// upper left corner at `(x, y)`.
    pub open spec fn glyph_color(
        x: int,
        y: int,
        glyph: Seq<u8>,
        frcolor: u32,
        bkcolor: u32,
        px: int,
        py: int,
    ) -> u32 {
        if glyph_bit(glyph, py - y, px - x) {
            frcolor
        } else {
            bkcolor
        }
    }

    /// The surface after a glyph was drawn with its upper left corner at the
    /// pixel `(x, y)`: each of the 8 x 16 pixels of the glyph has the
    /// foreground colour where the glyph has a bit set and the background
    /// colour where it has none, and every other pixel is as before.
    pub open spec fn draw_glyph(
        self,
        x: int,
        y: int,
        glyph: Seq<u8>,
        frcolor: u32,
        bkcolor: u32,
    ) -> Surface {
        Surface {
            bytes: Seq::new(
                self.bytes.len(),
                |b: int|
                    {
                        let p = b / self.bytes_per_pixel();
                        let px = p % self.width;
                        let py = p / self.width;
                        if x <= px < x + 8 && y <= py < y + 16 {
                            color_byte(
                                Self::glyph_color(x, y, glyph, frcolor, bkcolor, px, py),
                                b % self.bytes_per_pixel(),
                            )
                        } else {
                            self.bytes[b]
                        }
                    },
            ),
            ..self
        }
    }

    /// The surface after the cell in the given row and column of the screen
    /// was drawn. A cell that does not lie on the surface is not drawn at
    /// all.
    pub open spec fn draw_cell(
        self,
        row: int,
        column: int,
        glyph: Seq<u8>,
        frcolor: u32,
        bkcolor: u32,
    ) -> Surface {
        if self.cell_fits(row, column) {
            self.draw_glyph(column * 8, row * 16, glyph, frcolor, bkcolor)
        } else {
            self
        }
    }

    /// The surface while a glyph is being drawn row by row, each row from
    /// the left: `rows` rows are done, and `columns` pixels of the next.
    pub open spec fn draw_glyph_part(
        self,
        x: int,
        y: int,
        glyph: Seq<u8>,
        frcolor: u32,
        bkcolor: u32,
        rows: int,
        columns: int,
    ) -> Surface {
        Surface {
            bytes: Seq::new(
                self.bytes.len(),
                |b: int|
                    {
                        let p = b / self.bytes_per_pixel();
                        let px = p % self.width;
                        let py = p / self.width;
                        if x <= px < x + 8 && (y <= py < y + rows || (py == y + rows && px < x
                            + columns)) {
                            color_byte(
                                Self::glyph_color(x, y, glyph, frcolor, bkcolor, px, py),
                                b % self.bytes_per_pixel(),
                            )
                        } else {
                            self.bytes[b]
                        }
                    },
            ),
            ..self
        }
    }

    /// Nothing is drawn before the first pixel, a full row is the start of
    /// the next, and sixteen rows are the whole glyph.
    pub proof fn lemma_draw_glyph_rows(
        self,
        x: int,
        y: int,
        glyph: Seq<u8>,
        frcolor: u32,
        bkcolor: u32,
        rows: int,
    )
        requires
            0 <= rows,
        ensures
            self.draw_glyph_part(x, y, glyph, frcolor, bkcolor, 0, 0) == self,
            self.draw_glyph_part(x, y, glyph, frcolor, bkcolor, rows, 8) == self.draw_glyph_part(
                x,
                y,
                glyph,
                frcolor,
                bkcolor,
                rows + 1,
                0,
            ),
            self.draw_glyph_part(x, y, glyph, frcolor, bkcolor, 16, 0) == self.draw_glyph(
                x,
                y,
                glyph,
                frcolor,
                bkcolor,
            ),
    {
        assert(self.draw_glyph_part(x, y, glyph, frcolor, bkcolor, 0, 0).bytes =~= self.bytes);
        assert(self.draw_glyph_part(x, y, glyph, frcolor, bkcolor, rows, 8).bytes
            =~= self.draw_glyph_part(x, y, glyph, frcolor, bkcolor, rows + 1, 0).bytes);
        assert(self.draw_glyph_part(x, y, glyph, frcolor, bkcolor, 16, 0).bytes
            =~= self.draw_glyph(x, y, glyph, frcolor, bkcolor).bytes);
    }

    /// The pixel in column `px` of row `py` has the number `py * width + px`,
    /// and no other pixel has it.
    pub proof fn lemma_pixel_number(self, px: int, py: int, p: int)
        requires
            0 <= px < self.width,
        ensures
            p == py * self.width + px <==> (p % self.width == px && p / self.width == py),
    {
        if p == py * self.width + px {
            lemma_fundamental_div_mod_converse(p, self.width, py, px);
        }
        if p % self.width == px && p / self.width == py {
            lemma_fundamental_div_mod(p, self.width);
            lemma_mul_is_commutative(self.width, p / self.width);
        }
    }

    /// Giving the next pixel of a glyph its colour is the next step of
    /// drawing the glyph.
    pub proof fn lemma_draw_glyph_step(
        self,
        x: int,
        y: int,
        glyph: Seq<u8>,
        frcolor: u32,
        bkcolor: u32,
        row: int,
        column: int,
    )
        requires
            self.wf(),
            0 <= x,
            x + 8 <= self.width,
            0 <= column < 8,
        ensures
            self.draw_glyph_part(x, y, glyph, frcolor, bkcolor, row, column).put_pixel(
                (y + row) * self.width + x + column,
                Self::glyph_color(x, y, glyph, frcolor, bkcolor, x + column, y + row),
            ) == self.draw_glyph_part(x, y, glyph, frcolor, bkcolor, row, column + 1),
    {
        let before = self.draw_glyph_part(x, y, glyph, frcolor, bkcolor, row, column);
        let index = (y + row) * self.width + x + column;
        let color = Self::glyph_color(x, y, glyph, frcolor, bkcolor, x + column, y + row);
        let left = before.put_pixel(index, color);
        let right = self.draw_glyph_part(x, y, glyph, frcolor, bkcolor, row, column + 1);
        let bpp = self.bytes_per_pixel();
        assert(bpp == 2 || bpp == 3 || bpp == 4);
        assert((index + 1) * bpp == index * bpp + bpp) by (nonlinear_arith);
        assert forall|b: int| 0 <= b < self.bytes.len() implies left.bytes[b] == right.bytes[b] by {
            let p = b / bpp;
            lemma_fundamental_div_mod(b, bpp);
            lemma_mul_is_commutative(bpp, p);
            lemma_mod_pos_bound(b, bpp);
            self.lemma_pixel_number(x + column, y + row, p);
            if index * bpp <= b < (index + 1) * bpp {
                lemma_fundamental_div_mod_converse(b, bpp, index, b - index * bpp);
            }
        }
        assert(left.bytes =~= right.bytes);
    }
}

/// The memory behind a framebuffer: the region that the display reads, or a
/// second buffer that is copied to the display later.
#[derive(Debug)]
pub enum ScmBuffer {
    DeviceBuffer(Vec<u8>),
    DoubleBuffer(Vec<u8>),
}

impl ScmBuffer {
    /// The bytes of the buffer.
    pub open spec fn bytes(self) -> Seq<u8> {
        match self {
            ScmBuffer::DeviceBuffer(bytes) => bytes@,
            ScmBuffer::DoubleBuffer(bytes) => bytes@,
        }
    }

    /// The number of bytes of the buffer.
    pub fn len(&self) -> (len: usize)
        ensures
            len == self.bytes().len(),
    {
        match self {
            ScmBuffer::DeviceBuffer(bytes) => bytes.len(),
            ScmBuffer::DoubleBuffer(bytes) => bytes.len(),
        }
    }
}

/// A framebuffer: its size in pixels, the depth of a pixel, and its memory.
#[derive(Debug)]
pub struct ScmBufferInfo {
    width: u32,
    height: u32,
    bit_depth: u32,
    buf: ScmBuffer,
}

impl View for ScmBufferInfo {
    type V = Surface;

    closed spec fn view(&self) -> Surface {
        Surface {
            bytes: self.buf.bytes(),
            width: self.width as int,
            height: self.height as int,
            bit_depth: self.bit_depth as int,
        }
    }
}

/// Whether pixels of the given depth can be drawn.
pub open spec fn depth_supported(bit_depth: int) -> bool {
    bit_depth == 16 || bit_depth == 24 || bit_depth == 32
}

impl ScmBufferInfo {
    /// Whether the memory is the region that the display reads.
    pub closed spec fn is_device_buffer(&self) -> bool {
        self.buf is DeviceBuffer
    }

    /// The surface is one that can be drawn on.
    pub open spec fn wf(&self) -> bool {
        self@.wf()
    }

    /// The framebuffer of the given size and depth on the given memory.
    ///
    /// A depth other than 16, 24 or 32 bits is `Unsupported`; memory too
    /// short for `width * height` pixels is an `InvalidArgument`.
    pub fn new(width: u32, height: u32, bit_depth: u32, buf: ScmBuffer) -> (made: Result<
        ScmBufferInfo,
        TextuiError,
    >)
        ensures
            !depth_supported(bit_depth as int) ==> made == Err::<ScmBufferInfo, TextuiError>(
                TextuiError::Unsupported,
            ),
            depth_supported(bit_depth as int) && buf.bytes().len() < width * height * (bit_depth
                / 8) ==> made == Err::<ScmBufferInfo, TextuiError>(TextuiError::InvalidArgument),
            depth_supported(bit_depth as int) && buf.bytes().len() >= width * height * (bit_depth
                / 8) ==> made is Ok,
            made matches Ok(info) ==> {
                &&& info.wf()
                &&& info@ == (Surface {
                    bytes: buf.bytes(),
                    width: width as int,
                    height: height as int,
                    bit_depth: bit_depth as int,
                })
                &&& info.is_device_buffer() == (buf is DeviceBuffer)
            },
    {
        if bit_depth != 16 && bit_depth != 24 && bit_depth != 32 {
            return Err(TextuiError::Unsupported);
        }
        assert(width * height <= 0xffff_ffff * 0xffff_ffff) by (nonlinear_arith)
            requires
                width <= 0xffff_ffff,
                height <= 0xffff_ffff,
        ;
        let pixels: u128 = (width as u128) * (height as u128);
        assert(pixels * (bit_depth / 8) <= 0xffff_ffff * 0xffff_ffff * 4) by (nonlinear_arith)
            requires
                0 <= pixels <= 0xffff_ffff * 0xffff_ffff,
                0 <= bit_depth / 8 <= 4,
        ;
        let needed: u128 = pixels * ((bit_depth / 8) as u128);
        if (buf.len() as u128) < needed {
            return Err(TextuiError::InvalidArgument);
        }
        Ok(ScmBufferInfo { width, height, bit_depth, buf })
    }

    /// A framebuffer without any pixel.
    pub fn empty() -> (info: ScmBufferInfo)
        ensures
            info.wf(),
            info@ == (Surface { bytes: Seq::<u8>::empty(), width: 0, height: 0, bit_depth: 32 }),
            !info.is_device_buffer(),
    {
        assert(0 * 0 * 4 == 0) by (nonlinear_arith);
        ScmBufferInfo { width: 0, height: 0, bit_depth: 32, buf: ScmBuffer::DoubleBuffer(Vec::new()) }
    }

    /// The number of pixels of a row.
    pub fn width(&self) -> (width: u32)
        ensures
            width == self@.width,
    {
        self.width
    }

    /// The number of rows.
    pub fn height(&self) -> (height: u32)
        ensures
            height == self@.height,
    {
        self.height
    }

    /// The number of bits of a pixel.
    pub fn bit_depth(&self) -> (bit_depth: u32)
        ensures
            bit_depth == self@.bit_depth,
    {
        self.bit_depth
    }

    /// The number of bytes of the memory.
    pub fn buf_size(&self) -> (size: usize)
        ensures
            size == self@.bytes.len(),
    {
        self.buf.len()
    }

    /// Whether the memory is the region that the display reads.
    pub fn is_device(&self) -> (device: bool)
        ensures
            device == self.is_device_buffer(),
    {
        match &self.buf {
            ScmBuffer::DeviceBuffer(_) => true,
            ScmBuffer::DoubleBuffer(_) => false,
        }
    }

    /// The byte at the given place of the memory.
    pub fn byte(&self, at: usize) -> (byte: u8)
        requires
            at < self@.bytes.len(),
        ensures
            byte == self@.bytes[at as int],
    {
        match &self.buf {
            ScmBuffer::DeviceBuffer(bytes) => bytes[at],
            ScmBuffer::DoubleBuffer(bytes) => bytes[at],
        }
    }

    /// Takes over what `src` shows, as far as both have memory: the bytes
    /// that both hold are copied from `src`, the rest stays as it is.
    pub fn copy_from_nonoverlapping(&mut self, src: &ScmBufferInfo)
        ensures
            final(self)@.width == old(self)@.width,
            final(self)@.height == old(self)@.height,
            final(self)@.bit_depth == old(self)@.bit_depth,
            final(self).is_device_buffer() == old(self).is_device_buffer(),
            final(self)@.bytes.len() == old(self)@.bytes.len(),
            forall|b: int|
                0 <= b < old(self)@.bytes.len() ==> #[trigger] final(self)@.bytes[b] == (if b
                    < src@.bytes.len() {
                    src@.bytes[b]
                } else {
                    old(self)@.bytes[b]
                }),
    {
        let ghost before = self@;
        let ghost after = final(self)@;
        let src_len: usize = src.buf_size();
        let mut target = TextuiBuf::new(self);
        let len: usize = target.buf.len();
        let mut at: usize = 0;
        while at < len && at < src_len
            invariant
                at <= len,
                at <= src_len,
                len == before.bytes.len(),
                src_len == src@.bytes.len(),
                target.buf@.len() == len,
                forall|b: int| 0 <= b < at ==> target.buf@[b] == src@.bytes[b],
                forall|b: int| at <= b < len ==> target.buf@[b] == before.bytes[b],
                after.bytes == final(target.buf)@,
            decreases len - at,
        {
            let byte: u8 = src.byte(at);
            target.buf[at] = byte;
            at += 1;
        }
    }
}

/// A framebuffer while it is drawn on: its bytes, borrowed for the time of
/// one drawing, with the size and depth needed to find a pixel in them.
pub struct TextuiBuf<'a> {
    pub buf: &'a mut Vec<u8>,
    pub bit_depth: u32,
    pub width: u32,
    pub height: u32,
}

impl<'a> View for TextuiBuf<'a> {
    type V = Surface;

    open spec fn view(&self) -> Surface {
        Surface {
            bytes: self.buf@,
            width: self.width as int,
            height: self.height as int,
            bit_depth: self.bit_depth as int,
        }
    }
}

impl<'a> TextuiBuf<'a> {
    /// Borrows the bytes of a framebuffer for drawing. What is drawn
    /// through the returned value is what the framebuffer shows afterwards;
    /// its size, depth and kind do not change.
    pub fn new(buf: &'a mut ScmBufferInfo) -> (surface: TextuiBuf<'a>)
        ensures
            surface@ == old(buf)@,
            final(buf)@ == (Surface { bytes: final(surface.buf)@, ..old(buf)@ }),
            final(buf).is_device_buffer() == old(buf).is_device_buffer(),
    {
        let bit_depth: u32 = buf.bit_depth;
        let width: u32 = buf.width;
        let height: u32 = buf.height;
        match &mut buf.buf {
            ScmBuffer::DeviceBuffer(bytes) => TextuiBuf { buf: bytes, bit_depth, width, height },
            ScmBuffer::DoubleBuffer(bytes) => TextuiBuf { buf: bytes, bit_depth, width, height },
        }
    }

    /// The bytes, to be written.
    pub fn buf_mut(&mut self) -> (bytes: &mut Vec<u8>)
        ensures
            *bytes == *old(self).buf,
            final(self)@ == (Surface { bytes: final(bytes)@, ..old(self)@ }),
            *final(final(self).buf) == *final(old(self).buf),
    {
        &mut *self.buf
    }

    /// Stores the low bytes of `color` from byte `at` on: four of them at 32
    /// bits, three at 24 bits, two at 16 bits.
    pub fn put_color_at(&mut self, color: u32, at: usize)
        requires
            depth_supported(old(self)@.bit_depth),
            at + old(self)@.bytes_per_pixel() <= old(self)@.bytes.len(),
        ensures
            final(self)@ == old(self)@.put_bytes(at as int, color),
            *final(final(self).buf) == *final(old(self).buf),
    {
        let ghost before = self@;
        let len: usize = self.buf.len();
        let b0: u32 = color & 0xff;
        let b1: u32 = (color >> 8) & 0xff;
        let b2: u32 = (color >> 16) & 0xff;
        let b3: u32 = (color >> 24) & 0xff;
        assert(color & 0xff <= 0xff) by (bit_vector);
        assert((color >> 8) & 0xff <= 0xff) by (bit_vector);
        assert((color >> 16) & 0xff <= 0xff) by (bit_vector);
        assert((color >> 24) & 0xff <= 0xff) by (bit_vector);
        match self.bit_depth {
            32 => {
                self.buf[at] = b0 as u8;
                self.buf[at + 1] = b1 as u8;
                self.buf[at + 2] = b2 as u8;
                self.buf[at + 3] = b3 as u8;
            },
            24 => {
                self.buf[at] = b0 as u8;
                self.buf[at + 1] = b1 as u8;
                self.buf[at + 2] = b2 as u8;
            },
            _ => {
                self.buf[at] = b0 as u8;
                self.buf[at + 1] = b1 as u8;
            },
        }
        assert(self@.bytes =~= before.put_bytes(at as int, color).bytes);
    }

    /// Gives pixel number `index` the colour `color`: four bytes of it at 32
    /// bits, three at 24 bits, two at 16 bits.
    pub fn put_color_in_pixel(&mut self, color: u32, index: usize)
        requires
            depth_supported(old(self)@.bit_depth),
            (index + 1) * old(self)@.bytes_per_pixel() <= old(self)@.bytes.len(),
        ensures
            final(self)@ == old(self)@.put_pixel(index as int, color),
            *final(final(self).buf) == *final(old(self).buf),
    {
        let ghost before = self@;
        let len: usize = self.buf.len();
        let bytes_per_pixel: usize = (self.bit_depth / 8) as usize;
        assert(0 <= index * bytes_per_pixel && (index + 1) * bytes_per_pixel == index
            * bytes_per_pixel + bytes_per_pixel) by (nonlinear_arith)
            requires
                0 <= index,
                0 <= bytes_per_pixel,
        ;
        proof {
            before.lemma_put_pixel_bytes(index as int, color);
        }
        self.put_color_at(color, index * bytes_per_pixel);
    }

    /// The number of the pixel one row below pixel number `now_index`.
    pub fn get_index_of_next_line(&self, now_index: usize) -> (index: usize)
        requires
            self@.width + now_index <= usize::MAX,
        ensures
            index == self@.width + now_index,
    {
        self.width as usize + now_index
    }

    /// The number of the pixel in column `x` of row `y`.
    pub fn get_index_by_x_y(&self, x: usize, y: usize) -> (index: usize)
        requires
            self@.width * y + x <= usize::MAX,
        ensures
            index == self@.width * y + x,
    {
        assert(self.width as int * y as int >= 0) by (nonlinear_arith)
            requires
                self.width >= 0,
                y >= 0,
        ;
        self.width as usize * y + x
    }

    /// The number of the upper left pixel of the cell in the given row and
    /// column of the screen.
    pub fn get_start_index_by_lineid_lineindex(&self, lineid: LineId, lineindex: LineIndex) -> (index:
        usize)
        requires
            0 <= lineid@,
            0 <= lineindex@,
            lineid@ * 16 <= u32::MAX,
            lineindex@ * 8 <= u32::MAX,
            self@.width * (lineid@ * 16) + lineindex@ * 8 <= usize::MAX,
        ensures
            index == self@.width * (lineid@ * 16) + lineindex@ * 8,
    {
        let index_x: u32 = lineindex.to_u32();
        let x: u32 = index_x * 8;
        let id_y: u32 = lineid.to_u32();
        let y: u32 = id_y * 16;
        self.get_index_by_x_y(x as usize, y as usize)
    }
}

/// A cell that lies on a surface lies in its bytes: the number of its last
/// pixel, and of every pixel before it, is below the number of pixels.
pub proof fn lemma_cell_in_bytes(surface: Surface, row: int, column: int, i: int, j: int)
    requires
        surface.wf(),
        surface.cell_fits(row, column),
        0 <= i < 16,
        0 <= j < 8,
    ensures
        0 <= (row * 16 + i) * surface.width + column * 8 + j < surface.width * surface.height,
        ((row * 16 + i) * surface.width + column * 8 + j + 1) * surface.bytes_per_pixel()
            <= surface.bytes.len(),
        (row * 16 + i) * surface.width + column * 8 + j + 1 <= surface.bytes.len(),
        (row * 16 + i) * surface.width + column * 8 + surface.width <= surface.bytes.len(),
        surface.width * (row * 16) + column * 8 + i * surface.width + j == (row * 16 + i)
            * surface.width + column * 8 + j,
{
    let w = surface.width;
    let h = surface.height;
    let bpp = surface.bytes_per_pixel();
    let y = row * 16 + i;
    assert(y * w <= (h - 1) * w) by (nonlinear_arith)
        requires
            y <= h - 1,
            0 <= w,
    ;
    assert((h - 1) * w == h * w - w) by (nonlinear_arith);
    assert(h * w == w * h) by (nonlinear_arith);
    assert(0 <= y * w) by (nonlinear_arith)
        requires
            0 <= y,
            0 <= w,
    ;
    let p = y * w + column * 8 + j;
    assert((p + 1) * bpp <= (w * h) * bpp) by (nonlinear_arith)
        requires
            p + 1 <= w * h,
            0 <= bpp,
    ;
    assert(w * (row * 16) + i * w == (row * 16 + i) * w) by (nonlinear_arith);
    assert((w * h) * bpp >= (w * h) + (w * h)) by (nonlinear_arith)
        requires
            bpp >= 2,
            w * h >= 0,
    ;
    assert(w <= w * h) by (nonlinear_arith)
        requires
            h >= 1,
            w >= 0,
    ;
}

/// Where pixel `j` of row `i` of a cell begins in the bytes, counted in
/// bytes from the start of its row of pixels, and that the whole row of the
/// cell lies in the bytes.
pub proof fn lemma_cell_address(surface: Surface, row: int, column: int, i: int, j: int)
    requires
        surface.wf(),
        surface.cell_fits(row, column),
        0 <= i < 16,
        0 <= j < 8,
    ensures
        0 <= surface.width * surface.bytes_per_pixel() <= surface.bytes.len(),
        0 <= surface.width * surface.bytes_per_pixel() * (row * 16 + i) <= surface.bytes.len(),
        0 <= surface.bytes_per_pixel() * (column * 8),
        surface.width * surface.bytes_per_pixel() * (row * 16 + i) + surface.bytes_per_pixel() * (
        column * 8) + j * surface.bytes_per_pixel() == ((row * 16 + i) * surface.width + column
            * 8 + j) * surface.bytes_per_pixel(),
        surface.width * surface.bytes_per_pixel() * (row * 16 + i) + surface.bytes_per_pixel() * (
        column * 8) + j * surface.bytes_per_pixel() + surface.bytes_per_pixel()
            <= surface.bytes.len(),
{
    let w = surface.width;
    let h = surface.height;
    let bpp = surface.bytes_per_pixel();
    let y = row * 16 + i;
    let x = column * 8;
    lemma_cell_in_bytes(surface, row, column, i, j);
    assert(w * bpp * y + bpp * x + j * bpp == (y * w + x + j) * bpp) by (nonlinear_arith);
    assert((y * w + x + j + 1) * bpp == (y * w + x + j) * bpp + bpp) by (nonlinear_arith);
    assert(0 <= w * bpp && 0 <= w * bpp * y && 0 <= bpp * x) by (nonlinear_arith)
        requires
            0 <= w,
            0 <= bpp,
            0 <= y,
            0 <= x,
    ;
    assert(w * bpp <= w * h * bpp) by (nonlinear_arith)
        requires
            0 <= w,
            0 <= bpp,
            1 <= h,
    ;
}

} // verus!
