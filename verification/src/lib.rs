//! A text console for a framebuffer: a ring of virtual lines of coloured
//! character cells, the cursor and scrolling rules that move through it, and
//! the renderer that turns a cell into the pixels of an 8x16 glyph.
//!
//! Every function is verified against a mathematical model of the window
//! ([`window::WindowView`]) and of the pixel surface ([`surface::Surface`]).

pub mod chars;
pub mod color;
pub mod cursor;
pub mod early;
pub mod error;
pub mod font;
pub mod framework;
pub mod loopdev;
pub mod position;
pub mod surface;
pub mod window;

pub use crate::chars::{CellView, TextuiCharChromatic};
pub use crate::color::FontColor;
pub use crate::error::TextuiError;
pub use crate::font::{BitmapFont, Font, GlyphMapping, RangeGlyphMapping};
pub use crate::surface::{ScmBuffer, ScmBufferInfo, Surface, TextuiBuf};
pub use crate::position::{LineId, LineIndex, TEXTUI_CHAR_HEIGHT, TEXTUI_CHAR_WIDTH};
