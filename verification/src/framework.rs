//! The console as a whole: the framebuffer it draws on, its windows, the
//! window that text goes to, and the switch that keeps text off the screen.

use crate::color::FontColor;
use crate::early::{early_text_serial, EarlyCursor, EarlyView};
use crate::error::TextuiError;
use crate::font::{BitmapFont, GlyphMapping};
use crate::position::{TEXTUI_CHAR_HEIGHT, TEXTUI_CHAR_WIDTH};
use crate::surface::{ScmBufferInfo, Surface};
use crate::window::{TextuiWindow, WindowFlag, WindowId, WindowView};
use vstd::prelude::*;
use vstd::string::StrSliceExecFns;

verus! {

/// The kinds of display frameworks.
#[derive(Debug, Copy, Clone, PartialEq, Eq, Structural)]
pub enum ScmFramworkType {
    Text,
    Gui,
    Unused,
}

/// What a display framework is known by: its kind and its framebuffer.
#[derive(Debug)]
pub struct ScmUiFrameworkMetadata {
    f_type: ScmFramworkType,
    buf_info: ScmBufferInfo,
}

impl ScmUiFrameworkMetadata {
    /// The kind of the framework.
    pub closed spec fn kind(&self) -> ScmFramworkType {
        self.f_type
    }

    /// The framebuffer of the framework.
    pub closed spec fn surface(&self) -> Surface {
        self.buf_info@
    }

    /// The framebuffer is one that can be drawn on.
    pub closed spec fn wf(&self) -> bool {
        self.buf_info.wf()
    }

    /// Whether the framebuffer is the region that the display reads.
    pub closed spec fn is_device_buffer(&self) -> bool {
        self.buf_info.is_device_buffer()
    }

    /// The metadata of a framework of the given kind on the given
    /// framebuffer.
    pub fn new(f_type: ScmFramworkType, buf_info: ScmBufferInfo) -> (metadata: Self)
        ensures
            metadata.kind() == f_type,
            metadata.surface() == buf_info@,
            metadata.wf() == buf_info.wf(),
            metadata.is_device_buffer() == buf_info.is_device_buffer(),
    {
        ScmUiFrameworkMetadata { f_type, buf_info }
    }

    /// The kind of the framework.
    pub fn f_type(&self) -> (f_type: ScmFramworkType)
        ensures
            f_type == self.kind(),
    {
        self.f_type
    }

    /// The framebuffer.
    pub fn buf_info(&self) -> (buf_info: &ScmBufferInfo)
        ensures
            buf_info@ == self.surface(),
            buf_info.wf() == self.wf(),
            buf_info.is_device_buffer() == self.is_device_buffer(),
    {
        &self.buf_info
    }

    /// Puts another framebuffer in the place of the present one, which is
    /// returned.
    pub fn set_buf_info(&mut self, buf_info: ScmBufferInfo) -> (previous: ScmBufferInfo)
        ensures
            previous@ == old(self).surface(),
            previous.wf() == old(self).wf(),
            final(self).kind() == old(self).kind(),
            final(self).surface() == buf_info@,
            final(self).wf() == buf_info.wf(),
            final(self).is_device_buffer() == buf_info.is_device_buffer(),
    {
        let mut buf_info = buf_info;
        core::mem::swap(&mut self.buf_info, &mut buf_info);
        buf_info
    }
}

/// The console once it is set up: its framebuffer, its windows, the number
/// of rows that the screen shows, and which window is written to.
#[derive(Debug)]
pub struct TextUiFramework {
    metadata: ScmUiFrameworkMetadata,
    window_list: Vec<TextuiWindow>,
    actual_line: i32,
    current_window: usize,
    default_window: usize,
}

impl TextUiFramework {
    /// The framebuffer of the console.
    pub closed spec fn surface(&self) -> Surface {
        self.metadata.surface()
    }

    /// The kind of the framework.
    pub closed spec fn kind(&self) -> ScmFramworkType {
        self.metadata.kind()
    }

    /// The windows of the console.
    pub closed spec fn windows(&self) -> Seq<TextuiWindow> {
        self.window_list@
    }

    /// The number of rows of text that the screen shows.
    pub closed spec fn actual_line_sum(&self) -> int {
        self.actual_line as int
    }

    /// The place of the window that is written to, among the windows.
    pub closed spec fn current(&self) -> int {
        self.current_window as int
    }

    /// The place of the window that text goes to when no other is chosen.
    pub closed spec fn default(&self) -> int {
        self.default_window as int
    }

    /// The framebuffer can be drawn on, both chosen windows exist, and every
    /// window can be written to and has at least as many lines as the screen
    /// shows rows.
    pub open spec fn wf(&self) -> bool {
        &&& self.surface().wf()
        &&& 0 <= self.current() < self.windows().len()
        &&& 0 <= self.default() < self.windows().len()
        &&& 0 <= self.actual_line_sum()
        &&& forall|i: int|
            0 <= i < self.windows().len() ==> (#[trigger] self.windows()[i]).wf()
                && self.actual_line_sum() <= self.windows()[i]@.vline_sum
    }

    /// The window that is written to.
    pub open spec fn window(&self) -> WindowView {
        self.windows()[self.current()]@
    }

    /// The console on the given framebuffer with the given windows. The
    /// screen shows as many rows of text as glyphs fit into its height.
    pub fn new(
        metadata: ScmUiFrameworkMetadata,
        window_list: Vec<TextuiWindow>,
        current_window: usize,
        default_window: usize,
    ) -> (framework: Self)
        ensures
            framework.surface() == metadata.surface(),
            framework.kind() == metadata.kind(),
            framework.windows() == window_list@,
            framework.current() == current_window,
            framework.default() == default_window,
            framework.actual_line_sum() == metadata.surface().height / 16,
            framework.wf() <==> {
                &&& metadata.wf()
                &&& current_window < window_list@.len()
                &&& default_window < window_list@.len()
                &&& forall|i: int|
                    0 <= i < window_list@.len() ==> (#[trigger] window_list@[i]).wf()
                        && metadata.surface().height / 16 <= window_list@[i]@.vline_sum
            },
    {
        let actual_line: i32 = (metadata.buf_info().height() / TEXTUI_CHAR_HEIGHT) as i32;
        TextUiFramework { metadata, window_list, actual_line, current_window, default_window }
    }

    /// The number of rows of text that the screen shows.
    pub fn actual_line(&self) -> (rows: i32)
        ensures
            rows == self.actual_line_sum(),
    {
        self.actual_line
    }

    /// The number of windows.
    pub fn window_count(&self) -> (count: usize)
        ensures
            count == self.windows().len(),
    {
        self.window_list.len()
    }

    /// The window at the given place.
    pub fn window_at(&self, place: usize) -> (window: &TextuiWindow)
        requires
            place < self.windows().len(),
        ensures
            *window == self.windows()[place as int],
    {
        &self.window_list[place]
    }

    /// The window that is written to.
    pub fn current_window(&self) -> (window: &TextuiWindow)
        requires
            self.current() < self.windows().len(),
        ensures
            *window == self.windows()[self.current()],
    {
        &self.window_list[self.current_window]
    }

    /// The window that text goes to when no other is chosen.
    pub fn default_window(&self) -> (window: &TextuiWindow)
        requires
            self.default() < self.windows().len(),
        ensures
            *window == self.windows()[self.default()],
    {
        &self.window_list[self.default_window]
    }

    /// The metadata of the framework.
    pub fn metadata(&self) -> (metadata: Result<&ScmUiFrameworkMetadata, TextuiError>)
        ensures
            metadata matches Ok(m) && m.surface() == self.surface() && m.kind() == self.kind(),
    {
        Ok(&self.metadata)
    }

    /// Moves the console to another framebuffer. What the old framebuffer
    /// showed is copied to the new one, as far as both have memory; the
    /// windows stay as they are.
    pub fn change(&mut self, buf_info: ScmBufferInfo) -> (done: Result<i32, TextuiError>)
        requires
            old(self).wf(),
            buf_info.wf(),
        ensures
            done == Ok::<i32, TextuiError>(0),
            final(self).wf(),
            final(self).windows() == old(self).windows(),
            final(self).current() == old(self).current(),
            final(self).default() == old(self).default(),
            final(self).actual_line_sum() == old(self).actual_line_sum(),
            final(self).kind() == old(self).kind(),
            final(self).surface().width == buf_info@.width,
            final(self).surface().height == buf_info@.height,
            final(self).surface().bit_depth == buf_info@.bit_depth,
            final(self).surface().bytes.len() == buf_info@.bytes.len(),
            forall|b: int|
                0 <= b < buf_info@.bytes.len() ==> #[trigger] final(self).surface().bytes[b] == (
                if b < old(self).surface().bytes.len() {
                    old(self).surface().bytes[b]
                } else {
                    buf_info@.bytes[b]
                }),
    {
        let mut new_buf = buf_info;
        let old_buf: ScmBufferInfo = self.metadata.set_buf_info(ScmBufferInfo::empty());
        new_buf.copy_from_nonoverlapping(&old_buf);
        let _ = self.metadata.set_buf_info(new_buf);
        Ok(0)
    }
}

impl TextUiFramework {
    /// Hands one character of a text to the window that is written to.
    pub fn textui_putchar<M: GlyphMapping>(
        &mut self,
        character: char,
        frcolor: FontColor,
        bkcolor: FontColor,
        is_enable_window: bool,
        font: &BitmapFont<M>,
        serial: &mut Vec<u8>,
    ) -> (done: Result<(), TextuiError>)
        requires
            old(self).wf(),
            i32::MIN < old(self).window().vlines_used,
            old(self).window().vlines_used + 8 <= i32::MAX,
        ensures
            final(self).wf(),
            final(self).same_but_window(*old(self)),
            final(self).surface().same_size(old(self).surface()),
            final(self).window() == old(self).window().put_char(
                character,
                frcolor@,
                bkcolor@,
                is_enable_window,
                old(self).actual_line_sum(),
            ),
            final(self).surface() == old(self).window().put_char_surface(
                old(self).surface(),
                font,
                character,
                frcolor@,
                bkcolor@,
                is_enable_window,
                old(self).actual_line_sum(),
            ),
            final(serial)@ == old(serial)@ + old(self).window().mirrored(character),
            done == old(self).window().put_char_result(character, is_enable_window),
            old(self).window().vlines_used - 1 <= final(self).window().vlines_used <= old(self).window().vlines_used + 8,
    {
        let current: usize = self.current_window;
        let actual_line: i32 = self.actual_line;
        assert(self.windows()[current as int].wf());
        self.window_list[current].textui_putchar_window(
            character,
            frcolor,
            bkcolor,
            is_enable_window,
            font,
            &mut self.metadata.buf_info,
            actual_line,
            serial,
        )
    }

    /// Whether this console differs from `other` in nothing but the window
    /// that is written to and what the framebuffer shows.
    pub open spec fn same_but_window(&self, other: TextUiFramework) -> bool {
        &&& self.windows().len() == other.windows().len()
        &&& self.current() == other.current()
        &&& self.default() == other.default()
        &&& self.actual_line_sum() == other.actual_line_sum()
        &&& self.kind() == other.kind()
        &&& self.surface().width == other.surface().width
        &&& self.surface().height == other.surface().height
        &&& self.surface().bit_depth == other.surface().bit_depth
        &&& forall|i: int|
            0 <= i < self.windows().len() && i != self.current() ==> #[trigger] self.windows()[i]
                == other.windows()[i]
    }

    /// Hands the characters of a text to the window that is written to, one
    /// after the other, up to the first that the window refuses.
    pub fn textui_putstr<M: GlyphMapping>(
        &mut self,
        string: &str,
        frcolor: FontColor,
        bkcolor: FontColor,
        is_enable_window: bool,
        font: &BitmapFont<M>,
        serial: &mut Vec<u8>,
    ) -> (done: Result<(), TextuiError>)
        requires
            old(self).wf(),
            i32::MIN + string@.len() <= old(self).window().vlines_used,
            old(self).window().vlines_used + 8 * string@.len() <= i32::MAX,
        ensures
            final(self).wf(),
            final(self).same_but_window(*old(self)),
            final(self).surface().same_size(old(self).surface()),
            final(self).window() == old(self).window().put_text(
                string@,
                0,
                frcolor@,
                bkcolor@,
                is_enable_window,
                old(self).actual_line_sum(),
            ),
            final(self).surface() == old(self).window().put_text_surface(
                old(self).surface(),
                font,
                string@,
                0,
                frcolor@,
                bkcolor@,
                is_enable_window,
                old(self).actual_line_sum(),
            ),
            final(serial)@ == old(serial)@ + old(self).window().put_text_serial(
                string@,
                0,
                frcolor@,
                bkcolor@,
                is_enable_window,
                old(self).actual_line_sum(),
            ),
            done == old(self).window().put_text_result(
                string@,
                0,
                frcolor@,
                bkcolor@,
                is_enable_window,
                old(self).actual_line_sum(),
            ),
    {
        let ghost before = *self;
        let ghost first = self.window();
        let ghost surface = self.surface();
        let ghost sent = serial@;
        let ghost text = string@;
        let ghost rows = self.actual_line_sum();
        for character in it: string.chars()
            invariant
                it.seq() == text,
                text == string@,
                before == *old(self),
                sent == old(serial)@,
                first == before.window(),
                surface == before.surface(),
                rows == before.actual_line_sum(),
                self.wf(),
                self.same_but_window(before),
                self.surface().same_size(surface),
                i32::MIN + text.len() <= first.vlines_used,
                first.vlines_used + 8 * text.len() <= i32::MAX,
                first.vlines_used - it.index() <= self.window().vlines_used <= first.vlines_used
                    + 8 * it.index(),
                self.window().put_text(
                    text,
                    it.index() as int,
                    frcolor@,
                    bkcolor@,
                    is_enable_window,
                    rows,
                ) == first.put_text(text, 0, frcolor@, bkcolor@, is_enable_window, rows),
                self.window().put_text_result(
                    text,
                    it.index() as int,
                    frcolor@,
                    bkcolor@,
                    is_enable_window,
                    rows,
                ) == first.put_text_result(text, 0, frcolor@, bkcolor@, is_enable_window, rows),
                self.window().put_text_surface(
                    self.surface(),
                    font,
                    text,
                    it.index() as int,
                    frcolor@,
                    bkcolor@,
                    is_enable_window,
                    rows,
                ) == first.put_text_surface(
                    surface,
                    font,
                    text,
                    0,
                    frcolor@,
                    bkcolor@,
                    is_enable_window,
                    rows,
                ),
                serial@ + self.window().put_text_serial(
                    text,
                    it.index() as int,
                    frcolor@,
                    bkcolor@,
                    is_enable_window,
                    rows,
                ) == sent + first.put_text_serial(
                    text,
                    0,
                    frcolor@,
                    bkcolor@,
                    is_enable_window,
                    rows,
                ),
        {
            let ghost at = it.index() as int;
            let ghost now = self.window();
            let ghost sent_now = serial@;
            assert(text[at] == character);
            let ghost surface_now = self.surface();
            let ghost refused = now.put_char_result(character, is_enable_window) is Err;
            let ghost next = now.put_char(character, frcolor@, bkcolor@, is_enable_window, rows);
            assert(now.put_text(text, at, frcolor@, bkcolor@, is_enable_window, rows) == (
            if refused {
                now
            } else {
                next.put_text(text, at + 1, frcolor@, bkcolor@, is_enable_window, rows)
            }));
            assert(now.put_text_result(text, at, frcolor@, bkcolor@, is_enable_window, rows) == (
            if refused {
                now.put_char_result(character, is_enable_window)
            } else {
                next.put_text_result(text, at + 1, frcolor@, bkcolor@, is_enable_window, rows)
            }));
            assert(now.put_text_surface(
                surface_now,
                font,
                text,
                at,
                frcolor@,
                bkcolor@,
                is_enable_window,
                rows,
            ) == (if refused {
                surface_now
            } else {
                next.put_text_surface(
                    now.put_char_surface(
                        surface_now,
                        font,
                        character,
                        frcolor@,
                        bkcolor@,
                        is_enable_window,
                        rows,
                    ),
                    font,
                    text,
                    at + 1,
                    frcolor@,
                    bkcolor@,
                    is_enable_window,
                    rows,
                )
            }));
            assert(now.put_text_serial(text, at, frcolor@, bkcolor@, is_enable_window, rows) == (
            if refused {
                now.mirrored(character)
            } else {
                now.mirrored(character) + next.put_text_serial(
                    text,
                    at + 1,
                    frcolor@,
                    bkcolor@,
                    is_enable_window,
                    rows,
                )
            }));
            proof {
                let rest = now.put_char(
                    character,
                    frcolor@,
                    bkcolor@,
                    is_enable_window,
                    rows,
                ).put_text_serial(text, at + 1, frcolor@, bkcolor@, is_enable_window, rows);
                assert(sent_now + (now.mirrored(character) + rest) =~= (sent_now + now.mirrored(
                    character,
                )) + rest);
                assert(sent_now + now.mirrored(character) + Seq::<u8>::empty() =~= sent_now
                    + now.mirrored(character));
            }
            self.textui_putchar(character, frcolor, bkcolor, is_enable_window, font, serial)?;
        }
        assert(serial@ + Seq::<u8>::empty() =~= serial@);
        Ok(())
    }
}

/// Everything of the console that lasts as long as the system runs: the
/// font, the region that the display reads, the console itself once it is
/// set up, the switch that keeps text off the screen, and the bytes that are
/// waiting to be sent to the serial line.
pub struct Textui<M: GlyphMapping> {
    framework: Option<TextUiFramework>,
    put_to_window: bool,
    font: BitmapFont<M>,
    device_buffer: ScmBufferInfo,
    early: EarlyCursor,
    serial: Vec<u8>,
    max_window_id: u32,
}

impl<M: GlyphMapping> Textui<M> {
    /// The console, once it is set up.
    pub closed spec fn framework(&self) -> Option<TextUiFramework> {
        self.framework
    }

    /// Whether the console is set up.
    pub open spec fn is_init(&self) -> bool {
        self.framework() is Some
    }

    /// Whether text is drawn on the screen, and not only sent to the serial
    /// line.
    pub closed spec fn put_to_window(&self) -> bool {
        self.put_to_window
    }

    /// The font that characters are drawn in.
    pub closed spec fn font(&self) -> &BitmapFont<M> {
        &self.font
    }

    /// What the region that the display reads shows.
    pub closed spec fn device_surface(&self) -> Surface {
        self.device_buffer@
    }

    /// The cursor of the time before the console is set up.
    pub closed spec fn early(&self) -> EarlyView {
        self.early@
    }

    /// The bytes waiting to be sent to the serial line.
    pub closed spec fn serial(&self) -> Seq<u8> {
        self.serial@
    }

    /// The number that the next window gets.
    pub closed spec fn max_window_id(&self) -> u32 {
        self.max_window_id
    }

    /// The region that the display reads can be drawn on, the early cursor
    /// stands on it, and the console, once set up, is in order.
    pub closed spec fn wf(&self) -> bool {
        &&& self.device_buffer.wf()
        &&& self.device_buffer.is_device_buffer()
        &&& self.early@.wf(self.device_buffer@)
        &&& self.framework matches Some(framework) ==> framework.wf()
    }

    /// What follows from [`Self::wf`] for the parts that can be seen.
    pub proof fn lemma_wf(&self)
        requires
            self.wf(),
        ensures
            self.device_surface().wf(),
            self.early().wf(self.device_surface()),
            self.framework() matches Some(framework) ==> framework.wf(),
    {
    }

    /// The state before the console is set up: text is kept off the screen,
    /// the early cursor is in the upper left corner, nothing is waiting for
    /// the serial line.
    pub fn new(font: BitmapFont<M>, device_buffer: ScmBufferInfo) -> (state: Self)
        requires
            device_buffer.wf(),
            device_buffer.is_device_buffer(),
        ensures
            state.wf(),
            !state.is_init(),
            !state.put_to_window(),
            *state.font() == font,
            state.device_surface() == device_buffer@,
            state.early() == (EarlyView { line: 0, index: 0 }),
            state.serial() == Seq::<u8>::empty(),
            state.max_window_id() == 0,
    {
        Textui {
            framework: None,
            put_to_window: false,
            font,
            device_buffer,
            early: EarlyCursor::new(),
            serial: Vec::new(),
            max_window_id: 0,
        }
    }

    /// The region that the display reads.
    pub fn device_buffer(&self) -> (device_buffer: &ScmBufferInfo)
        ensures
            device_buffer@ == self.device_surface(),
    {
        &self.device_buffer
    }

    /// The cursor of the time before the console is set up.
    pub fn early_cursor(&self) -> (cursor: EarlyCursor)
        ensures
            cursor@ == self.early(),
    {
        self.early
    }

    /// Hands out the bytes that are waiting for the serial line. None is
    /// waiting afterwards.
    pub fn take_serial(&mut self) -> (bytes: Vec<u8>)
        ensures
            bytes@ == old(self).serial(),
            final(self).serial() == Seq::<u8>::empty(),
            final(self).framework() == old(self).framework(),
            final(self).put_to_window() == old(self).put_to_window(),
            final(self).font() == old(self).font(),
            final(self).device_surface() == old(self).device_surface(),
            final(self).early() == old(self).early(),
            final(self).max_window_id() == old(self).max_window_id(),
            final(self).wf() == old(self).wf(),
    {
        let mut bytes: Vec<u8> = Vec::new();
        core::mem::swap(&mut self.serial, &mut bytes);
        bytes
    }

    /// The display framework tells the console that it was installed: a
    /// note goes to the serial line.
    pub fn install(&mut self) -> (done: Result<i32, TextuiError>)
        ensures
            done == Ok::<i32, TextuiError>(0),
            final(self).serial() == old(self).serial() + install_note(),
            final(self).framework() == old(self).framework(),
            final(self).put_to_window() == old(self).put_to_window(),
            final(self).font() == old(self).font(),
            final(self).device_surface() == old(self).device_surface(),
            final(self).early() == old(self).early(),
            final(self).wf() == old(self).wf(),
    {
        send_to_serial(&mut self.serial, "\ntextui_install_handler\n\0");
        Ok(0)
    }

    /// The display framework moves the console to another framebuffer. What
    /// the old framebuffer showed is copied to the new one, as far as both
    /// have memory; the windows stay as they are.
    pub fn change(&mut self, buf_info: ScmBufferInfo) -> (done: Result<i32, TextuiError>)
        requires
            old(self).wf(),
            old(self).is_init(),
            buf_info.wf(),
        ensures
            done == Ok::<i32, TextuiError>(0),
            final(self).wf(),
            final(self).put_to_window() == old(self).put_to_window(),
            final(self).serial() == old(self).serial(),
            final(self).font() == old(self).font(),
            final(self).device_surface() == old(self).device_surface(),
            final(self).early() == old(self).early(),
            final(self).max_window_id() == old(self).max_window_id(),
            final(self).framework() matches Some(after) && old(self).framework() matches Some(
                before,
            ) && after.windows() == before.windows() && after.current() == before.current()
                && after.default() == before.default() && after.actual_line_sum()
                == before.actual_line_sum() && after.surface().same_size(buf_info@) && forall|
                b: int,
            |
                0 <= b < buf_info@.bytes.len() ==> #[trigger] after.surface().bytes[b] == (if b
                    < before.surface().bytes.len() {
                    before.surface().bytes[b]
                } else {
                    buf_info@.bytes[b]
                }),
    {
        match &mut self.framework {
            Some(framework) => framework.change(buf_info),
            None => vstd::pervasive::unreached(),
        }
    }

    /// The metadata of the console.
    pub fn metadata(&self) -> (metadata: Result<&ScmUiFrameworkMetadata, TextuiError>)
        requires
            self.is_init(),
        ensures
            metadata matches Ok(m) && self.framework() matches Some(framework) && m.surface()
                == framework.surface() && m.kind() == framework.kind(),
    {
        match &self.framework {
            Some(framework) => framework.metadata(),
            None => vstd::pervasive::unreached(),
        }
    }

    /// The display framework tells the console that it was removed.
    pub fn uninstall(&self) -> (done: Result<i32, TextuiError>)
        ensures
            done == Ok::<i32, TextuiError>(0),
    {
        Ok(0)
    }

    /// The display framework switches the console on: text is drawn on the
    /// screen from now on.
    pub fn enable(&mut self) -> (done: Result<i32, TextuiError>)
        ensures
            done == Ok::<i32, TextuiError>(0),
            final(self).put_to_window(),
            final(self).framework() == old(self).framework(),
            final(self).serial() == old(self).serial(),
            final(self).font() == old(self).font(),
            final(self).device_surface() == old(self).device_surface(),
            final(self).early() == old(self).early(),
            final(self).wf() == old(self).wf(),
    {
        textui_enable_put_to_window(self);
        Ok(0)
    }

    /// The display framework switches the console off: text is only sent to
    /// the serial line from now on.
    pub fn disable(&mut self) -> (done: Result<i32, TextuiError>)
        ensures
            done == Ok::<i32, TextuiError>(0),
            !final(self).put_to_window(),
            final(self).framework() == old(self).framework(),
            final(self).serial() == old(self).serial(),
            final(self).font() == old(self).font(),
            final(self).device_surface() == old(self).device_surface(),
            final(self).early() == old(self).early(),
            final(self).wf() == old(self).wf(),
    {
        textui_disable_put_to_window(self);
        Ok(0)
    }
}

/// The bytes that a text is sent to the serial line as: the low byte of each
/// of its characters.
pub open spec fn low_bytes(text: Seq<char>) -> Seq<u8> {
    Seq::new(text.len(), |i: int| ((text[i] as u32) % 256) as u8)
}

/// The note that goes to the serial line when the console is installed.
pub open spec fn install_note() -> Seq<u8> {
    low_bytes("\ntextui_install_handler\n\0"@)
}

/// The note that goes to the serial line when the console is set up.
pub open spec fn init_note() -> Seq<u8> {
    low_bytes("\ntext ui initialized\n\0"@)
}

/// Adds the low bytes of a text to those waiting for the serial line.
fn send_to_serial(serial: &mut Vec<u8>, text: &str)
    ensures
        final(serial)@ == old(serial)@ + low_bytes(text@),
{
    let ghost sent = serial@;
    let len: usize = text.unicode_len();
    let mut at: usize = 0;
    while at < len
        invariant
            at <= len,
            len == text@.len(),
            serial@ == sent + Seq::new(at as nat, |i: int| ((text@[i] as u32) % 256) as u8),
        decreases len - at,
    {
        let c: char = text.get_char(at);
        serial.push(((c as u32) % 256) as u8);
        assert(serial@ =~= sent + Seq::new(
            (at + 1) as nat,
            |i: int| ((text@[i] as u32) % 256) as u8,
        ));
        at += 1;
    }
    assert(serial@ =~= sent + low_bytes(text@));
}

/// Switches drawing on the screen on.
pub fn textui_enable_put_to_window<M: GlyphMapping>(state: &mut Textui<M>)
    ensures
        final(state).put_to_window(),
        final(state).framework() == old(state).framework(),
        final(state).serial() == old(state).serial(),
        final(state).font() == old(state).font(),
        final(state).device_surface() == old(state).device_surface(),
        final(state).early() == old(state).early(),
        final(state).max_window_id() == old(state).max_window_id(),
        final(state).wf() == old(state).wf(),
{
    state.put_to_window = true;
}

/// Switches drawing on the screen off. Text still goes to the serial line.
pub fn textui_disable_put_to_window<M: GlyphMapping>(state: &mut Textui<M>)
    ensures
        !final(state).put_to_window(),
        final(state).framework() == old(state).framework(),
        final(state).serial() == old(state).serial(),
        final(state).font() == old(state).font(),
        final(state).device_surface() == old(state).device_surface(),
        final(state).early() == old(state).early(),
        final(state).max_window_id() == old(state).max_window_id(),
        final(state).wf() == old(state).wf(),
{
    state.put_to_window = false;
}

/// Whether text is drawn on the screen.
pub fn textui_is_enable_put_to_window<M: GlyphMapping>(state: &Textui<M>) -> (enabled: bool)
    ensures
        enabled == state.put_to_window(),
{
    state.put_to_window
}

/// The console, if it is set up.
pub fn textui_framework<M: GlyphMapping>(state: &Textui<M>) -> (framework: Option<
    &TextUiFramework,
>)
    ensures
        framework is Some == state.is_init(),
        framework matches Some(f) ==> state.framework() == Some(*f),
{
    state.framework.as_ref()
}

/// Sets the console up on the given framebuffer, with one window of colour
/// that fills the screen: as many lines as glyphs fit into the height, as
/// many columns as fit into the width. A note goes to the serial line.
///
/// Setting the console up a second time is a `DoubleInitialization`; a
/// framebuffer too small for a single cell is an `InvalidArgument`. Nothing
/// changes then.
fn textui_framwork_init<M: GlyphMapping>(
    state: &mut Textui<M>,
    metadata: ScmUiFrameworkMetadata,
) -> (done: Result<(), TextuiError>)
    requires
        old(state).wf(),
        metadata.wf(),
    ensures
        final(state).wf(),
        final(state).put_to_window() == old(state).put_to_window(),
        final(state).font() == old(state).font(),
        final(state).device_surface() == old(state).device_surface(),
        final(state).early() == old(state).early(),
        done == init_result(*old(state), metadata),
        done is Err ==> final(state).framework() == old(state).framework() && final(state).serial() == old(state).serial() && final(state).max_window_id() == old(state).max_window_id(),
        done is Ok ==> {
            &&& final(state).max_window_id() == (if old(state).max_window_id() == u32::MAX {
                0u32
            } else {
                (old(state).max_window_id() + 1) as u32
            })
            &&& final(state).serial() == old(state).serial() + init_note()
            &&& final(state).framework() matches Some(framework)
            &&& framework.surface() == metadata.surface()
            &&& framework.kind() == metadata.kind()
            &&& framework.windows().len() == 1
            &&& framework.current() == 0
            &&& framework.default() == 0
            &&& framework.actual_line_sum() == metadata.surface().height / 16
            &&& framework.window() == WindowView::fresh(
                old(state).max_window_id(),
                true,
                metadata.surface().height / 16,
                metadata.surface().width / 8,
            )
        },
{
    if state.framework.is_none() {
        let vlines_num: u32 = metadata.buf_info().height() / TEXTUI_CHAR_HEIGHT;
        let chars_num: u32 = metadata.buf_info().width() / TEXTUI_CHAR_WIDTH;
        if vlines_num < 1 || chars_num < 1 {
            return Err(TextuiError::InvalidArgument);
        }
        let id: WindowId = WindowId::new(&mut state.max_window_id);
        let initial_window: TextuiWindow = TextuiWindow::new(
            id,
            WindowFlag::chromatic(),
            vlines_num as i32,
            chars_num as i32,
        );
        let mut window_list: Vec<TextuiWindow> = Vec::new();
        window_list.push(initial_window);
        let framework: TextUiFramework = TextUiFramework::new(metadata, window_list, 0, 0);
        assert(framework.windows()[0].wf());
        state.framework = Some(framework);
        send_to_serial(&mut state.serial, "\ntext ui initialized\n\0");
        Ok(())
    } else {
        Err(TextuiError::DoubleInitialization)
    }
}

/// How setting the console up ends.
pub open spec fn init_result<M: GlyphMapping>(
    state: Textui<M>,
    metadata: ScmUiFrameworkMetadata,
) -> Result<(), TextuiError> {
    if state.is_init() {
        Err(TextuiError::DoubleInitialization)
    } else if metadata.surface().height / 16 < 1 || metadata.surface().width / 8 < 1 {
        Err(TextuiError::InvalidArgument)
    } else {
        Ok(())
    }
}

/// Sets the console up, once: see [`init_result`] for when it is refused.
/// The console then has one window of colour that fills the screen, which
/// is the window that is written to.
pub fn textui_init<M: GlyphMapping>(state: &mut Textui<M>, metadata: ScmUiFrameworkMetadata) -> (done:
    Result<i32, TextuiError>)
    requires
        old(state).wf(),
        metadata.wf(),
    ensures
        final(state).wf(),
        final(state).put_to_window() == old(state).put_to_window(),
        final(state).font() == old(state).font(),
        final(state).device_surface() == old(state).device_surface(),
        final(state).early() == old(state).early(),
        init_result(*old(state), metadata) matches Err(e) ==> done == Err::<i32, TextuiError>(e)
            && final(state).framework() == old(state).framework() && final(state).serial()
            == old(state).serial() && final(state).max_window_id() == old(state).max_window_id(),
        init_result(*old(state), metadata) is Ok ==> {
            &&& done == Ok::<i32, TextuiError>(0)
            &&& final(state).max_window_id() == (if old(state).max_window_id() == u32::MAX {
                0u32
            } else {
                (old(state).max_window_id() + 1) as u32
            })
            &&& final(state).serial() == old(state).serial() + init_note()
            &&& final(state).framework() matches Some(framework)
            &&& framework.surface() == metadata.surface()
            &&& framework.kind() == metadata.kind()
            &&& framework.windows().len() == 1
            &&& framework.current() == 0
            &&& framework.default() == 0
            &&& framework.actual_line_sum() == metadata.surface().height / 16
            &&& framework.window() == WindowView::fresh(
                old(state).max_window_id(),
                true,
                metadata.surface().height / 16,
                metadata.surface().width / 8,
            )
        },
{
    textui_framwork_init(state, metadata)?;
    Ok(0)
}

/// Writes a text to the console: to the window that is written to once the
/// console is set up, and straight onto the region that the display reads
/// before. Every character is sent to the serial line as well.
///
/// The text ends at the first character that the window refuses; what was
/// written before it stays.
pub fn textui_putstr<M: GlyphMapping>(
    state: &mut Textui<M>,
    string: &str,
    fr_color: FontColor,
    bk_color: FontColor,
) -> (done: Result<(), TextuiError>)
    requires
        old(state).wf(),
        old(state).framework() matches Some(framework) ==> i32::MIN + string@.len()
            <= framework.window().vlines_used && framework.window().vlines_used + 8
            * string@.len() <= i32::MAX,
    ensures
        final(state).wf(),
        final(state).put_to_window() == old(state).put_to_window(),
        final(state).font() == old(state).font(),
        final(state).max_window_id() == old(state).max_window_id(),
        final(state).is_init() == old(state).is_init(),
        old(state).framework() is None ==> {
            &&& done == Ok::<(), TextuiError>(())
            &&& final(state).early() == old(state).early().put_text(
                old(state).device_surface(),
                string@,
                0,
                old(state).put_to_window(),
            )
            &&& final(state).device_surface() == old(state).early().put_text_surface(
                old(state).device_surface(),
                old(state).font(),
                string@,
                0,
                fr_color@,
                bk_color@,
                old(state).put_to_window(),
            )
            &&& final(state).serial() == old(state).serial() + early_text_serial(string@, 0)
        },
        old(state).framework() matches Some(before) ==> {
            &&& final(state).early() == old(state).early()
            &&& final(state).device_surface() == old(state).device_surface()
            &&& final(state).framework() matches Some(after)
            &&& after.same_but_window(before)
            &&& after.window() == before.window().put_text(
                string@,
                0,
                fr_color@,
                bk_color@,
                old(state).put_to_window(),
                before.actual_line_sum(),
            )
            &&& after.surface() == before.window().put_text_surface(
                before.surface(),
                old(state).font(),
                string@,
                0,
                fr_color@,
                bk_color@,
                old(state).put_to_window(),
                before.actual_line_sum(),
            )
            &&& final(state).serial() == old(state).serial() + before.window().put_text_serial(
                string@,
                0,
                fr_color@,
                bk_color@,
                old(state).put_to_window(),
                before.actual_line_sum(),
            )
            &&& done == before.window().put_text_result(
                string@,
                0,
                fr_color@,
                bk_color@,
                old(state).put_to_window(),
                before.actual_line_sum(),
            )
        },
{
    let is_enable_window: bool = textui_is_enable_put_to_window(state);
    match &mut state.framework {
        Some(framework) => framework.textui_putstr(
            string,
            fr_color,
            bk_color,
            is_enable_window,
            &state.font,
            &mut state.serial,
        ),
        None => state.early.no_init_textui_putstr(
            string,
            fr_color,
            bk_color,
            is_enable_window,
            &state.font,
            &mut state.device_buffer,
            &mut state.serial,
        ),
    }
}

} // verus!
