//! The ways in which a console operation can fail.

use vstd::prelude::*;

verus! {

/// Why a console operation was refused.
#[derive(Clone, Copy, Debug, PartialEq, Eq, Structural)]
pub enum TextuiError {
    /// A line number or a column lies outside the window, or a request to
    /// redraw names cells that the line does not have.
    InvalidArgument,
    /// The window shows plain text without colour, or the framebuffer has a
    /// colour depth other than 16, 24 or 32 bits.
    Unsupported,
    /// The console was already set up.
    DoubleInitialization,
}

} // verus!
