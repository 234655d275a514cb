//! Character displays.

use vstd::prelude::*;
use crate::kernel::errorcode::ErrorCode;

verus! {

/// What the client of a display is told.
pub enum ScreenEvent {
    /// A command is done, with its outcome.
    CommandComplete(Result<(), ErrorCode>),
    /// A print is done: the buffer comes back, with the number of bytes
    /// printed and the outcome.
    WriteComplete(Vec<u8>, usize, Result<(), ErrorCode>),
}

/// What a display is asked for, but for a print.
#[derive(Clone, Copy, Debug, PartialEq, Eq, Structural)]
pub enum Request {
    DisplayOn,
    DisplayOff,
    BlinkOn,
    BlinkOff,
    ShowCursor,
    HideCursor,
    /// The cursor is to go to this column of this row.
    SetCursor(usize, usize),
    Clear,
}

/// A display of lines of characters with a cursor. A refused print hands
/// the buffer back.
pub trait TextScreen {
    /// The display is in a state in which it can be asked.
    spec fn ready(&self) -> bool;

    /// What the request `request`, answered with `r`, has made of the
    /// display that was `before`.
    spec fn asked(&self, before: &Self, request: Request, r: Result<(), ErrorCode>) -> bool;

    /// What a request to print `len` bytes of `buffer`, answered with `r`,
    /// has made of the display that was `before`.
    spec fn print_asked(
        &self,
        before: &Self,
        buffer: Vec<u8>,
        len: usize,
        r: Result<(), (ErrorCode, Vec<u8>)>,
    ) -> bool;

    /// Columns and rows of the display.
    spec fn size(&self) -> (usize, usize);

    /// Columns and rows of the display.
    fn get_size(&self) -> (r: (usize, usize))
        ensures
            r == self.size(),
    ;

    /// Prints `len` bytes of `buffer` at the cursor.
    fn print(&mut self, buffer: Vec<u8>, len: usize) -> (r: Result<(), (ErrorCode, Vec<u8>)>)
        requires
            old(self).ready(),
        ensures
            final(self).ready(),
            final(self).print_asked(old(self), buffer, len, r),
            r matches Err((_, b)) ==> b@.len() == buffer@.len(),
    ;

    /// Moves the cursor to column `x_position` of row `y_position`.
    fn set_cursor(&mut self, x_position: usize, y_position: usize) -> (r: Result<(), ErrorCode>)
        requires
            old(self).ready(),
        ensures
            final(self).ready(),
            final(self).asked(old(self), Request::SetCursor(x_position, y_position), r),
    ;

    /// Hides the cursor.
    fn hide_cursor(&mut self) -> (r: Result<(), ErrorCode>)
        requires
            old(self).ready(),
        ensures
            final(self).ready(),
            final(self).asked(old(self), Request::HideCursor, r),
    ;

    /// Shows the cursor.
    fn show_cursor(&mut self) -> (r: Result<(), ErrorCode>)
        requires
            old(self).ready(),
        ensures
            final(self).ready(),
            final(self).asked(old(self), Request::ShowCursor, r),
    ;

    /// Makes the cursor blink.
    fn blink_cursor_on(&mut self) -> (r: Result<(), ErrorCode>)
        requires
            old(self).ready(),
        ensures
            final(self).ready(),
            final(self).asked(old(self), Request::BlinkOn, r),
    ;

    /// Stops the blinking of the cursor.
    fn blink_cursor_off(&mut self) -> (r: Result<(), ErrorCode>)
        requires
            old(self).ready(),
        ensures
            final(self).ready(),
            final(self).asked(old(self), Request::BlinkOff, r),
    ;

    /// Switches the display on.
    fn display_on(&mut self) -> (r: Result<(), ErrorCode>)
        requires
            old(self).ready(),
        ensures
            final(self).ready(),
            final(self).asked(old(self), Request::DisplayOn, r),
    ;

    /// Switches the display off.
    fn display_off(&mut self) -> (r: Result<(), ErrorCode>)
        requires
            old(self).ready(),
        ensures
            final(self).ready(),
            final(self).asked(old(self), Request::DisplayOff, r),
    ;

    /// Clears the display.
    fn clear(&mut self) -> (r: Result<(), ErrorCode>)
        requires
            old(self).ready(),
        ensures
            final(self).ready(),
            final(self).asked(old(self), Request::Clear, r),
    ;
}

} // verus!
