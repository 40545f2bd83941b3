//! The regions of the screen that a clear operation can erase.

use vstd::prelude::*;

verus! {

/// Which part of the terminal's display buffer a clear operation erases.
#[derive(Clone, Copy, Debug, PartialEq, Eq, Structural)]
pub enum ClearType {
    /// Every cell.
    All,
    /// The cell under the cursor and everything after it.
    FromCursorDown,
    /// Everything before the cursor and the cell under it.
    FromCursorUp,
    /// The whole line that the cursor is on.
    CurrentLine,
    /// From the cursor to the end of its line.
    UntilNewLine,
}

} // verus!
