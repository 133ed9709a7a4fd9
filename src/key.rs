use vstd::prelude::*;

verus! {

/// One logical input event, as produced by the decoder from raw input.
#[derive(Clone, Copy, Debug, PartialEq, Eq, Structural)]
pub enum Key {
    /// An unrecognised or incomplete input: it changes nothing.
    NA,
    /// Insert the character at the cursor.
    Char(char),
    /// Submit the line.
    Enter,
    /// Delete the character before the cursor.
    Backspace,
    /// Recall an older history entry.
    ArrowUp,
    /// Recall a newer history entry, or go back to the line being written.
    ArrowDown,
    /// Move the cursor one character to the right.
    ArrowRight,
    /// Move the cursor one character to the left.
    ArrowLeft,
    /// Delete the word before the cursor.
    CtrlBackspace,
    /// Move the cursor to the next space, or to the end.
    CtrlArrowRight,
    /// Move the cursor to the previous space, or to the start.
    CtrlArrowLeft,
}

} // verus!
