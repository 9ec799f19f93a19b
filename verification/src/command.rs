use vstd::prelude::*;

verus! {

/// An edit or navigation request addressed to a document.
///
/// This is the whole set: a document understands no other request.
#[derive(Debug, Clone, Copy, PartialEq, Eq, Structural)]
pub enum Command {
    /// Move the cursor to the start of the next row.
    NewLine,
    /// Blank the cell before the cursor and step back onto it.
    BackSpace,
    /// Step one column left, wrapping within the row.
    Left,
    /// Step one column right, wrapping within the row.
    Right,
    /// Step one row up, stopping at the first row.
    Up,
    /// Step one row down, stopping at the last row.
    Down,
}

} // verus!
