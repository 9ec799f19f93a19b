use vstd::prelude::*;

verus! {

/// The keys that the editor tells apart when they arrive undecoded.
#[derive(Debug, Clone, Copy, PartialEq, Eq, Structural)]
pub enum KeyCode {
    Return,
    ArrowLeft,
    ArrowRight,
    ArrowUp,
    ArrowDown,
    F1,
    F2,
    F3,
    F4,
    /// Any key that the editor has no use for.
    Other,
}

/// One event from the keyboard: either a key that stands for no character,
/// or the character that a key press resolved to.
#[derive(Debug, Clone, Copy, PartialEq, Eq, Structural)]
pub enum DecodedKey {
    RawKey(KeyCode),
    Unicode(char),
}

} // verus!
