use vstd::prelude::*;

verus! {

/// A key press, as far as the application tells keys apart.
#[derive(Debug, Clone, Copy, PartialEq, Eq, Structural)]
pub enum Key {
    Char(char),
    Left,
    Right,
    Enter,
    Tab,
    Backspace,
    /// Any key that no screen gives a meaning.
    Other,
}

} // verus!
