//! Key presses, as the editor understands them.

use vstd::prelude::*;

verus! {

/// One key press.
#[derive(Clone, Copy, Debug, PartialEq, Eq)]
pub enum Key {
    /// A character key.
    Char(char),
    Enter,
    Backspace,
    Esc,
    Left,
    Right,
    Up,
    Down,
    /// Any key the editor has no use for.
    Other,
}

} // verus!
