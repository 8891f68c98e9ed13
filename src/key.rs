use vstd::prelude::*;

verus! {

/// A key press, as far as the session reads it.
#[derive(Debug, Clone, Copy, PartialEq, Eq, Structural)]
pub enum Key {
    Char(char),
    Tab,
    Enter,
    Esc,
    /// Any other key: it counts as a press and does nothing else.
    Other,
}

} // verus!
