use vstd::prelude::*;

verus! {

/// A key press, as the dispatcher sees it.
#[derive(Debug, Clone, Copy, PartialEq, Eq, Structural)]
pub enum Key {
    Char(char),
    Enter,
    Esc,
    Backspace,
    Up,
    Down,
    Other,
}

/// What the event loop is to do after a key has been handled.
#[derive(Debug, Clone, Copy, PartialEq, Eq, Structural)]
pub enum Action {
    /// Render and wait for the next key.
    Continue,
    /// Leave the event loop.
    Quit,
    /// Execute the request at this index, then hand the outcome back.
    Send(usize),
}

} // verus!
