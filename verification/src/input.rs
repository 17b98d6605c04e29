//! What the terminal reports, reduced to what a session listens to.

use vstd::prelude::*;

verus! {

/// The key of a key event.
#[derive(Clone, Copy, Debug, PartialEq, Eq, Structural)]
pub enum KeyCode {
    /// The key that deletes backwards.
    Backspace,
    /// The return key.
    Enter,
    /// The tabulator key.
    Tab,
    /// A key that stands for a character.
    Char(char),
    /// Any other key: arrows, function keys, escape and the like.
    Other,
}

/// What happened to the key.
#[derive(Clone, Copy, Debug, PartialEq, Eq, Structural)]
pub enum KeyEventKind {
    /// It went down.
    Press,
    /// It is held down and repeats.
    Repeat,
    /// It came up.
    Release,
}

/// One key event.
#[derive(Clone, Copy, Debug, PartialEq, Eq, Structural)]
pub struct KeyEvent {
    pub code: KeyCode,
    pub kind: KeyEventKind,
}

/// One event of the terminal.
#[derive(Clone, Copy, Debug, PartialEq, Eq, Structural)]
pub enum Event {
    /// A key event.
    Key(KeyEvent),
    /// Anything else: a resize, the mouse, focus, pasted text.
    Other,
}

/// The key that ends the session from browse mode.
pub const QUIT_KEY: char = 'q';

/// Longest wait for an event before the screen is drawn again, in milliseconds.
pub const POLL_TIMEOUT_MS: u64 = 16;

} // verus!
