//! The keyboard events the dashboard reacts to.
//!
//! The terminal input source (outside this crate) hands the dispatcher one
//! key event at a time: a key code and a press/release kind. Only press
//! events are acted on.

use vstd::prelude::*;

verus! {

/// A key code, as reported by the terminal input source.
///
/// Codes the state machines do not interpret are mapped to `Other` by the
/// caller that reads the terminal.
#[derive(Clone, Copy, PartialEq, Eq, Structural, Debug)]
pub enum KeyCode {
    /// A printable character key.
    Char(char),
    /// The up arrow.
    Up,
    /// The down arrow.
    Down,
    /// The Enter key.
    Enter,
    /// The Escape key.
    Esc,
    /// The Backspace key.
    Backspace,
    /// The Delete key.
    Delete,
    /// The Insert key.
    Insert,
    /// Any other key.
    Other,
}

/// Whether a key event is a press or a release.
#[derive(Clone, Copy, PartialEq, Eq, Structural, Debug)]
pub enum KeyEventKind {
    /// The key was pressed.
    Press,
    /// The key was released (or repeated); ignored by the dispatcher.
    Release,
}

/// One keyboard event from the terminal input source.
#[derive(Clone, Copy, PartialEq, Eq, Structural, Debug)]
pub struct KeyEvent {
    /// The key that the event is about.
    pub code: KeyCode,
    /// Whether this is a press or a release.
    pub kind: KeyEventKind,
}

impl KeyEvent {
    /// A press of the given key.
    pub fn press(code: KeyCode) -> (ev: KeyEvent)
        ensures
            ev.code == code,
            ev.kind == KeyEventKind::Press,
    {
        KeyEvent { code, kind: KeyEventKind::Press }
    }
}

} // verus!
