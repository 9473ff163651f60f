//! Local input: the keys the session core reacts to, and the two answers
//! of the line-based prompt.

use vstd::prelude::*;
use crate::text::{trim, trimmed};

verus! {

/// What a key stands for.
#[derive(Clone, Copy, Debug, PartialEq, Eq, Structural)]
pub enum KeyCode {
    /// A character key.
    Char(char),
    /// The submit / confirm key.
    Enter,
    /// The cancel / quit key.
    Esc,
    /// The field-switch key.
    Tab,
    /// The backward-delete key.
    Backspace,
    /// Any key the core gives no meaning to.
    Other,
}

/// Whether a key went down, is held, or came up.
#[derive(Clone, Copy, Debug, PartialEq, Eq, Structural)]
pub enum KeyEventKind {
    Press,
    Repeat,
    Release,
}

/// One key event of the terminal.
#[derive(Clone, Copy, Debug, PartialEq, Eq, Structural)]
pub struct KeyEvent {
    pub code: KeyCode,
    pub kind: KeyEventKind,
}

/// One event of the terminal.
#[derive(Clone, Copy, Debug, PartialEq, Eq, Structural)]
pub enum InputEvent {
    /// A key event.
    Key(KeyEvent),
    /// Anything else: a resize, the mouse, focus, paste.
    Other,
}

/// The key that `event` presses, if it is a key press.
pub open spec fn pressed(event: InputEvent) -> Option<KeyCode> {
    match event {
        InputEvent::Key(key) => if key.kind == KeyEventKind::Press {
            Some(key.code)
        } else {
            None
        },
        InputEvent::Other => None,
    }
}

impl KeyEvent {
    /// A press of `code`.
    pub fn press(code: KeyCode) -> (event: KeyEvent)
        ensures
            event == (KeyEvent { code, kind: KeyEventKind::Press }),
    {
        KeyEvent { code, kind: KeyEventKind::Press }
    }
}

impl InputEvent {
    /// The key that this event presses, if it is a key press.
    pub fn pressed_key(&self) -> (key: Option<KeyCode>)
        ensures
            key == pressed(*self),
    {
        match self {
            InputEvent::Key(key) => match key.kind {
                KeyEventKind::Press => Some(key.code),
                _ => None,
            },
            InputEvent::Other => None,
        }
    }
}

/// Turns the two lines typed at the prompt into the username and the room:
/// each line without the white space around it.
pub fn handle_input(username_line: &str, room_line: &str) -> (answers: (String, String))
    ensures
        answers.0@ == trimmed(username_line@),
        answers.1@ == trimmed(room_line@),
{
    let username = trim(username_line);
    let room = trim(room_line);
    (username, room)
}

} // verus!
