//! Raw key events and their canonicalization into logical chords.

use vstd::prelude::*;

verus! {

/// A raw key event: the base key pressed, together with an optional control
/// modifier. `Other` stands for any key outside the set below; no command
/// table recognizes such a key, so they are interchangeable to dispatch.
#[derive(Clone, Copy, Debug, PartialEq, Eq, Structural)]
pub enum KeyEvent {
    Char(char),
    Ctrl(char),
    Up,
    Down,
    Left,
    Right,
    Backspace,
    Esc,
    Other,
}

/// The logical identity of a key event. Several raw events (synonyms) may
/// denote the same chord, and one chord may map to different actions in
/// different modes. A raw event outside every synonym group keeps its own
/// identity under `Unrecognized`.
#[derive(Clone, Copy, Debug, PartialEq, Eq, Structural)]
pub enum Chord {
    Quit,
    MoveRight,
    MoveLeft,
    MoveDown,
    MoveUp,
    ZoomIn,
    ZoomOut,
    ResetZoom,
    Confirm,
    Cancel,
    DeleteRequest,
    Affirmative,
    Negative,
    Unrecognized(KeyEvent),
}

/// The chord a raw key event denotes. Canonicalization is mode-independent:
/// the same raw input always denotes the same chord.
pub open spec fn chord_of(k: KeyEvent) -> Chord {
    match k {
        KeyEvent::Char(c) => if c == 'q' {
            Chord::Quit
        } else if c == 'l' {
            Chord::MoveRight
        } else if c == 'h' {
            Chord::MoveLeft
        } else if c == 'j' {
            Chord::MoveDown
        } else if c == 'k' {
            Chord::MoveUp
        } else if c == '+' {
            Chord::ZoomIn
        } else if c == '-' {
            Chord::ZoomOut
        } else if c == '0' {
            Chord::ResetZoom
        } else if c == '\n' {
            Chord::Confirm
        } else if c == 'y' {
            Chord::Affirmative
        } else if c == 'n' {
            Chord::Negative
        } else {
            Chord::Unrecognized(k)
        },
        KeyEvent::Ctrl(c) => if c == 'c' {
            Chord::Quit
        } else if c == 'f' {
            Chord::MoveRight
        } else if c == 'b' {
            Chord::MoveLeft
        } else if c == 'n' {
            Chord::MoveDown
        } else if c == 'p' {
            Chord::MoveUp
        } else {
            Chord::Unrecognized(k)
        },
        KeyEvent::Right => Chord::MoveRight,
        KeyEvent::Left => Chord::MoveLeft,
        KeyEvent::Down => Chord::MoveDown,
        KeyEvent::Up => Chord::MoveUp,
        KeyEvent::Backspace => Chord::DeleteRequest,
        KeyEvent::Esc => Chord::Cancel,
        KeyEvent::Other => Chord::Unrecognized(k),
    }
}

/// Canonicalizes a raw key event into the logical chord it denotes.
pub fn normalize(k: KeyEvent) -> (c: Chord)
    ensures
        c == chord_of(k),
{
    match k {
        KeyEvent::Char(c) => if c == 'q' {
            Chord::Quit
        } else if c == 'l' {
            Chord::MoveRight
        } else if c == 'h' {
            Chord::MoveLeft
        } else if c == 'j' {
            Chord::MoveDown
        } else if c == 'k' {
            Chord::MoveUp
        } else if c == '+' {
            Chord::ZoomIn
        } else if c == '-' {
            Chord::ZoomOut
        } else if c == '0' {
            Chord::ResetZoom
        } else if c == '\n' {
            Chord::Confirm
        } else if c == 'y' {
            Chord::Affirmative
        } else if c == 'n' {
            Chord::Negative
        } else {
            Chord::Unrecognized(k)
        },
        KeyEvent::Ctrl(c) => if c == 'c' {
            Chord::Quit
        } else if c == 'f' {
            Chord::MoveRight
        } else if c == 'b' {
            Chord::MoveLeft
        } else if c == 'n' {
            Chord::MoveDown
        } else if c == 'p' {
            Chord::MoveUp
        } else {
            Chord::Unrecognized(k)
        },
        KeyEvent::Right => Chord::MoveRight,
        KeyEvent::Left => Chord::MoveLeft,
        KeyEvent::Down => Chord::MoveDown,
        KeyEvent::Up => Chord::MoveUp,
        KeyEvent::Backspace => Chord::DeleteRequest,
        KeyEvent::Esc => Chord::Cancel,
        KeyEvent::Other => Chord::Unrecognized(k),
    }
}

} // verus!
