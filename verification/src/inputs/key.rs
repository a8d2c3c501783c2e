//! Key-chords: single keystrokes, possibly with a modifier, used as lookup keys.

use vstd::prelude::*;

verus! {

/// A single recognized keystroke.
#[derive(Clone, Copy, Debug, PartialEq, Eq, Structural, Hash)]
pub enum Key {
    /// A character typed without a control or alt modifier.
    Char(char),
    /// A character typed while control is held.
    Ctrl(char),
    /// A character typed while alt is held.
    Alt(char),
    /// Any keystroke that carries no character.
    Unknown,
}

/// What a terminal reports of one key press, as plain values.
#[derive(Clone, Copy, Debug, PartialEq, Eq, Structural)]
pub struct KeyPress {
    /// The character of the key, if it has one.
    pub character: Option<char>,
    /// Whether shift was held.
    pub shift: bool,
    /// Whether control was held.
    pub control: bool,
    /// Whether alt was held.
    pub alt: bool,
}

/// The key-chord that a key press denotes.
///
/// A character with alt alone is an alt chord, with control alone a control
/// chord, and with any other combination of modifiers a plain character.
pub open spec fn chord_of(press: KeyPress) -> Key {
    match press.character {
        None => Key::Unknown,
        Some(c) => if press.alt && !press.control && !press.shift {
            Key::Alt(c)
        } else if press.control && !press.alt && !press.shift {
            Key::Ctrl(c)
        } else {
            Key::Char(c)
        },
    }
}

impl Key {
    /// Turns a key press into its key-chord.
    pub fn from_press(press: KeyPress) -> (key: Key)
        ensures
            key == chord_of(press),
    {
        match press.character {
            None => Key::Unknown,
            Some(c) => {
                if press.alt && !press.control && !press.shift {
                    Key::Alt(c)
                } else if press.control && !press.alt && !press.shift {
                    Key::Ctrl(c)
                } else {
                    Key::Char(c)
                }
            },
        }
    }
}

} // verus!
