//! Keys, as plain values: what a front end reports of its keyboard.

use vstd::prelude::*;
use crate::command::Command;

verus! {

/// Which key was pressed. Only the keys that the game reacts to are told
/// apart.
#[derive(Clone, Copy, Debug, PartialEq, Eq, Structural)]
pub enum Key {
    /// A key that types a character.
    Char(char),
    /// The escape key.
    Esc,
    /// The arrow that points up.
    Up,
    /// The arrow that points down.
    Down,
    /// Any other key.
    Other,
}

/// The modifier keys that were held down while a key was pressed.
#[derive(Clone, Copy, Debug, PartialEq, Eq, Structural)]
pub struct Modifiers {
    pub shift: bool,
    pub control: bool,
    pub alt: bool,
    /// Whether any modifier but the three above was held.
    pub other: bool,
}

impl Modifiers {
    /// No modifier at all.
    pub fn none() -> (modifiers: Modifiers)
        ensures
            modifiers == (Modifiers { shift: false, control: false, alt: false, other: false }),
    {
        Modifiers { shift: false, control: false, alt: false, other: false }
    }

    /// The control key and nothing else.
    pub fn control() -> (modifiers: Modifiers)
        ensures
            modifiers == (Modifiers { shift: false, control: true, alt: false, other: false }),
            modifiers.only_control(),
    {
        Modifiers { shift: false, control: true, alt: false, other: false }
    }

    /// Whether the control key was held and no other modifier with it.
    pub open spec fn only_control(self) -> bool {
        self.control && !self.shift && !self.alt && !self.other
    }

    /// Whether the control key was held and no other modifier with it.
    pub fn is_only_control(&self) -> (only: bool)
        ensures
            only == self.only_control(),
    {
        self.control && !self.shift && !self.alt && !self.other
    }
}

/// One key press.
#[derive(Clone, Copy, Debug, PartialEq, Eq, Structural)]
pub struct KeyPress {
    pub code: Key,
    pub modifiers: Modifiers,
}

impl KeyPress {
    /// The key `code`, pressed with the given modifiers.
    pub fn new(code: Key, modifiers: Modifiers) -> (press: KeyPress)
        ensures
            press.code == code,
            press.modifiers == modifiers,
    {
        KeyPress { code, modifiers }
    }

    /// Whether the key types the letter that `lower` is the small form of, in
    /// either case.
    pub open spec fn types_letter(self, lower: char, upper: char) -> bool {
        self.code == Key::Char(lower) || self.code == Key::Char(upper)
    }

    /// Whether the press asks to end the session: `q`, `Q` and escape do, with
    /// any modifiers, and so do `c` and `C` with the control key alone.
    pub open spec fn quits(self) -> bool {
        ||| self.types_letter('q', 'Q')
        ||| self.code == Key::Esc
        ||| self.types_letter('c', 'C') && self.modifiers.only_control()
    }

    /// The command that the press stands for, if any: the arrows move the
    /// paddle, the keys of [`KeyPress::quits`] end the session, and every
    /// other press means nothing.
    pub open spec fn command(self) -> Option<Command> {
        if self.quits() {
            Some(Command::Quit)
        } else if self.code == Key::Up {
            Some(Command::Up)
        } else if self.code == Key::Down {
            Some(Command::Down)
        } else {
            None
        }
    }
}

/// The command in what the keyboard delivered within the waiting time:
/// nothing, or a key press.
pub open spec fn command_for(key_event: Option<KeyPress>) -> Option<Command> {
    match key_event {
        Some(press) => press.command(),
        None => None,
    }
}

} // verus!
