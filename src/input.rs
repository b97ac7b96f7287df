//! Keys, the intents they stand for, and what the core asks of the
//! presentation layer in return.
use vstd::prelude::*;

verus! {

/// A key press, as far as the core tells keys apart.
#[derive(PartialEq, Eq, Structural, Clone, Copy, Debug)]
pub enum Key {
    ArrowUp,
    ArrowDown,
    Enter,
    Escape,
    Character(char),
    Other,
}

/// What a key press asks the core to do.
#[derive(PartialEq, Eq, Structural, Clone, Copy, Debug)]
pub enum Intent {
    MoveUp,
    MoveDown,
    BeginEdit,
    /// Commits the edit in progress, or appends a new item when idle.
    Confirm,
    Exit,
    Ignore,
}

/// A request from the core to the presentation layer, which it carries out on
/// its own time.
#[derive(PartialEq, Eq, Structural, Clone, Copy, Debug)]
pub enum Directive {
    Nothing,
    /// Move input focus to the edit field of the item at this position.
    FocusField(usize),
    CloseWindow,
}

/// The key bindings.
pub open spec fn key_intent(key: Key) -> Intent {
    match key {
        Key::ArrowUp => Intent::MoveUp,
        Key::Character('k') => Intent::MoveUp,
        Key::ArrowDown => Intent::MoveDown,
        Key::Character('j') => Intent::MoveDown,
        Key::Character('i') => Intent::BeginEdit,
        Key::Enter => Intent::Confirm,
        Key::Escape => Intent::Exit,
        _ => Intent::Ignore,
    }
}

impl Intent {
    /// The intent bound to `key`.
    pub fn of(key: Key) -> (r: Intent)
        ensures
            r == key_intent(key),
    {
        match key {
            Key::ArrowUp => Intent::MoveUp,
            Key::ArrowDown => Intent::MoveDown,
            Key::Enter => Intent::Confirm,
            Key::Escape => Intent::Exit,
            Key::Character(c) => {
                if c == 'k' {
                    Intent::MoveUp
                } else if c == 'j' {
                    Intent::MoveDown
                } else if c == 'i' {
                    Intent::BeginEdit
                } else {
                    Intent::Ignore
                }
            },
            Key::Other => Intent::Ignore,
        }
    }
}

} // verus!
