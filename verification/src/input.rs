//! From key presses to the actions that drive the game.

use vstd::prelude::*;

verus! {

/// How long one poll of the keyboard waits for a key, in milliseconds. A poll
/// that runs out is a tick, so this is the pace of the game.
pub const POLL_MILLIS: u64 = 300;

/// The keys the game tells apart. Every key that has no meaning in the game is `Other`.
#[derive(Clone, Copy, Debug, PartialEq, Eq, Structural)]
pub enum Key {
    Char(char),
    Up,
    Down,
    Left,
    Right,
    Other,
}

/// One key press: the key, and the modifier keys held with it as a bit set
/// (shift, control, alt, ...). `modifiers` is zero when no modifier was held.
#[derive(Clone, Copy, Debug, PartialEq, Eq, Structural)]
pub struct KeyPress {
    pub key: Key,
    pub modifiers: u8,
}

/// What the player asks of the game in one iteration of its loop.
#[derive(Clone, Copy, Debug, PartialEq, Eq, Structural)]
pub enum Action {
    /// Nothing was asked: no key arrived in time, or one without a meaning.
    Tick,
    Quit,
    StartGame,
    Restart,
    MoveUp,
    MoveDown,
    MoveLeft,
    MoveRight,
}

/// The key bindings: the action bound to a key pressed without modifiers.
pub open spec fn binding(key: Key) -> Action {
    match key {
        Key::Char(c) => if c == ' ' {
            Action::StartGame
        } else if c == 'q' {
            Action::Quit
        } else if c == 'y' {
            Action::Restart
        } else if c == 'k' {
            Action::MoveUp
        } else if c == 'j' {
            Action::MoveDown
        } else if c == 'h' {
            Action::MoveLeft
        } else if c == 'l' {
            Action::MoveRight
        } else {
            Action::Tick
        },
        Key::Up => Action::MoveUp,
        Key::Down => Action::MoveDown,
        Key::Left => Action::MoveLeft,
        Key::Right => Action::MoveRight,
        Key::Other => Action::Tick,
    }
}

/// The action that an input event stands for. `None` is a poll that timed out
/// or brought something other than a key press. A key held together with any
/// modifier has no meaning and counts as a tick.
pub open spec fn action_of(event: Option<KeyPress>) -> Action {
    match event {
        Some(press) => if press.modifiers == 0 {
            binding(press.key)
        } else {
            Action::Tick
        },
        None => Action::Tick,
    }
}

/// Reads actions off input events.
#[derive(Clone, Copy, Debug)]
pub struct Reader;

impl Reader {
    /// Turns what one poll of the keyboard brought into an action.
    pub fn read_key(&self, event: Option<KeyPress>) -> (action: Action)
        ensures
            action == action_of(event),
    {
        if let Some(press) = event {
            if press.modifiers != 0 {
                return Action::Tick;
            }
            return match press.key {
                Key::Char(' ') => Action::StartGame,
                Key::Char('q') => Action::Quit,
                Key::Char('y') => Action::Restart,
                Key::Char('k') => Action::MoveUp,
                Key::Up => Action::MoveUp,
                Key::Char('j') => Action::MoveDown,
                Key::Down => Action::MoveDown,
                Key::Char('h') => Action::MoveLeft,
                Key::Left => Action::MoveLeft,
                Key::Char('l') => Action::MoveRight,
                Key::Right => Action::MoveRight,
                _ => Action::Tick,
            };
        }
        Action::Tick
    }
}

} // verus!
