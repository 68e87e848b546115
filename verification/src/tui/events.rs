//! The keys of the terminal interface and the actions they stand for.

use vstd::prelude::*;

verus! {

/// A key as the interface reads it.
#[derive(Debug, Clone, Copy, PartialEq, Eq, Structural)]
pub enum Key {
    Char(char),
    Esc,
    Enter,
    Up,
    Down,
    Home,
    End,
    Delete,
    Backspace,
    /// Any other key.
    Other,
}

/// A key press, with whether Control was held.
#[derive(Debug, Clone, Copy, PartialEq, Eq, Structural)]
pub struct KeyPress {
    pub key: Key,
    pub control: bool,
}

/// What a key asks the interface to do.
#[derive(Debug, Clone, Copy, PartialEq, Eq, Structural)]
pub enum Action {
    Quit,
    AddUrl,
    Search,
    Help,
    Settings,
    MoveDown,
    MoveUp,
    MoveFirst,
    MoveLast,
    Confirm,
    Delete,
    Pause,
    Cancel,
    CopyUrl,
}

/// The action of a key press: `q`, Esc and Ctrl-C quit; `a` adds a URL;
/// `/` and Ctrl-F search; `y` copies the selected URL; `h` and `?` show help; `s` the settings; `j`/Down, `k`/Up,
/// `g`/Home and `G`/End move; Enter confirms; `d`/Delete deletes; `p`
/// pauses; `c` cancels; other keys do nothing.
pub open spec fn action_of(k: KeyPress) -> Option<Action> {
    match k.key {
        Key::Char('q') | Key::Esc => Some(Action::Quit),
        Key::Char('c') => if k.control { Some(Action::Quit) } else { Some(Action::Cancel) },
        Key::Char('a') => Some(Action::AddUrl),
        Key::Char('/') => Some(Action::Search),
        Key::Char('f') => if k.control { Some(Action::Search) } else { None },
        Key::Char('y') => Some(Action::CopyUrl),
        Key::Char('h') | Key::Char('?') => Some(Action::Help),
        Key::Char('s') => Some(Action::Settings),
        Key::Char('j') | Key::Down => Some(Action::MoveDown),
        Key::Char('k') | Key::Up => Some(Action::MoveUp),
        Key::Char('g') | Key::Home => Some(Action::MoveFirst),
        Key::Char('G') | Key::End => Some(Action::MoveLast),
        Key::Enter => Some(Action::Confirm),
        Key::Char('d') | Key::Delete => Some(Action::Delete),
        Key::Char('p') => Some(Action::Pause),
        _ => None,
    }
}

/// The action of a key press (see [`action_of`]).
pub fn handle_key_event(k: KeyPress) -> (a: Option<Action>)
    ensures
        a == action_of(k),
{
    match k.key {
        Key::Char('q') | Key::Esc => Some(Action::Quit),
        Key::Char('c') if k.control => Some(Action::Quit),
        Key::Char('a') => Some(Action::AddUrl),
        Key::Char('/') => Some(Action::Search),
        Key::Char('f') if k.control => Some(Action::Search),
        Key::Char('y') => Some(Action::CopyUrl),
        Key::Char('h') | Key::Char('?') => Some(Action::Help),
        Key::Char('s') => Some(Action::Settings),
        Key::Char('j') | Key::Down => Some(Action::MoveDown),
        Key::Char('k') | Key::Up => Some(Action::MoveUp),
        Key::Char('g') | Key::Home => Some(Action::MoveFirst),
        Key::Char('G') | Key::End => Some(Action::MoveLast),
        Key::Enter => Some(Action::Confirm),
        Key::Char('d') | Key::Delete => Some(Action::Delete),
        Key::Char('p') => Some(Action::Pause),
        Key::Char('c') => Some(Action::Cancel),
        _ => None,
    }
}

} // verus!
