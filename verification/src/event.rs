//! The events that travel from the poller to the render loop.

use vstd::prelude::*;

verus! {

/// A key that has a name rather than a character or a function number.
#[derive(Clone, Copy, Debug, PartialEq, Eq, Structural)]
pub enum NamedKey {
    Backspace,
    Enter,
    Left,
    Right,
    Up,
    Down,
    Home,
    End,
    PageUp,
    PageDown,
    Tab,
    BackTab,
    Delete,
    Insert,
    Null,
    Esc,
    CapsLock,
    ScrollLock,
    NumLock,
    PrintScreen,
    Pause,
    Menu,
    KeypadBegin,
    Media,
    Modifier,
}

/// Which key was pressed.
#[derive(Clone, Copy, Debug, PartialEq, Eq, Structural)]
pub enum KeyCode {
    /// A character key, with the character it produces.
    Char(char),
    /// A function key, with its number: `Function(1)` is F1.
    Function(u8),
    /// Any other key.
    Named(NamedKey),
}

/// The modifier keys that were held down with a key.
#[derive(Clone, Copy, Debug, PartialEq, Eq, Structural)]
pub struct Modifiers {
    pub shift: bool,
    pub control: bool,
    pub alt: bool,
}

/// One captured key press.
#[derive(Clone, Copy, Debug, PartialEq, Eq, Structural)]
pub struct KeyPress {
    pub code: KeyCode,
    pub modifiers: Modifiers,
}

/// What the poller hands to the render loop.
#[derive(Clone, Copy, Debug, PartialEq, Eq, Structural)]
pub enum Event {
    /// A key was pressed.
    Input(KeyPress),
    /// One tick interval has gone by since the last tick, or since the start.
    Tick,
}

/// What the render loop does after an event.
#[derive(Clone, Copy, Debug, PartialEq, Eq, Structural)]
pub enum InputEventResult {
    Continue,
    Quit,
}

/// The character whose key ends the session.
pub const QUIT_KEY: char = 'q';

impl Modifiers {
    /// No modifier key held.
    pub fn none() -> (m: Modifiers)
        ensures
            m == (Modifiers { shift: false, control: false, alt: false }),
    {
        Modifiers { shift: false, control: false, alt: false }
    }
}

impl KeyPress {
    /// The press of `code` with no modifier key held.
    pub fn plain(code: KeyCode) -> (k: KeyPress)
        ensures
            k == (KeyPress { code, modifiers: Modifiers { shift: false, control: false, alt: false } }),
    {
        KeyPress { code, modifiers: Modifiers::none() }
    }

    /// Whether this press asks to quit: the quit character, whatever the
    /// modifiers.
    pub open spec fn is_quit(self) -> bool {
        self.code == KeyCode::Char(QUIT_KEY)
    }
}

impl Event {
    /// The decision that an event calls for: a press of the quit key ends
    /// the session, every other key and every tick lets it go on.
    pub open spec fn verdict(self) -> InputEventResult {
        match self {
            Event::Input(key) => if key.is_quit() {
                InputEventResult::Quit
            } else {
                InputEventResult::Continue
            },
            Event::Tick => InputEventResult::Continue,
        }
    }
}

/// Decides what follows the event that was received.
pub fn handle_input(event: Event) -> (result: InputEventResult)
    ensures
        result == event.verdict(),
{
    match event {
        Event::Input(key) => match key.code {
            KeyCode::Char(c) => if c == QUIT_KEY {
                InputEventResult::Quit
            } else {
                InputEventResult::Continue
            },
            _ => InputEventResult::Continue,
        },
        Event::Tick => InputEventResult::Continue,
    }
}

} // verus!
