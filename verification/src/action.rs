//! Intent-level messages, and which of them a terminal event stands for.

use vstd::prelude::*;

verus! {

/// Which way raw key presses are interpreted.
#[derive(Clone, Copy, Debug, PartialEq, Eq, Structural)]
pub enum Mode {
    /// Key presses are text for the focused entry field.
    Input,
    /// Key presses are looked up in the key bindings.
    Normal,
}

/// The key of a key press, as far as any handler tells keys apart.
#[derive(Clone, Copy, Debug, PartialEq, Eq, Structural)]
pub enum KeyCode {
    Backspace,
    Enter,
    Left,
    Right,
    Up,
    Down,
    Home,
    End,
    Tab,
    Delete,
    Esc,
    Char(char),
    /// Any key that no handler and no entry field reacts to.
    Other,
}

/// Modifier bit for Shift, as terminals report it.
pub const MOD_SHIFT: u8 = 1;

/// Modifier bit for Control.
pub const MOD_CONTROL: u8 = 2;

/// Modifier bit for Alt.
pub const MOD_ALT: u8 = 4;

/// Modifier bit for Meta.
pub const MOD_META: u8 = 32;

/// One key press (or auto-repeat) with the modifier bits held at the time.
#[derive(Clone, Copy, Debug, PartialEq, Eq, Structural)]
pub struct KeyEvent {
    pub code: KeyCode,
    pub modifiers: u8,
}

impl KeyEvent {
    /// A key press without modifiers.
    pub fn plain(code: KeyCode) -> (key: KeyEvent)
        ensures
            key == (KeyEvent { code, modifiers: 0 }),
    {
        KeyEvent { code, modifiers: 0 }
    }
}

/// What the terminal layer reports to the main loop.
#[derive(Clone, Copy, Debug, PartialEq, Eq, Structural)]
pub enum Event {
    Quit,
    Error,
    Tick,
    Render,
    Key(KeyEvent),
}

/// A user intent or system event on its way to the component that owns the
/// state it concerns.
#[derive(Clone, Copy, Debug, PartialEq, Eq, Structural)]
pub enum Action {
    Tick,
    Render,
    Quit,
    HardQuit,
    Close,
    Confirm,
    Select,
    ChangeFocus,
    Up,
    Down,
    Home,
    End,
    ScrollUpBy(u8),
    ScrollDownBy(u8),
    ScrollUpPage,
    ScrollDownPage,
    SwitchToInputMode,
    SwitchToNormalMode,
    ChangeTab(u8),
    AddMagnet,
    Delete,
    Rename,
    Pause,
    MoveTorrent,
    Search,
    ChangeCategory,
    ShowFiles,
    ShowStats,
    ShowProvidersInfo,
    XdgOpen,
    ChangeFilePriority,
    MoveToColumnLeft,
    MoveToColumnRight,
    Input(KeyEvent),
}

impl Action {
    pub open spec fn spec_is_quit(&self) -> bool {
        *self is Quit || *self is HardQuit
    }

    pub open spec fn spec_is_soft_quit(&self) -> bool {
        self.spec_is_quit() || *self is Close
    }

    /// Whether this action asks for a redraw.
    pub fn is_render(&self) -> (b: bool)
        ensures
            b == (*self is Render),
    {
        matches!(self, Action::Render)
    }

    /// Whether this action ends the program, softly or not.
    #[verifier::when_used_as_spec(spec_is_quit)]
    pub fn is_quit(&self) -> (b: bool)
        ensures
            b == self.spec_is_quit(),
    {
        matches!(self, Action::Quit | Action::HardQuit)
    }

    /// Whether this action dismisses whatever has the focus: a quit, or `Close`.
    #[verifier::when_used_as_spec(spec_is_soft_quit)]
    pub fn is_soft_quit(&self) -> (b: bool)
        ensures
            b == self.spec_is_soft_quit(),
    {
        matches!(self, Action::Quit | Action::HardQuit | Action::Close)
    }
}

/// What an input handler tells its parent: stay, or "close me".
#[derive(Clone, Copy, Debug, PartialEq, Eq, Structural)]
pub enum ComponentAction {
    Nothing,
    Quit,
}

impl ComponentAction {
    pub open spec fn spec_is_quit(&self) -> bool {
        *self is Quit
    }

    #[verifier::when_used_as_spec(spec_is_quit)]
    pub fn is_quit(&self) -> (b: bool)
        ensures
            b == (*self is Quit),
    {
        matches!(self, ComponentAction::Quit)
    }
}

/// The action that a key is bound to in normal mode.
pub open spec fn key_binding(code: KeyCode) -> Option<Action> {
    match code {
        KeyCode::Down => Some(Action::Down),
        KeyCode::Up => Some(Action::Up),
        KeyCode::Enter => Some(Action::Confirm),
        KeyCode::Char(c) => if c == 'j' {
            Some(Action::Down)
        } else if c == 'k' {
            Some(Action::Up)
        } else if c == 'm' {
            Some(Action::AddMagnet)
        } else if c == 'q' {
            Some(Action::Quit)
        } else {
            None
        },
        _ => None,
    }
}

/// The action for a terminal event under the built-in bindings.
pub open spec fn action_for(mode: Mode, event: Event) -> Option<Action> {
    match event {
        Event::Quit => Some(Action::Quit),
        Event::Tick => Some(Action::Tick),
        Event::Render => Some(Action::Render),
        Event::Key(key) => if mode is Input {
            Some(Action::Input(key))
        } else {
            key_binding(key.code)
        },
        Event::Error => None,
    }
}

/// Looks a key event up in the built-in bindings; any other event has none.
pub fn keycode_to_action(event: Event) -> (action: Option<Action>)
    ensures
        action == match event {
            Event::Key(key) => key_binding(key.code),
            _ => None,
        },
{
    if let Event::Key(key) = event {
        return match key.code {
            KeyCode::Char('j') | KeyCode::Down => Some(Action::Down),
            KeyCode::Char('k') | KeyCode::Up => Some(Action::Up),
            KeyCode::Char('m') => Some(Action::AddMagnet),
            KeyCode::Char('q') => Some(Action::Quit),
            KeyCode::Enter => Some(Action::Confirm),
            _ => None,
        };
    }
    None
}

/// Turns a terminal event into the action to dispatch. In input mode every
/// key press is passed through as text input; in normal mode it goes through
/// the bindings. An `Event::Error` stands for no action and is not accepted.
pub fn event_to_action(mode: Mode, event: Event) -> (action: Option<Action>)
    requires
        !(event is Error),
    ensures
        action == action_for(mode, event),
{
    match event {
        Event::Quit => Some(Action::Quit),
        Event::Error => None,
        Event::Tick => Some(Action::Tick),
        Event::Render => Some(Action::Render),
        Event::Key(key) => {
            if matches!(mode, Mode::Input) {
                Some(Action::Input(key))
            } else {
                keycode_to_action(event)
            }
        },
    }
}

} // verus!
