//! One-line text entry. The editing itself (what each key does to the text
//! and the cursor) is the `tui-input` crate's; this module holds the text
//! and the cursor as plain values and hands every key press to it.

use ratatui::crossterm::event::Event as TermEvent;
use ratatui::crossterm::event::KeyCode as TermKeyCode;
use ratatui::crossterm::event::KeyEvent as TermKeyEvent;
use ratatui::crossterm::event::KeyModifiers;
use tui_input::backend::crossterm::{to_input_request, EventHandler};
use tui_input::Input;
use vstd::prelude::*;
use vstd::string::*;
use crate::action::{KeyCode, KeyEvent};

verus! {

/// The line after one key press: the new text, the new cursor position
/// (counted in characters) and whether the key changed either of them. It
/// stands for what `tui_input::Input::handle_event` does to an `Input` that
/// holds `text` with the cursor at `cursor`.
pub uninterp spec fn line_after_key(text: Seq<char>, cursor: nat, key: KeyEvent) -> (
    Seq<char>,
    nat,
    bool,
);

/// Calls `tui_input::Input::handle_event` on an input made of `value` and
/// `cursor` (`Input::new`, `Input::with_cursor`) with `key` as a key press of
/// the terminal, and returns the input's value and cursor afterwards and
/// whether the call reported a change. The contract only names that result:
/// it is a function of the text, the cursor and the key.
#[verifier::external_body]
fn edit_line(value: String, cursor: usize, key: KeyEvent) -> (r: (String, usize, bool))
    ensures
        (r.0@, r.1 as nat, r.2) == line_after_key(value@, cursor as nat, key),
{
    let mut input = Input::new(value).with_cursor(cursor);
    let code = match key.code {
        KeyCode::Char(c) => TermKeyCode::Char(c), KeyCode::Tab => TermKeyCode::Tab,
        KeyCode::Backspace => TermKeyCode::Backspace, KeyCode::Delete => TermKeyCode::Delete,
        KeyCode::Left => TermKeyCode::Left, KeyCode::Right => TermKeyCode::Right,
        KeyCode::Home => TermKeyCode::Home, KeyCode::End => TermKeyCode::End,
        KeyCode::Up => TermKeyCode::Up, KeyCode::Down => TermKeyCode::Down,
        KeyCode::Enter => TermKeyCode::Enter, KeyCode::Esc => TermKeyCode::Esc,
        KeyCode::Other => TermKeyCode::Null,
    };
    let mods = KeyModifiers::from_bits_truncate(key.modifiers);
    let changed = input.handle_event(&TermEvent::Key(TermKeyEvent::new(code, mods))).is_some();
    (input.value().to_string(), input.cursor(), changed)
}

/// Whether a key press asks for an edit of a line at all, whatever the line
/// holds. It stands for whether
/// `tui_input::backend::crossterm::to_input_request` gives a request for the
/// key press.
pub uninterp spec fn asks_edit(key: KeyEvent) -> bool;

/// Calls `tui_input::backend::crossterm::to_input_request` with `key` as a
/// key press of the terminal and says whether it gave a request. The
/// contract only names that result: it is a function of the key.
#[verifier::external_body]
fn key_asks_edit(key: KeyEvent) -> (asks: bool)
    ensures
        asks == asks_edit(key),
{
    let code = match key.code {
        KeyCode::Char(c) => TermKeyCode::Char(c), KeyCode::Tab => TermKeyCode::Tab,
        KeyCode::Backspace => TermKeyCode::Backspace, KeyCode::Delete => TermKeyCode::Delete,
        KeyCode::Left => TermKeyCode::Left, KeyCode::Right => TermKeyCode::Right,
        KeyCode::Home => TermKeyCode::Home, KeyCode::End => TermKeyCode::End,
        KeyCode::Up => TermKeyCode::Up, KeyCode::Down => TermKeyCode::Down,
        KeyCode::Enter => TermKeyCode::Enter, KeyCode::Esc => TermKeyCode::Esc,
        KeyCode::Other => TermKeyCode::Null,
    };
    let mods = KeyModifiers::from_bits_truncate(key.modifiers);
    to_input_request(&TermEvent::Key(TermKeyEvent::new(code, mods))).is_some()
}

/// What an entry field shows: the prompt, the text and the cursor position.
pub struct InputView {
    pub prompt: Seq<char>,
    pub text: Seq<char>,
    pub cursor: nat,
}

impl InputView {
    /// The field after one key press.
    pub open spec fn after_key(self, key: KeyEvent) -> InputView {
        InputView {
            prompt: self.prompt,
            text: line_after_key(self.text, self.cursor, key).0,
            cursor: line_after_key(self.text, self.cursor, key).1,
        }
    }

    /// Whether the key press changes the text or moves the cursor.
    pub open spec fn changed_by(self, key: KeyEvent) -> bool {
        line_after_key(self.text, self.cursor, key).2
    }

    /// An empty field behind a prompt.
    pub open spec fn empty(prompt: Seq<char>) -> InputView {
        InputView { prompt, text: Seq::empty(), cursor: 0 }
    }

    /// A field that holds `text`, with the cursor behind it.
    pub open spec fn holding(prompt: Seq<char>, text: Seq<char>) -> InputView {
        InputView { prompt, text, cursor: text.len() }
    }
}

/// A prompt and the line of text entered behind it.
pub struct InputManager {
    pub prompt: String,
    pub value: String,
    /// The cursor position in `value`, counted in characters.
    pub cursor: usize,
}

impl View for InputManager {
    type V = InputView;

    open spec fn view(&self) -> InputView {
        InputView { prompt: self.prompt@, text: self.value@, cursor: self.cursor as nat }
    }
}

impl InputManager {
    /// An empty entry field behind `prompt`.
    pub fn new(prompt: String) -> (input: InputManager)
        ensures
            input@ == InputView::empty(prompt@),
    {
        InputManager { prompt, value: String::new(), cursor: 0 }
    }

    /// An entry field behind `prompt` that already holds `value`, with the
    /// cursor behind its last character.
    pub fn new_with_value(prompt: String, value: String) -> (input: InputManager)
        ensures
            input@ == InputView::holding(prompt@, value@),
    {
        let cursor = value.as_str().unicode_len();
        InputManager { prompt, value, cursor }
    }

    /// The text entered so far.
    pub fn text(&self) -> (text: String)
        ensures
            text@ == self@.text,
    {
        self.value.clone()
    }

    /// Replaces the text and puts the cursor behind it.
    pub fn set_text(&mut self, value: String)
        ensures
            final(self)@ == InputView::holding(old(self)@.prompt, value@),
    {
        self.cursor = value.as_str().unicode_len();
        self.value = value;
    }

    /// Replaces the prompt.
    pub fn set_prompt(&mut self, prompt: String)
        ensures
            final(self)@ == (InputView { prompt: prompt@, ..old(self)@ }),
    {
        self.prompt = prompt;
    }

    /// Applies one key press to the line and says whether the text or the
    /// cursor changed.
    pub fn handle_key(&mut self, key: KeyEvent) -> (changed: bool)
        ensures
            final(self)@ == old(self)@.after_key(key),
            changed == old(self)@.changed_by(key),
    {
        let mut value = String::new();
        std::mem::swap(&mut value, &mut self.value);
        let (value, cursor, changed) = edit_line(value, self.cursor, key);
        self.value = value;
        self.cursor = cursor;
        changed
    }

    /// Whether a key press asks for an edit of a line at all, be it one
    /// that changes nothing on the line as it is.
    pub fn is_edit_key(key: KeyEvent) -> (asks: bool)
        ensures
            asks == asks_edit(key),
    {
        key_asks_edit(key)
    }

    /// Applies one key press to the line.
    pub fn handle(&mut self, key: KeyEvent)
        ensures
            final(self)@ == old(self)@.after_key(key),
    {
        let _ = self.handle_key(key);
    }
}

} // verus!
