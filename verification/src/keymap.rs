//! Key bindings: which key, with which modifier, stands for which action.

use vstd::prelude::*;
use crate::action::{
    Action, KeyCode, KeyEvent, MOD_ALT, MOD_CONTROL, MOD_META, MOD_SHIFT,
};

verus! {

/// The modifier that a binding asks for.
#[derive(Clone, Copy, Debug, PartialEq, Eq, Structural)]
pub enum KeyModifier {
    Plain,
    Ctrl,
    Shift,
    Alt,
    Meta,
}

impl KeyModifier {
    /// The modifier bits of a key press that the binding asks for.
    pub open spec fn spec_bits(self) -> u8 {
        match self {
            KeyModifier::Plain => 0,
            KeyModifier::Ctrl => MOD_CONTROL,
            KeyModifier::Shift => MOD_SHIFT,
            KeyModifier::Alt => MOD_ALT,
            KeyModifier::Meta => MOD_META,
        }
    }

    /// The modifier bits of a key press that the binding asks for.
    pub fn bits(&self) -> (bits: u8)
        ensures
            bits == self.spec_bits(),
    {
        match self {
            KeyModifier::Plain => 0,
            KeyModifier::Ctrl => MOD_CONTROL,
            KeyModifier::Shift => MOD_SHIFT,
            KeyModifier::Alt => MOD_ALT,
            KeyModifier::Meta => MOD_META,
        }
    }
}

#[derive(Clone, Copy, Debug, PartialEq, Eq, Structural)]
pub struct Keybinding {
    pub on: KeyCode,
    pub modifier: KeyModifier,
    pub action: Action,
    pub show_in_help: bool,
}

impl Keybinding {
    /// Whether the key press is the one the binding is on.
    pub open spec fn matches(self, key: KeyEvent) -> bool {
        self.on == key.code && self.modifier.spec_bits() == key.modifiers
    }
}

/// The action of the first binding that the key press matches.
pub open spec fn bound_action(bindings: Seq<Keybinding>, key: KeyEvent) -> Option<Action>
    decreases bindings.len(),
{
    if bindings.len() == 0 {
        None
    } else if bindings[0].matches(key) {
        Some(bindings[0].action)
    } else {
        bound_action(bindings.drop_first(), key)
    }
}

/// The bindings of one part of the program.
#[derive(Clone, Debug, PartialEq, Eq)]
pub struct KeybindsHolder {
    pub keybindings: Vec<Keybinding>,
}

impl KeybindsHolder {
    /// Looks a key press up.
    pub fn action_for(&self, key: KeyEvent) -> (action: Option<Action>)
        ensures
            action == bound_action(self.keybindings@, key),
    {
        let mut i: usize = 0;
        assert(self.keybindings@.skip(0) =~= self.keybindings@);
        while i < self.keybindings.len()
            invariant
                0 <= i <= self.keybindings@.len(),
                bound_action(self.keybindings@, key) == bound_action(
                    self.keybindings@.skip(i as int),
                    key,
                ),
            decreases self.keybindings@.len() - i,
        {
            let binding = &self.keybindings[i];
            assert(self.keybindings@.skip(i as int)[0] == *binding);
            assert(self.keybindings@.skip(i as int).drop_first() =~= self.keybindings@.skip(i + 1));
            if binding.on == key.code && binding.modifier.bits() == key.modifiers {
                return Some(binding.action);
            }
            i = i + 1;
        }
        None
    }
}

/// The one binding that the file viewer has unless the configuration says
/// otherwise: `p` changes the priority of the selected files.
pub open spec fn default_file_viewer_binding() -> Keybinding {
    Keybinding {
        on: KeyCode::Char('p'),
        modifier: KeyModifier::Plain,
        action: Action::ChangeFilePriority,
        show_in_help: true,
    }
}

/// The bindings of the file viewer where the configuration names none.
pub fn default_torrents_tab_file_viewer() -> (holder: KeybindsHolder)
    ensures
        holder.keybindings@ == seq![default_file_viewer_binding()],
{
    let mut keybindings: Vec<Keybinding> = Vec::new();
    keybindings.push(
        Keybinding {
            on: KeyCode::Char('p'),
            modifier: KeyModifier::Plain,
            action: Action::ChangeFilePriority,
            show_in_help: true,
        },
    );
    assert(keybindings@ =~= seq![default_file_viewer_binding()]);
    KeybindsHolder { keybindings }
}

/// All bindings, by the part of the program they belong to.
#[derive(Clone, Debug, PartialEq, Eq)]
pub struct KeymapConfig {
    pub general: KeybindsHolder,
    pub torrents_tab: KeybindsHolder,
    pub torrents_tab_file_viewer: KeybindsHolder,
    pub search_tab: KeybindsHolder,
}

impl KeymapConfig {
    pub fn app_name() -> (name: &'static str)
        ensures
            name@ == "rustmission"@,
    {
        "rustmission"
    }

    pub fn filename() -> (name: &'static str)
        ensures
            name@ == "keymap.toml"@,
    {
        "keymap.toml"
    }

    /// A missing keymap file is no reason to give up.
    pub fn should_exit_if_not_found() -> (exit: bool)
        ensures
            !exit,
    {
        false
    }

    /// A missing keymap file is not worth a message.
    pub fn message_if_not_found() -> (message: Option<String>)
        ensures
            message is None,
    {
        None
    }
}

} // verus!
