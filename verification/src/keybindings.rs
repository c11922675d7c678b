//! The table that maps key presses to actions.

use vstd::prelude::*;
use crate::action::Action;
use crate::event::{KeyCode, KeyEvent, KeyModifiers};
use crate::mode::Mode;

verus! {

/// What a binding is registered for.
#[derive(Debug, Clone, Copy, PartialEq, Eq, Hash, Structural)]
pub enum StateKey {
    /// A key with its modifiers, in one mode.
    Exact(Mode, KeyCode, KeyModifiers),
    /// A key with its modifiers, in every mode.
    KeyCode(KeyCode, KeyModifiers),
    /// Every key of a mode that has no other binding.
    State(Mode),
}

/// The action that a table gives for a key press: the binding of the key in
/// the mode if there is one, else the binding of the key in every mode, else
/// the binding of the mode, else none.
pub open spec fn resolve(
    table: Map<StateKey, Action>,
    mode: Mode,
    code: KeyCode,
    modifiers: KeyModifiers,
) -> Option<Action> {
    if table.contains_key(StateKey::Exact(mode, code, modifiers)) {
        Some(table[StateKey::Exact(mode, code, modifiers)])
    } else if table.contains_key(StateKey::KeyCode(code, modifiers)) {
        Some(table[StateKey::KeyCode(code, modifiers)])
    } else if table.contains_key(StateKey::State(mode)) {
        Some(table[StateKey::State(mode)])
    } else {
        None
    }
}

/// The table that a list of bindings makes: a later binding of a key
/// replaces an earlier one.
pub open spec fn table_of(bindings: Seq<(StateKey, Action)>) -> Map<StateKey, Action>
    decreases bindings.len(),
{
    if bindings.len() == 0 {
        Map::empty()
    } else {
        table_of(bindings.drop_last()).insert(bindings.last().0, bindings.last().1)
    }
}

/// The bindings that the application starts with.
pub open spec fn default_bindings() -> Seq<(StateKey, Action)> {
    let none = KeyModifiers { bits: 0 };
    let control = KeyModifiers { bits: 2 };
    seq![
        (StateKey::Exact(Mode::Normal, KeyCode::Char('q'), none), Action::Quit),
        (StateKey::Exact(Mode::Normal, KeyCode::Char('d'), control), Action::Quit),
        (StateKey::Exact(Mode::Normal, KeyCode::Char('c'), control), Action::Quit),
        (StateKey::Exact(Mode::Normal, KeyCode::Char('z'), control), Action::Suspend),
        (StateKey::Exact(Mode::Normal, KeyCode::Char('i'), none), Action::ModeChange(Mode::Input)),
        (StateKey::Exact(Mode::Input, KeyCode::Esc, none), Action::ModeChange(Mode::Normal)),
        (StateKey::Exact(Mode::Normal, KeyCode::Left, none), Action::Left),
        (StateKey::Exact(Mode::Normal, KeyCode::Right, none), Action::Right),
        (StateKey::Exact(Mode::Normal, KeyCode::Up, none), Action::Up),
        (StateKey::Exact(Mode::Normal, KeyCode::Down, none), Action::Down),
        (StateKey::Exact(Mode::Normal, KeyCode::Tab, none), Action::Tab),
        (StateKey::Exact(Mode::Normal, KeyCode::Char('g'), none), Action::GraphToggle),
        (StateKey::Exact(Mode::Normal, KeyCode::Char('c'), none), Action::Clear),
    ]
}

/// A table of key bindings, fixed when it is made.
pub struct KeyBindings {
    bindings: Vec<(StateKey, Action)>,
}

impl View for KeyBindings {
    type V = Map<StateKey, Action>;

    closed spec fn view(&self) -> Map<StateKey, Action> {
        table_of(self.bindings@)
    }
}

impl Default for KeyBindings {
    /// The table of the bindings that the application starts with.
    fn default() -> (table: KeyBindings)
        ensures
            table@ == table_of(default_bindings()),
    {
        let mut bindings: Vec<(StateKey, Action)> = Vec::new();
        let none = KeyModifiers::empty();
        let control = KeyModifiers::control();
        // Close the application.
        bindings.push((StateKey::Exact(Mode::Normal, KeyCode::Char('q'), none), Action::Quit));
        bindings.push((StateKey::Exact(Mode::Normal, KeyCode::Char('d'), control), Action::Quit));
        bindings.push((StateKey::Exact(Mode::Normal, KeyCode::Char('c'), control), Action::Quit));
        // Suspend.
        bindings.push(
            (StateKey::Exact(Mode::Normal, KeyCode::Char('z'), control), Action::Suspend),
        );
        // Enter and leave the filter box.
        bindings.push(
            (
                StateKey::Exact(Mode::Normal, KeyCode::Char('i'), none),
                Action::ModeChange(Mode::Input),
            ),
        );
        bindings.push(
            (StateKey::Exact(Mode::Input, KeyCode::Esc, none), Action::ModeChange(Mode::Normal)),
        );
        // Navigate with the arrows or the tab key.
        bindings.push((StateKey::Exact(Mode::Normal, KeyCode::Left, none), Action::Left));
        bindings.push((StateKey::Exact(Mode::Normal, KeyCode::Right, none), Action::Right));
        bindings.push((StateKey::Exact(Mode::Normal, KeyCode::Up, none), Action::Up));
        bindings.push((StateKey::Exact(Mode::Normal, KeyCode::Down, none), Action::Down));
        bindings.push((StateKey::Exact(Mode::Normal, KeyCode::Tab, none), Action::Tab));
        // Toggle the graph.
        bindings.push(
            (StateKey::Exact(Mode::Normal, KeyCode::Char('g'), none), Action::GraphToggle),
        );
        // Clear the filter.
        bindings.push((StateKey::Exact(Mode::Normal, KeyCode::Char('c'), none), Action::Clear));
        assert(bindings@ =~= default_bindings());
        KeyBindings { bindings }
    }
}

impl KeyBindings {
    /// The table that the bindings make; a later binding of a key replaces an
    /// earlier one.
    pub fn from_bindings(bindings: Vec<(StateKey, Action)>) -> (table: KeyBindings)
        ensures
            table@ == table_of(bindings@),
    {
        KeyBindings { bindings }
    }

    /// The action bound to `key`, if any.
    fn lookup(&self, key: StateKey) -> (found: Option<&Action>)
        ensures
            found is Some == self@.contains_key(key),
            found matches Some(action) ==> *action == self@[key],
    {
        let mut found: Option<&Action> = None;
        let mut i: usize = 0;
        assert(self.bindings@.take(0) =~= Seq::empty());
        while i < self.bindings.len()
            invariant
                i <= self.bindings.len(),
                found is Some == table_of(self.bindings@.take(i as int)).contains_key(key),
                found matches Some(action) ==> *action == table_of(self.bindings@.take(i as int))[key],
            decreases self.bindings.len() - i,
        {
            assert(self.bindings@.take(i + 1).drop_last() =~= self.bindings@.take(i as int));
            if self.bindings[i].0 == key {
                found = Some(&self.bindings[i].1);
            }
            i += 1;
        }
        assert(self.bindings@.take(i as int) =~= self.bindings@);
        found
    }

    /// The action for a key press in a mode. A binding of the key in the mode
    /// comes first, then a binding of the key in every mode, then the binding
    /// of the mode; without any of them there is no action.
    pub fn get_action(&self, mode: Mode, key_event: KeyEvent) -> (action: Option<&Action>)
        ensures
            action is Some == resolve(self@, mode, key_event.code, key_event.modifiers) is Some,
            action matches Some(a) ==> Some(*a) == resolve(
                self@,
                mode,
                key_event.code,
                key_event.modifiers,
            ),
    {
        let exact = self.lookup(StateKey::Exact(mode, key_event.code, key_event.modifiers));
        if exact.is_some() {
            return exact;
        }
        let global = self.lookup(StateKey::KeyCode(key_event.code, key_event.modifiers));
        if global.is_some() {
            return global;
        }
        self.lookup(StateKey::State(mode))
    }
}

/// A binding registered for a key in a mode wins over the binding registered
/// for the mode alone, and over one registered for the key in every mode.
pub proof fn lemma_exact_binding_wins(
    table: Map<StateKey, Action>,
    mode: Mode,
    code: KeyCode,
    modifiers: KeyModifiers,
)
    requires
        table.contains_key(StateKey::Exact(mode, code, modifiers)),
    ensures
        resolve(table, mode, code, modifiers) == Some(
            table[StateKey::Exact(mode, code, modifiers)],
        ),
{
}

/// A key without a binding of its own gets the binding of the mode, where
/// there is one.
pub proof fn lemma_mode_binding_is_fallback(
    table: Map<StateKey, Action>,
    mode: Mode,
    code: KeyCode,
    modifiers: KeyModifiers,
)
    requires
        !table.contains_key(StateKey::Exact(mode, code, modifiers)),
        !table.contains_key(StateKey::KeyCode(code, modifiers)),
    ensures
        resolve(table, mode, code, modifiers) == (if table.contains_key(StateKey::State(mode)) {
            Some(table[StateKey::State(mode)])
        } else {
            None
        }),
{
}

} // verus!
