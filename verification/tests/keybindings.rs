use elysium::action::Action;
use elysium::event::{KeyCode, KeyEvent, KeyModifiers};
use elysium::keybindings::{KeyBindings, StateKey};
use elysium::mode::Mode;

fn key(code: KeyCode) -> KeyEvent {
    KeyEvent::new(code, KeyModifiers::empty())
}

fn ctrl(code: KeyCode) -> KeyEvent {
    KeyEvent::new(code, KeyModifiers::control())
}

#[test]
fn default_bindings_of_normal_mode() {
    let table = KeyBindings::default();
    let normal = Mode::Normal;
    assert_eq!(table.get_action(normal, key(KeyCode::Char('q'))), Some(&Action::Quit));
    assert_eq!(table.get_action(normal, ctrl(KeyCode::Char('d'))), Some(&Action::Quit));
    assert_eq!(table.get_action(normal, ctrl(KeyCode::Char('c'))), Some(&Action::Quit));
    assert_eq!(table.get_action(normal, ctrl(KeyCode::Char('z'))), Some(&Action::Suspend));
    assert_eq!(
        table.get_action(normal, key(KeyCode::Char('i'))),
        Some(&Action::ModeChange(Mode::Input))
    );
    assert_eq!(table.get_action(normal, key(KeyCode::Left)), Some(&Action::Left));
    assert_eq!(table.get_action(normal, key(KeyCode::Right)), Some(&Action::Right));
    assert_eq!(table.get_action(normal, key(KeyCode::Up)), Some(&Action::Up));
    assert_eq!(table.get_action(normal, key(KeyCode::Down)), Some(&Action::Down));
    assert_eq!(table.get_action(normal, key(KeyCode::Tab)), Some(&Action::Tab));
    assert_eq!(table.get_action(normal, key(KeyCode::Char('g'))), Some(&Action::GraphToggle));
    assert_eq!(table.get_action(normal, key(KeyCode::Char('c'))), Some(&Action::Clear));
}

#[test]
fn default_bindings_of_input_mode() {
    let table = KeyBindings::default();
    assert_eq!(
        table.get_action(Mode::Input, key(KeyCode::Esc)),
        Some(&Action::ModeChange(Mode::Normal))
    );
    assert_eq!(table.get_action(Mode::Input, key(KeyCode::Char('q'))), None);
    assert_eq!(table.get_action(Mode::Input, key(KeyCode::Up)), None);
    assert_eq!(table.get_action(Mode::Input, key(KeyCode::Enter)), None);
}

#[test]
fn unbound_keys_give_no_action() {
    let table = KeyBindings::default();
    assert_eq!(table.get_action(Mode::Normal, key(KeyCode::Char('x'))), None);
    assert_eq!(table.get_action(Mode::Normal, key(KeyCode::Esc)), None);
    assert_eq!(table.get_action(Mode::Normal, ctrl(KeyCode::Char('q'))), None);
    assert_eq!(
        table.get_action(Mode::Normal, KeyEvent::new(KeyCode::Char('q'), KeyModifiers::shift())),
        None
    );
    assert_eq!(table.get_action(Mode::Normal, key(KeyCode::F(1))), None);
}

#[test]
fn exact_binding_wins_over_fallbacks() {
    let table = KeyBindings::from_bindings(vec![
        (StateKey::State(Mode::Input), Action::Help),
        (StateKey::KeyCode(KeyCode::Esc, KeyModifiers::empty()), Action::Quit),
        (
            StateKey::Exact(Mode::Input, KeyCode::Esc, KeyModifiers::empty()),
            Action::ModeChange(Mode::Normal),
        ),
    ]);
    assert_eq!(
        table.get_action(Mode::Input, key(KeyCode::Esc)),
        Some(&Action::ModeChange(Mode::Normal))
    );
    assert_eq!(table.get_action(Mode::Normal, key(KeyCode::Esc)), Some(&Action::Quit));
    assert_eq!(table.get_action(Mode::Input, key(KeyCode::Char('a'))), Some(&Action::Help));
    assert_eq!(table.get_action(Mode::Normal, key(KeyCode::Char('a'))), None);
}

#[test]
fn exact_binding_wins_whatever_the_order() {
    let table = KeyBindings::from_bindings(vec![
        (StateKey::Exact(Mode::Normal, KeyCode::Up, KeyModifiers::empty()), Action::Up),
        (StateKey::State(Mode::Normal), Action::Help),
    ]);
    assert_eq!(table.get_action(Mode::Normal, key(KeyCode::Up)), Some(&Action::Up));
    assert_eq!(table.get_action(Mode::Normal, key(KeyCode::Down)), Some(&Action::Help));
    assert_eq!(table.get_action(Mode::Input, key(KeyCode::Up)), None);
}

#[test]
fn later_binding_replaces_earlier() {
    let table = KeyBindings::from_bindings(vec![
        (StateKey::State(Mode::Normal), Action::Help),
        (StateKey::State(Mode::Normal), Action::Quit),
    ]);
    assert_eq!(table.get_action(Mode::Normal, key(KeyCode::Up)), Some(&Action::Quit));
}

#[test]
fn empty_table_gives_no_action() {
    let table = KeyBindings::from_bindings(Vec::new());
    assert_eq!(table.get_action(Mode::Normal, key(KeyCode::Char('q'))), None);
}

#[test]
fn modifiers_have_their_bits() {
    assert_eq!(KeyModifiers::empty().bits, 0);
    assert_eq!(KeyModifiers::shift().bits, 1);
    assert_eq!(KeyModifiers::control().bits, 2);
    assert_eq!(KeyModifiers::alt().bits, 4);
    assert!(KeyModifiers::empty().is_empty());
    assert!(!KeyModifiers::control().is_empty());
}
