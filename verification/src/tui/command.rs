//! The commands of the browser and the keys that give them.

use vstd::prelude::*;
use vstd::std_specs::convert::FromSpecImpl;
use crate::event::{Event, KeyCode, KeyEvent, MouseEvent, MouseEventKind};
use crate::input::input_text;

verus! {

/// Possible scroll areas.
#[derive(Debug, Clone, Copy, PartialEq, Eq, Structural)]
pub enum ScrollType {
    /// Main application tabs.
    Tab,
    /// Inner tables.
    Table,
    /// Main list.
    List,
    /// Block.
    Block,
}

/// Input mode command.
#[derive(Debug, Clone, Copy, PartialEq, Eq)]
pub enum InputCommand {
    /// Handle input.
    Handle(Event),
    /// Enter input mode.
    Enter,
    /// Confirm input.
    Confirm,
    /// Resume input.
    Resume(Event),
    /// Exit input mode.
    Exit,
}

/// Application command.
#[derive(Debug, Clone, Copy, PartialEq, Eq)]
pub enum Command {
    /// Show details.
    ShowDetails,
    /// Next.
    Next(ScrollType, usize),
    /// Previous.
    Previous(ScrollType, usize),
    /// Go to top.
    Top,
    /// Go to bottom.
    Bottom,
    /// Increment value.
    Increment,
    /// Decrement value.
    Decrement,
    /// Input command.
    Input(InputCommand),
    /// Exit application.
    Exit,
    /// Do nothing.
    Nothing,
}

/// The command that a key gives outside the input mode.
pub open spec fn command_of_key(key_event: KeyEvent) -> Command {
    let control = key_event.modifiers.bits == 2;
    match key_event.code {
        KeyCode::Right => Command::Next(ScrollType::Table, 1),
        KeyCode::Left => Command::Previous(ScrollType::Table, 1),
        KeyCode::Down => Command::Next(ScrollType::List, 1),
        KeyCode::Up => Command::Previous(ScrollType::List, 1),
        KeyCode::PageDown => Command::Next(ScrollType::List, 5),
        KeyCode::PageUp => Command::Previous(ScrollType::List, 5),
        KeyCode::Esc => Command::Exit,
        KeyCode::Tab => Command::Next(ScrollType::Tab, 1),
        KeyCode::BackTab => Command::Previous(ScrollType::Tab, 1),
        KeyCode::Home => Command::Top,
        KeyCode::End => Command::Bottom,
        KeyCode::Backspace => Command::Input(InputCommand::Resume(Event::Key(key_event))),
        KeyCode::Enter => Command::ShowDetails,
        KeyCode::Char(c) => if c == 'l' {
            Command::Next(ScrollType::Table, 1)
        } else if c == 'h' {
            Command::Previous(ScrollType::Table, 1)
        } else if c == 'n' {
            Command::Next(ScrollType::Block, 1)
        } else if c == 'p' {
            Command::Previous(ScrollType::Block, 1)
        } else if c == 'j' {
            Command::Next(ScrollType::List, 1)
        } else if c == 'k' {
            Command::Previous(ScrollType::List, 1)
        } else if c == 'd' {
            if control {
                Command::Next(ScrollType::List, 5)
            } else {
                Command::Nothing
            }
        } else if c == 'u' {
            if control {
                Command::Previous(ScrollType::List, 5)
            } else {
                Command::Nothing
            }
        } else if c == 'q' {
            Command::Exit
        } else if c == 't' {
            Command::Top
        } else if c == 'b' {
            Command::Bottom
        } else if c == '+' {
            Command::Increment
        } else if c == '-' {
            Command::Decrement
        } else if c == 'c' || c == 'C' {
            if control {
                Command::Exit
            } else {
                Command::Nothing
            }
        } else if c == '/' {
            Command::Input(InputCommand::Enter)
        } else if c == 'f' {
            if control {
                Command::Input(InputCommand::Enter)
            } else {
                Command::Nothing
            }
        } else {
            Command::Nothing
        },
        _ => Command::Nothing,
    }
}

/// The command that the mouse gives: the wheel moves the selection of the
/// list by one row.
pub open spec fn command_of_mouse(mouse_event: MouseEvent) -> Command {
    match mouse_event.kind {
        MouseEventKind::ScrollDown => Command::Next(ScrollType::List, 1),
        MouseEventKind::ScrollUp => Command::Previous(ScrollType::List, 1),
        _ => Command::Nothing,
    }
}

impl From<KeyEvent> for Command {
    fn from(key_event: KeyEvent) -> (command: Command)
        ensures
            command == command_of_key(key_event),
    {
        let control = key_event.modifiers.bits == 2;
        match key_event.code {
            KeyCode::Right | KeyCode::Char('l') => Command::Next(ScrollType::Table, 1),
            KeyCode::Left | KeyCode::Char('h') => Command::Previous(ScrollType::Table, 1),
            KeyCode::Char('n') => Command::Next(ScrollType::Block, 1),
            KeyCode::Char('p') => Command::Previous(ScrollType::Block, 1),
            KeyCode::Down | KeyCode::Char('j') => Command::Next(ScrollType::List, 1),
            KeyCode::Up | KeyCode::Char('k') => Command::Previous(ScrollType::List, 1),
            KeyCode::PageDown => Command::Next(ScrollType::List, 5),
            KeyCode::PageUp => Command::Previous(ScrollType::List, 5),
            KeyCode::Char('d') => {
                if control {
                    Command::Next(ScrollType::List, 5)
                } else {
                    Command::Nothing
                }
            },
            KeyCode::Char('u') => {
                if control {
                    Command::Previous(ScrollType::List, 5)
                } else {
                    Command::Nothing
                }
            },
            KeyCode::Esc | KeyCode::Char('q') => Command::Exit,
            KeyCode::Tab => Command::Next(ScrollType::Tab, 1),
            KeyCode::BackTab => Command::Previous(ScrollType::Tab, 1),
            KeyCode::Char('t') | KeyCode::Home => Command::Top,
            KeyCode::Char('b') | KeyCode::End => Command::Bottom,
            KeyCode::Char('+') => Command::Increment,
            KeyCode::Char('-') => Command::Decrement,
            KeyCode::Char('c') | KeyCode::Char('C') => {
                if control {
                    Command::Exit
                } else {
                    Command::Nothing
                }
            },
            KeyCode::Char('/') => Command::Input(InputCommand::Enter),
            KeyCode::Char('f') => {
                if control {
                    Command::Input(InputCommand::Enter)
                } else {
                    Command::Nothing
                }
            },
            KeyCode::Backspace => Command::Input(InputCommand::Resume(Event::Key(key_event))),
            KeyCode::Enter => Command::ShowDetails,
            _ => Command::Nothing,
        }
    }
}

impl FromSpecImpl<KeyEvent> for Command {
    open spec fn obeys_from_spec() -> bool {
        true
    }

    open spec fn from_spec(key_event: KeyEvent) -> Command {
        command_of_key(key_event)
    }
}

impl From<MouseEvent> for Command {
    fn from(mouse_event: MouseEvent) -> (command: Command)
        ensures
            command == command_of_mouse(mouse_event),
    {
        match mouse_event.kind {
            MouseEventKind::ScrollDown => Command::Next(ScrollType::List, 1),
            MouseEventKind::ScrollUp => Command::Previous(ScrollType::List, 1),
            _ => Command::Nothing,
        }
    }
}

impl FromSpecImpl<MouseEvent> for Command {
    open spec fn obeys_from_spec() -> bool {
        true
    }

    open spec fn from_spec(mouse_event: MouseEvent) -> Command {
        command_of_mouse(mouse_event)
    }
}

/// The command that a key gives in the input mode, where the text field
/// holds `text`: escape, and backspace in an empty field, leave the mode;
/// enter confirms; every other key goes to the text field.
pub open spec fn input_command_of(key_event: KeyEvent, text: Seq<char>) -> InputCommand {
    if key_event.code == KeyCode::Esc || (key_event.code == KeyCode::Backspace && text.len() == 0) {
        InputCommand::Exit
    } else if key_event.code == KeyCode::Enter {
        InputCommand::Confirm
    } else {
        InputCommand::Handle(Event::Key(key_event))
    }
}

impl InputCommand {
    /// Parses the event.
    pub fn parse(key_event: KeyEvent, input: &tui_input::Input) -> (command: InputCommand)
        ensures
            command == input_command_of(key_event, input_text(*input)),
    {
        if key_event.code == KeyCode::Esc || (key_event.code == KeyCode::Backspace
            && input.value().is_empty()) {
            InputCommand::Exit
        } else if key_event.code == KeyCode::Enter {
            InputCommand::Confirm
        } else {
            InputCommand::Handle(Event::Key(key_event))
        }
    }
}

} // verus!
