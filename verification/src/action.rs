//! The actions that travel through the application's queue.

use vstd::prelude::*;
use crate::enums::TabsEnum;
use crate::mode::Mode;

verus! {

/// A user intent or a change of the system, handled by the application and
/// by every component in turn.
#[derive(Debug, Clone, PartialEq)]
pub enum Action {
    Tick,
    Render,
    Resize(u16, u16),
    Suspend,
    Resume,
    Quit,
    ClearScreen,
    Error(String),
    Help,
    Up,
    Down,
    Left,
    Right,
    Tab,
    TabChange(TabsEnum),
    ModeChange(Mode),
    GraphToggle,
    Clear,
    DataLoaded,
}

/// An action as a mathematical value: the message of an error is its text.
pub enum ActionView {
    Tick,
    Render,
    Resize(u16, u16),
    Suspend,
    Resume,
    Quit,
    ClearScreen,
    Error(Seq<char>),
    Help,
    Up,
    Down,
    Left,
    Right,
    Tab,
    TabChange(TabsEnum),
    ModeChange(Mode),
    GraphToggle,
    Clear,
    DataLoaded,
}

impl View for Action {
    type V = ActionView;

    open spec fn view(&self) -> ActionView {
        match *self {
            Action::Tick => ActionView::Tick,
            Action::Render => ActionView::Render,
            Action::Resize(w, h) => ActionView::Resize(w, h),
            Action::Suspend => ActionView::Suspend,
            Action::Resume => ActionView::Resume,
            Action::Quit => ActionView::Quit,
            Action::ClearScreen => ActionView::ClearScreen,
            Action::Error(message) => ActionView::Error(message@),
            Action::Help => ActionView::Help,
            Action::Up => ActionView::Up,
            Action::Down => ActionView::Down,
            Action::Left => ActionView::Left,
            Action::Right => ActionView::Right,
            Action::Tab => ActionView::Tab,
            Action::TabChange(tab) => ActionView::TabChange(tab),
            Action::ModeChange(mode) => ActionView::ModeChange(mode),
            Action::GraphToggle => ActionView::GraphToggle,
            Action::Clear => ActionView::Clear,
            Action::DataLoaded => ActionView::DataLoaded,
        }
    }
}

impl Action {
    /// A copy of the action.
    pub fn duplicate(&self) -> (copy: Action)
        ensures
            copy@ == self@,
    {
        match self {
            Action::Tick => Action::Tick,
            Action::Render => Action::Render,
            Action::Resize(w, h) => Action::Resize(*w, *h),
            Action::Suspend => Action::Suspend,
            Action::Resume => Action::Resume,
            Action::Quit => Action::Quit,
            Action::ClearScreen => Action::ClearScreen,
            Action::Error(message) => Action::Error(message.clone()),
            Action::Help => Action::Help,
            Action::Up => Action::Up,
            Action::Down => Action::Down,
            Action::Left => Action::Left,
            Action::Right => Action::Right,
            Action::Tab => Action::Tab,
            Action::TabChange(tab) => Action::TabChange(*tab),
            Action::ModeChange(mode) => Action::ModeChange(*mode),
            Action::GraphToggle => Action::GraphToggle,
            Action::Clear => Action::Clear,
            Action::DataLoaded => Action::DataLoaded,
        }
    }
}

/// The actions of a queue as mathematical values, in order.
pub open spec fn actions_view(actions: Seq<Action>) -> Seq<ActionView> {
    actions.map_values(|a: Action| a@)
}

} // verus!
