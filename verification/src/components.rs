//! The components of the dashboard. Each one keeps its own state, reacts to
//! events and to the actions that the application hands round, and may answer
//! with an action of its own.

use vstd::prelude::*;
use crate::action::Action;
use crate::aws::Dataset;
use crate::event::{Event, KeyEvent, MouseEvent};

pub mod data_table;
pub mod header;
pub mod top_left;
pub mod top_right;

verus! {

/// A unit of the user interface.
pub trait Component: Sized {
    /// The component's state is consistent.
    spec fn wf(&self) -> bool;

    /// Whether preparing the component may take it to the state `after`,
    /// with or without the need of a refresh.
    spec fn init_response(&self, after: Self, refresh: bool) -> bool;

    /// Whether an action may take the component to the state `after` and
    /// get `answer` from it.
    spec fn update_response(
        &self,
        action: Action,
        data: Dataset,
        now: u64,
        after: Self,
        answer: Option<Action>,
    ) -> bool;

    /// Prepares the component. The result tells whether a refresh of the
    /// data has to be started.
    fn init(&mut self) -> (refresh: bool)
        requires
            old(self).wf(),
        ensures
            final(self).wf(),
            old(self).init_response(*final(self), refresh),
    ;

    /// Whether a key press may take the component to the state `after` and
    /// give `action`.
    spec fn key_response(&self, key: KeyEvent, after: Self, action: Option<Action>) -> bool;

    /// Whether a mouse event may take the component to the state `after` and
    /// give `action`.
    spec fn mouse_response(&self, mouse: MouseEvent, after: Self, action: Option<Action>) -> bool;

    /// Hands an event to the handler for its kind. Events that are neither
    /// from the keyboard nor from the mouse change nothing and give no
    /// action.
    fn handle_events(&mut self, event: Event) -> (action: Option<Action>)
        requires
            old(self).wf(),
        ensures
            final(self).wf(),
            match event {
                Event::Key(key) => old(self).key_response(key, *final(self), action),
                Event::Mouse(mouse) => old(self).mouse_response(mouse, *final(self), action),
                _ => action is None && *final(self) == *old(self),
            },
    {
        match event {
            Event::Key(key_event) => self.handle_key_events(key_event),
            Event::Mouse(mouse_event) => self.handle_mouse_events(mouse_event),
            _ => None,
        }
    }

    /// Reacts to a key press.
    fn handle_key_events(&mut self, key: KeyEvent) -> (action: Option<Action>)
        requires
            old(self).wf(),
        ensures
            final(self).wf(),
            old(self).key_response(key, *final(self), action),
    ;

    /// Reacts to a mouse event.
    fn handle_mouse_events(&mut self, mouse: MouseEvent) -> (action: Option<Action>)
        requires
            old(self).wf(),
        ensures
            final(self).wf(),
            old(self).mouse_response(mouse, *final(self), action),
    ;

    /// Reacts to an action. `data` is what was last loaded, `now` the time
    /// in nanoseconds on the clock of the event loop.
    fn update(&mut self, action: &Action, data: &Dataset, now: u64) -> (answer: Option<Action>)
        requires
            old(self).wf(),
        ensures
            final(self).wf(),
            old(self).update_response(*action, *data, now, *final(self), answer),
    ;
}

} // verus!
