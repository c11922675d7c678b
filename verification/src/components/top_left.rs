//! The panel of the graph.

use vstd::prelude::*;
use crate::action::{Action, ActionView};
use crate::aws::Dataset;
use crate::components::Component;
use crate::event::{KeyEvent, MouseEvent};

verus! {

/// The panel of the graph: it knows whether the graph is shown.
pub struct TopLeft {
    show_graph: bool,
}

impl TopLeft {
    /// Whether the graph is shown.
    pub closed spec fn spec_show_graph(&self) -> bool {
        self.show_graph
    }

    /// A panel with the graph hidden.
    pub fn new() -> (panel: TopLeft)
        ensures
            !panel.spec_show_graph(),
    {
        TopLeft { show_graph: false }
    }

    /// Whether the graph is shown.
    pub fn show_graph(&self) -> (shown: bool)
        ensures
            shown == self.spec_show_graph(),
    {
        self.show_graph
    }
}

impl Default for TopLeft {
    fn default() -> (panel: TopLeft)
        ensures
            !panel.spec_show_graph(),
    {
        TopLeft::new()
    }
}

impl Component for TopLeft {
    open spec fn wf(&self) -> bool {
        true
    }

    open spec fn init_response(&self, after: Self, refresh: bool) -> bool {
        !refresh && after == *self
    }

    fn init(&mut self) -> (refresh: bool) {
        false
    }

    open spec fn key_response(&self, key: KeyEvent, after: Self, action: Option<Action>) -> bool {
        action is None && after == *self
    }

    open spec fn mouse_response(&self, mouse: MouseEvent, after: Self, action: Option<Action>) -> bool {
        action is None && after == *self
    }

    fn handle_key_events(&mut self, key: KeyEvent) -> (action: Option<Action>) {
        None
    }

    fn handle_mouse_events(&mut self, mouse: MouseEvent) -> (action: Option<Action>) {
        None
    }

    open spec fn update_response(
        &self,
        action: Action,
        data: Dataset,
        now: u64,
        after: Self,
        answer: Option<Action>,
    ) -> bool {
        &&& answer is None
        &&& after.spec_show_graph() == (if action@ is GraphToggle {
            !self.spec_show_graph()
        } else {
            self.spec_show_graph()
        })
    }

    /// The toggle of the graph shows a hidden graph and hides a shown one.
    fn update(&mut self, action: &Action, data: &Dataset, now: u64) -> (answer: Option<Action>) {
        if let Action::GraphToggle = action {
            self.show_graph = !self.show_graph;
        }
        None
    }
}

} // verus!
