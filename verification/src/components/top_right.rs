//! The panel beside the graph.

use vstd::prelude::*;
use crate::action::{Action, ActionView};
use crate::aws::Dataset;
use crate::components::Component;
use crate::event::{KeyEvent, MouseEvent};

verus! {

/// Nanoseconds after which the panel notes a new time.
pub const UPDATE_INTERVAL: u64 = 5_000_000_000;

/// The panel beside the graph: it keeps the time at which it last noted one.
/// Times are nanoseconds on the clock of the event loop.
pub struct TopRight {
    last_update_time: u64,
}

/// The time that the panel keeps after a tick at `now`: the new time once
/// more than five seconds have passed, else the old one.
pub open spec fn time_after_tick(last: u64, now: u64) -> u64 {
    if now - last > UPDATE_INTERVAL {
        now
    } else {
        last
    }
}

impl TopRight {
    /// The time that the panel last noted.
    pub closed spec fn spec_last_update_time(&self) -> u64 {
        self.last_update_time
    }

    /// A panel made at the time `now`.
    pub fn new(now: u64) -> (panel: TopRight)
        ensures
            panel.spec_last_update_time() == now,
    {
        TopRight { last_update_time: now }
    }

    /// The time that the panel last noted.
    pub fn last_update_time(&self) -> (time: u64)
        ensures
            time == self.spec_last_update_time(),
    {
        self.last_update_time
    }

    /// Notes the time `now` once more than five seconds have passed since the
    /// time last noted.
    pub fn app_tick(&mut self, now: u64)
        ensures
            final(self).spec_last_update_time() == time_after_tick(
                old(self).spec_last_update_time(),
                now,
            ),
    {
        if now > self.last_update_time && now - self.last_update_time > UPDATE_INTERVAL {
            self.last_update_time = now;
        }
    }
}

impl Component for TopRight {
    open spec fn wf(&self) -> bool {
        true
    }

    open spec fn init_response(&self, after: Self, refresh: bool) -> bool {
        !refresh && after == *self
    }

    fn init(&mut self) -> (refresh: bool) {
        false
    }

    open spec fn key_response(&self, key: KeyEvent, after: Self, action: Option<Action>) -> bool {
        action is None && after == *self
    }

    open spec fn mouse_response(&self, mouse: MouseEvent, after: Self, action: Option<Action>) -> bool {
        action is None && after == *self
    }

    fn handle_key_events(&mut self, key: KeyEvent) -> (action: Option<Action>) {
        None
    }

    fn handle_mouse_events(&mut self, mouse: MouseEvent) -> (action: Option<Action>) {
        None
    }

    open spec fn update_response(
        &self,
        action: Action,
        data: Dataset,
        now: u64,
        after: Self,
        answer: Option<Action>,
    ) -> bool {
        &&& answer is None
        &&& after.spec_last_update_time() == (if action@ is Tick {
            time_after_tick(self.spec_last_update_time(), now)
        } else {
            self.spec_last_update_time()
        })
    }

    /// A tick lets the panel look at the clock; nothing else concerns it.
    fn update(&mut self, action: &Action, data: &Dataset, now: u64) -> (answer: Option<Action>) {
        if let Action::Tick = action {
            self.app_tick(now);
        }
        None
    }
}

} // verus!
