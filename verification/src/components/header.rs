//! The tab bar.

use vstd::prelude::*;
use vstd::string::StringExecFns;
use crate::action::{Action, ActionView};
use crate::aws::Dataset;
use crate::components::Component;
use crate::enums::TabsEnum;
use crate::event::{KeyEvent, MouseEvent};

verus! {

/// The tab bar: it knows which tab is selected.
pub struct Header {
    tab_index: usize,
}

/// A title of the tab bar.
pub struct TabLabel {
    /// The title, followed by a space.
    pub text: String,
    /// Whether the tab is the selected one.
    pub selected: bool,
}

/// The selected tab after a step to the next tab: the one after it, and the
/// first after the last.
pub open spec fn next_tab_index(index: nat) -> nat {
    (index + 1) % TabsEnum::spec_count()
}

/// The selected tab after an action.
pub open spec fn header_after(index: nat, action: ActionView) -> nat {
    match action {
        ActionView::Tab => next_tab_index(index),
        ActionView::TabChange(tab) => tab.spec_index(),
        _ => index,
    }
}

/// What the tab bar answers to an action: a step to the next tab announces
/// the tab that is now selected.
pub open spec fn header_answer(index: nat, action: ActionView) -> Option<ActionView> {
    match action {
        ActionView::Tab => match TabsEnum::spec_from_index(next_tab_index(index)) {
            Some(tab) => Some(ActionView::TabChange(tab)),
            None => None,
        },
        _ => None,
    }
}

impl Header {
    /// Position of the selected tab.
    pub closed spec fn spec_tab_index(&self) -> nat {
        self.tab_index as nat
    }

    /// A tab bar with the first tab selected.
    pub fn new() -> (header: Header)
        ensures
            header.wf(),
            header.spec_tab_index() == 0,
    {
        Header { tab_index: 0 }
    }

    /// Position of the selected tab.
    pub fn tab_index(&self) -> (index: usize)
        ensures
            index == self.spec_tab_index(),
    {
        self.tab_index
    }

    /// The titles of the tab bar in order, each followed by a space, with a
    /// mark on the selected one.
    pub fn make_tabs(&self) -> (labels: Vec<TabLabel>)
        requires
            self.wf(),
        ensures
            labels@.len() == TabsEnum::spec_count(),
            forall|i: int|
                0 <= i < labels@.len() ==> {
                    &&& TabsEnum::spec_from_index(i as nat) matches Some(tab)
                    &&& (#[trigger] labels@[i]).text@ == tab.spec_title() + " "@
                    &&& labels@[i].selected == (i == self.spec_tab_index())
                },
    {
        let mut labels: Vec<TabLabel> = Vec::new();
        let mut i: usize = 0;
        while i < TabsEnum::count()
            invariant
                i <= TabsEnum::spec_count(),
                labels@.len() == i,
                forall|k: int|
                    0 <= k < i ==> {
                        &&& TabsEnum::spec_from_index(k as nat) matches Some(tab)
                        &&& (#[trigger] labels@[k]).text@ == tab.spec_title() + " "@
                        &&& labels@[k].selected == (k == self.spec_tab_index())
                    },
            decreases TabsEnum::spec_count() - i,
        {
            match TabsEnum::from_index(i) {
                Some(tab) => {
                    let text = String::from_str(tab.title()).concat(" ");
                    labels.push(TabLabel { text, selected: i == self.tab_index });
                },
                None => {},
            }
            i += 1;
        }
        labels
    }

    /// Selects the next tab, the first after the last, and announces it.
    pub fn next_tab(&mut self) -> (action: Option<Action>)
        requires
            old(self).wf(),
        ensures
            final(self).wf(),
            final(self).spec_tab_index() == next_tab_index(old(self).spec_tab_index()),
            action matches Some(a) && a@ == ActionView::TabChange(
                TabsEnum::spec_from_index(final(self).spec_tab_index())->0,
            ),
    {
        self.tab_index = (self.tab_index + 1) % TabsEnum::count();
        match TabsEnum::from_index(self.tab_index) {
            Some(tab) => Some(Action::TabChange(tab)),
            None => None,
        }
    }
}

impl Component for Header {
    open spec fn wf(&self) -> bool {
        self.spec_tab_index() < TabsEnum::spec_count()
    }

    open spec fn init_response(&self, after: Self, refresh: bool) -> bool {
        !refresh && after == *self
    }

    fn init(&mut self) -> (refresh: bool) {
        false
    }

    open spec fn key_response(&self, key: KeyEvent, after: Self, action: Option<Action>) -> bool {
        action is None && after == *self
    }

    open spec fn mouse_response(&self, mouse: MouseEvent, after: Self, action: Option<Action>) -> bool {
        action is None && after == *self
    }

    fn handle_key_events(&mut self, key: KeyEvent) -> (action: Option<Action>) {
        None
    }

    fn handle_mouse_events(&mut self, mouse: MouseEvent) -> (action: Option<Action>) {
        None
    }

    open spec fn update_response(
        &self,
        action: Action,
        data: Dataset,
        now: u64,
        after: Self,
        answer: Option<Action>,
    ) -> bool {
        &&& after.spec_tab_index() == header_after(self.spec_tab_index(), action@)
        &&& answer is Some == header_answer(self.spec_tab_index(), action@) is Some
        &&& answer matches Some(a) ==> Some(a@) == header_answer(self.spec_tab_index(), action@)
    }

    /// A step to the next tab selects it and announces it; the change to a
    /// given tab selects that tab.
    fn update(&mut self, action: &Action, data: &Dataset, now: u64) -> (answer: Option<Action>) {
        match action {
            Action::Tab => self.next_tab(),
            Action::TabChange(tab_enum) => {
                self.tab_index = tab_enum.index();
                None
            },
            _ => None,
        }
    }
}

} // verus!
