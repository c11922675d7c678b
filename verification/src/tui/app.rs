//! The state of the browser.

use vstd::prelude::*;
use crate::aws::Dataset;
use crate::event::Event;
use crate::input::{apply_edit, edited, empty_input, input_text};
use crate::list::{ListState, ListView};
use crate::tui::command::{Command, InputCommand, ScrollType};
use crate::tui::ui::{info_at, spec_info_at, Tab, INFO_COUNT};

verus! {

/// The browser as mathematical values.
pub struct AppView {
    /// The resources that were loaded.
    pub data: Dataset,
    /// Selected tab.
    pub tab: Tab,
    /// Position of the category on show.
    pub info_index: nat,
    /// Selected block.
    pub block_index: nat,
    /// The rows on show.
    pub list: ListView,
    /// Whether the details are shown.
    pub show_details: bool,
    /// The text of the search field.
    pub input: Seq<char>,
    /// Whether key presses go to the search field.
    pub input_mode: bool,
    /// Whether the application is to end.
    pub should_quit: bool,
}

/// A position moved `amount` steps forward among `count` positions, round
/// the end; a step too long to count starts from the first position.
pub open spec fn index_forward(index: nat, amount: usize, count: nat) -> nat {
    if index + amount > usize::MAX {
        0
    } else {
        ((index + amount) % (count as int)) as nat
    }
}

/// A position moved `amount` steps backward among `count` positions: the
/// last position where the step passes the first.
pub open spec fn index_backward(index: nat, amount: usize, count: nat) -> nat {
    if amount > index {
        (count - 1) as nat
    } else {
        (index - amount) as nat
    }
}

impl AppView {
    /// The list shows one of the categories and is consistent.
    pub open spec fn wf(self) -> bool {
        self.info_index < INFO_COUNT && self.list.wf()
    }

    /// The browser with the list made anew for the category on show: its
    /// rows pass the text of the search field, the first one is selected.
    pub open spec fn handle_tab(self) -> AppView {
        AppView {
            list: ListView {
                rows: self.data.rows(spec_info_at(self.info_index)),
                filter: self.input,
                selected: 0,
                offset: 0,
            },
            ..self
        }
    }

    /// The browser on another tab, with the list of the tab's category.
    pub open spec fn on_tab(self, tab: Tab) -> AppView {
        AppView { tab, info_index: tab.spec_index(), ..self }.handle_tab()
    }

    /// The browser on another category.
    pub open spec fn on_info(self, info_index: nat) -> AppView {
        AppView { info_index, ..self }.handle_tab()
    }

    /// The browser after a command of the input mode, where the search field
    /// holds `input` afterwards.
    pub open spec fn after_input(self, command: InputCommand, input: Seq<char>) -> AppView {
        match command {
            InputCommand::Handle(_) => AppView { input, ..self },
            InputCommand::Enter => AppView { input_mode: true, ..self },
            InputCommand::Confirm => AppView { input_mode: false, ..self },
            InputCommand::Resume(_) => if self.input.len() > 0 {
                AppView { input_mode: true, input, ..self }
            } else {
                self
            },
            InputCommand::Exit => AppView { input: Seq::empty(), input_mode: false, ..self },
        }.handle_tab()
    }

    /// The browser after a command, where the search field holds `input`
    /// afterwards.
    pub open spec fn run(self, command: Command, input: Seq<char>) -> AppView {
        match command {
            Command::Input(command) => self.after_input(command, input),
            Command::ShowDetails => AppView { show_details: !self.show_details, ..self },
            Command::Next(scroll_type, amount) => match scroll_type {
                ScrollType::Tab => self.on_tab(
                    Tab::spec_from(
                        index_forward(self.tab.spec_index(), amount, Tab::spec_count()) as usize,
                    ),
                ),
                ScrollType::Table => self.on_info(
                    index_forward(self.info_index, amount, INFO_COUNT as nat),
                ),
                ScrollType::List => AppView { list: self.list.next(amount as nat), ..self },
                ScrollType::Block => AppView { block_index: 0, ..self },
            },
            Command::Previous(scroll_type, amount) => match scroll_type {
                ScrollType::Tab => self.on_tab(
                    Tab::spec_from(
                        index_backward(self.tab.spec_index(), amount, Tab::spec_count()) as usize,
                    ),
                ),
                ScrollType::Table => self.on_info(
                    index_backward(self.info_index, amount, INFO_COUNT as nat),
                ),
                ScrollType::List => AppView { list: self.list.previous(amount as nat), ..self },
                ScrollType::Block => AppView {
                    block_index: if self.block_index == 0 {
                        0
                    } else {
                        (self.block_index - 1) as nat
                    },
                    ..self
                },
            },
            Command::Top => AppView { list: self.list.first(), ..self },
            Command::Bottom => AppView { list: self.list.last(), ..self },
            Command::Increment => self,
            Command::Decrement => self,
            Command::Exit => if self.show_details {
                AppView { show_details: false, ..self }
            } else {
                AppView { should_quit: true, ..self }
            },
            Command::Nothing => self,
        }
    }
}

/// The edit that an event stands for in a text field: that of a key press,
/// if it has one.
pub open spec fn edit_of(event: Event) -> Option<tui_input::InputRequest> {
    match event {
        Event::Key(key) => key.edit,
        _ => None,
    }
}

/// The text of the search field after a command. A command that hands the
/// field an event leaves what the edit makes of the field; to resume does so
/// only where the field holds text; to leave the input mode empties the
/// field; every other command leaves the text as it is.
pub open spec fn input_after(field: tui_input::Input, command: Command) -> Seq<char> {
    match command {
        Command::Input(InputCommand::Handle(event)) => edited(field, edit_of(event)),
        Command::Input(InputCommand::Resume(event)) => if input_text(field).len() > 0 {
            edited(field, edit_of(event))
        } else {
            input_text(field)
        },
        Command::Input(InputCommand::Exit) => Seq::empty(),
        _ => input_text(field),
    }
}

/// The keys of the browser and what they do.
pub open spec fn spec_key_bindings() -> Seq<(&'static str, &'static str)> {
    seq![
        ("Enter", "Details"),
        ("/", "Search"),
        ("h/j/k/l", "Scroll"),
        ("n/p", "Toggle"),
        ("Tab", "Next"),
        ("q", "Quit"),
    ]
}

/// Application state.
pub struct App {
    data: Dataset,
    tab: Tab,
    info_index: usize,
    block_index: usize,
    list: ListState,
    show_details: bool,
    input: tui_input::Input,
    input_mode: bool,
    should_quit: bool,
}

impl View for App {
    type V = AppView;

    closed spec fn view(&self) -> AppView {
        AppView {
            data: self.data,
            tab: self.tab,
            info_index: self.info_index as nat,
            block_index: self.block_index as nat,
            list: self.list@,
            show_details: self.show_details,
            input: input_text(self.input),
            input_mode: self.input_mode,
            should_quit: self.should_quit,
        }
    }
}

impl App {
    /// The search field.
    pub closed spec fn field(&self) -> tui_input::Input {
        self.input
    }

    /// The list inside the browser is consistent.
    pub closed spec fn list_wf(&self) -> bool {
        self.list.wf()
    }

    /// The browser is consistent.
    pub open spec fn wf(&self) -> bool {
        &&& self.list_wf()
        &&& self@.wf()
        &&& self@.input == input_text(self.field())
    }

    /// Constructs a new instance: the first tab with the rows of its
    /// category, an empty search field, nothing else set.
    pub fn new(data: Dataset) -> (app: App)
        ensures
            app.wf(),
            app@ == (AppView {
                data,
                tab: Tab::CoreDevices,
                info_index: 0,
                block_index: 0,
                list: ListView { rows: Seq::empty(), filter: Seq::empty(), selected: 0, offset: 0 },
                show_details: false,
                input: Seq::empty(),
                input_mode: false,
                should_quit: false,
            }).handle_tab(),
    {
        let mut app = App {
            data,
            tab: Tab::default(),
            info_index: 0,
            block_index: 0,
            list: ListState::new(),
            show_details: false,
            input: empty_input(),
            input_mode: false,
            should_quit: false,
        };
        app.reload();
        app
    }

    /// Hands an event to the search field, if it is a key that stands for an
    /// edit: the field then holds the text that the edit makes of it. Any
    /// other event leaves the field, and nothing else changes.
    fn edit_input(&mut self, event: Event)
        ensures
            final(self)@ == (AppView {
                input: edited(old(self).field(), edit_of(event)),
                ..old(self)@
            }),
            final(self).list_wf() == old(self).list_wf(),
    {
        if let Event::Key(key) = event {
            if let Some(request) = key.edit {
                let _ = apply_edit(&mut self.input, request);
            }
        }
    }

    /// Runs a command and updates the state.
    pub fn run_command(&mut self, command: Command)
        requires
            old(self).wf(),
        ensures
            final(self).wf(),
            final(self)@ == old(self)@.run(command, input_after(old(self).field(), command)),
    {
        match command {
            Command::Input(command) => {
                match command {
                    InputCommand::Handle(event) => {
                        self.edit_input(event);
                    },
                    InputCommand::Enter => {
                        self.input_mode = true;
                    },
                    InputCommand::Confirm => {
                        self.input_mode = false;
                    },
                    InputCommand::Resume(event) => {
                        if !self.input.value().is_empty() {
                            self.input_mode = true;
                            self.edit_input(event);
                        }
                    },
                    InputCommand::Exit => {
                        self.input = empty_input();
                        self.input_mode = false;
                    },
                }
                self.reload();
            },
            Command::ShowDetails => {
                self.show_details = !self.show_details;
            },
            Command::Next(scroll_type, amount) => match scroll_type {
                ScrollType::Tab => {
                    let index = match self.tab.index().checked_add(amount) {
                        Some(sum) => sum,
                        None => 0,
                    } % Tab::get_headers().len();
                    self.tab = Tab::from(index);
                    self.info_index = self.tab.index();
                    self.reload();
                },
                ScrollType::Table => {
                    self.info_index = match self.info_index.checked_add(amount) {
                        Some(sum) => sum,
                        None => 0,
                    } % INFO_COUNT;
                    self.reload();
                },
                ScrollType::List => {
                    self.list.next(amount);
                },
                ScrollType::Block => {
                    // Only one block for now.
                    self.block_index = 0;
                },
            },
            Command::Previous(scroll_type, amount) => match scroll_type {
                ScrollType::Tab => {
                    let index = match self.tab.index().checked_sub(amount) {
                        Some(difference) => difference,
                        None => Tab::get_headers().len() - 1,
                    };
                    self.tab = Tab::from(index);
                    self.info_index = self.tab.index();
                    self.reload();
                },
                ScrollType::Table => {
                    self.info_index = match self.info_index.checked_sub(amount) {
                        Some(difference) => difference,
                        None => INFO_COUNT - 1,
                    };
                    self.reload();
                },
                ScrollType::List => {
                    self.list.previous(amount);
                },
                ScrollType::Block => {
                    // Only one block for now.
                    self.block_index = match self.block_index.checked_sub(1) {
                        Some(difference) => difference,
                        None => 0,
                    };
                },
            },
            Command::Top => {
                self.list.first();
            },
            Command::Bottom => {
                self.list.last();
            },
            Command::Increment => {},
            Command::Decrement => {},
            Command::Exit => {
                if self.show_details {
                    self.show_details = false;
                } else {
                    self.should_quit = true;
                }
            },
            Command::Nothing => {},
        }
    }

    /// Update the state based on selected tab: the list is made anew from
    /// the rows of the category on show that pass the text of the search
    /// field, compared without regard to case.
    pub fn handle_tab(&mut self)
        requires
            old(self).wf(),
        ensures
            final(self).wf(),
            final(self)@ == old(self)@.handle_tab(),
    {
        self.reload();
    }

    /// Makes the list anew for the category on show.
    fn reload(&mut self)
        requires
            old(self)@.info_index < INFO_COUNT,
        ensures
            final(self).wf(),
            final(self)@ == old(self)@.handle_tab(),
    {
        let info = info_at(self.info_index);
        let mut list = ListState::with_items(self.data.info(&info));
        list.filter(self.input.value());
        self.list = list;
    }

    /// Returns the key bindings: the keys and what they do.
    pub fn get_key_bindings(&self) -> (bindings: Vec<(&'static str, &'static str)>)
        ensures
            bindings@ == spec_key_bindings(),
    {
        let mut bindings: Vec<(&'static str, &'static str)> = Vec::new();
        bindings.push(("Enter", "Details"));
        bindings.push(("/", "Search"));
        bindings.push(("h/j/k/l", "Scroll"));
        bindings.push(("n/p", "Toggle"));
        bindings.push(("Tab", "Next"));
        bindings.push(("q", "Quit"));
        assert(bindings@ =~= spec_key_bindings());
        bindings
    }

    /// Selected tab.
    pub fn tab(&self) -> (tab: Tab)
        ensures
            tab == self@.tab,
    {
        self.tab
    }

    /// Position of the category on show.
    pub fn info_index(&self) -> (index: usize)
        ensures
            index == self@.info_index,
    {
        self.info_index
    }

    /// Selected block.
    pub fn block_index(&self) -> (index: usize)
        ensures
            index == self@.block_index,
    {
        self.block_index
    }

    /// The rows on show.
    pub fn list(&self) -> (list: &ListState)
        ensures
            list@ == self@.list,
            self.wf() ==> list.wf(),
    {
        &self.list
    }

    /// Whether the details are shown.
    pub fn show_details(&self) -> (shown: bool)
        ensures
            shown == self@.show_details,
    {
        self.show_details
    }

    /// The search field.
    pub fn input(&self) -> (field: &tui_input::Input)
        ensures
            *field == self.field(),
            input_text(*field) == self@.input,
    {
        &self.input
    }

    /// Whether key presses go to the search field.
    pub fn input_mode(&self) -> (on: bool)
        ensures
            on == self@.input_mode,
    {
        self.input_mode
    }

    /// Whether the application is to end.
    pub fn should_quit(&self) -> (quit: bool)
        ensures
            quit == self@.should_quit,
    {
        self.should_quit
    }
}

} // verus!
