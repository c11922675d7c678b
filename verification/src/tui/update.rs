//! The picker: a list to search and to choose one row from.

use vstd::prelude::*;
use crate::event::{KeyCode, KeyEvent};
use crate::list::{ListState, ListView};
use crate::text::{pop_char, push_char};

verus! {

/// How the picker reads key presses.
#[derive(Clone, Copy, Debug, PartialEq, Eq, Structural)]
pub enum InputMode {
    /// Keys move the selection and choose.
    Select,
    /// Keys write the search text.
    Search,
    /// The selected row is shown in full.
    Preview,
}

/// The picker as mathematical values.
pub struct PickerView {
    /// How key presses are read.
    pub input_mode: InputMode,
    /// The rows, filtered by the search text.
    pub items: ListView,
    /// The search text.
    pub search: Seq<char>,
    /// The row that was chosen.
    pub task_to_exec: Option<Seq<Seq<char>>>,
    /// Whether the picker is to end.
    pub should_quit: bool,
}

impl PickerView {
    /// The list is consistent and filtered by the search text.
    pub open spec fn wf(self) -> bool {
        self.items.wf() && self.items.filter == self.search
    }

    /// The picker with another search text, the list filtered by it.
    pub open spec fn searching(self, search: Seq<char>) -> PickerView {
        PickerView { search, items: self.items.set_filter(search), ..self }
    }

    /// The picker after a key press.
    pub open spec fn update(self, key_event: KeyEvent) -> PickerView {
        let control = key_event.modifiers.bits == 2;
        match self.input_mode {
            InputMode::Select => match key_event.code {
                KeyCode::Char(c) => if c == 'c' || c == 'C' {
                    if control {
                        PickerView { should_quit: true, ..self }
                    } else {
                        self
                    }
                } else if c == 'q' {
                    PickerView { should_quit: true, ..self }
                } else if c == 'p' {
                    if self.items.selected_row() is Some {
                        PickerView { input_mode: InputMode::Preview, ..self }
                    } else {
                        self
                    }
                } else if c == 'j' {
                    PickerView { items: self.items.next(1), ..self }
                } else if c == 'k' {
                    PickerView { items: self.items.previous(1), ..self }
                } else if c == '/' {
                    PickerView { input_mode: InputMode::Search, ..self }
                } else {
                    self
                },
                KeyCode::Enter => if self.items.selected_row() is Some {
                    PickerView {
                        task_to_exec: self.items.selected_row(),
                        should_quit: true,
                        ..self
                    }
                } else {
                    self
                },
                KeyCode::Down => PickerView { items: self.items.next(1), ..self },
                KeyCode::Up => PickerView { items: self.items.previous(1), ..self },
                _ => self,
            },
            InputMode::Search => match key_event.code {
                KeyCode::Char(c) => self.searching(self.search.push(c)),
                KeyCode::Backspace => self.searching(
                    if self.search.len() > 0 {
                        self.search.drop_last()
                    } else {
                        self.search
                    },
                ),
                KeyCode::Esc => PickerView {
                    input_mode: InputMode::Select,
                    ..self.searching(Seq::empty())
                },
                KeyCode::Enter => PickerView { input_mode: InputMode::Select, ..self },
                _ => self,
            },
            InputMode::Preview => match key_event.code {
                KeyCode::Char(c) => if c == 'q' || c == 'p' {
                    PickerView { input_mode: InputMode::Select, ..self }
                } else {
                    self
                },
                _ => self,
            },
        }
    }
}

/// A list to search and to choose one row from.
pub struct Picker {
    input_mode: InputMode,
    items: ListState,
    search: String,
    task_to_exec: Option<Vec<String>>,
    should_quit: bool,
}

impl View for Picker {
    type V = PickerView;

    closed spec fn view(&self) -> PickerView {
        PickerView {
            input_mode: self.input_mode,
            items: self.items@,
            search: self.search@,
            task_to_exec: match self.task_to_exec {
                Some(row) => Some(row.deep_view()),
                None => None,
            },
            should_quit: self.should_quit,
        }
    }
}

impl Picker {
    /// The list inside the picker is consistent.
    pub closed spec fn items_wf(&self) -> bool {
        self.items.wf()
    }

    /// The picker is consistent.
    pub open spec fn wf(&self) -> bool {
        self.items_wf() && self@.wf()
    }

    /// A picker of the given rows, without a search text, the first row
    /// selected.
    pub fn new(rows: Vec<Vec<String>>) -> (picker: Picker)
        ensures
            picker.wf(),
            picker@ == (PickerView {
                input_mode: InputMode::Select,
                items: ListView {
                    rows: rows.deep_view(),
                    filter: Seq::empty(),
                    selected: 0,
                    offset: 0,
                },
                search: Seq::empty(),
                task_to_exec: None,
                should_quit: false,
            }),
    {
        Picker {
            input_mode: InputMode::Select,
            items: ListState::with_items(rows),
            search: String::new(),
            task_to_exec: None,
            should_quit: false,
        }
    }

    /// Asks the picker to end.
    pub fn quit(&mut self)
        ensures
            final(self)@ == (PickerView { should_quit: true, ..old(self)@ }),
            final(self).items_wf() == old(self).items_wf(),
    {
        self.should_quit = true;
    }

    /// A copy of the selected row, if there is one.
    fn selected_copy(&self) -> (row: Option<Vec<String>>)
        requires
            self.wf(),
        ensures
            row is Some == self@.items.selected_row() is Some,
            row matches Some(r) ==> Some(r.deep_view()) == self@.items.selected_row(),
    {
        match self.items.selected_row() {
            Some(selected) => {
                let mut copy: Vec<String> = Vec::new();
                let mut i: usize = 0;
                while i < selected.len()
                    invariant
                        i <= selected.len(),
                        copy@.len() == i,
                        forall|k: int| 0 <= k < i ==> (#[trigger] copy@[k])@ == selected@[k]@,
                    decreases selected.len() - i,
                {
                    copy.push(selected[i].clone());
                    i += 1;
                }
                assert(copy.deep_view() =~= selected.deep_view());
                Some(copy)
            },
            None => None,
        }
    }

    /// How key presses are read.
    pub fn input_mode(&self) -> (mode: InputMode)
        ensures
            mode == self@.input_mode,
    {
        self.input_mode
    }

    /// The rows, filtered by the search text.
    pub fn items(&self) -> (items: &ListState)
        ensures
            items@ == self@.items,
            self.wf() ==> items.wf(),
    {
        &self.items
    }

    /// The search text.
    pub fn search(&self) -> (search: &str)
        ensures
            search@ == self@.search,
    {
        self.search.as_str()
    }

    /// The row that was chosen, if one was.
    pub fn task_to_exec(&self) -> (row: Option<&Vec<String>>)
        ensures
            row is Some == self@.task_to_exec is Some,
            row matches Some(r) ==> Some(r.deep_view()) == self@.task_to_exec,
    {
        match &self.task_to_exec {
            Some(row) => Some(row),
            None => None,
        }
    }

    /// Whether the picker is to end.
    pub fn should_quit(&self) -> (quit: bool)
        ensures
            quit == self@.should_quit,
    {
        self.should_quit
    }
}

/// Reacts to a key press. While selecting, keys move the selection, open the
/// preview or the search, choose the selected row, or quit. While searching,
/// letters and backspace change the search text, by which the rows are
/// filtered at once; escape drops the text; enter and escape go back to
/// selecting. In the preview, two keys go back to selecting.
pub fn update(app: &mut Picker, key_event: KeyEvent)
    requires
        old(app).wf(),
    ensures
        final(app).wf(),
        final(app)@ == old(app)@.update(key_event),
{
    let control = key_event.modifiers.bits == 2;
    match app.input_mode {
        InputMode::Select => match key_event.code {
            // Leave on control and c, or on q.
            KeyCode::Char('c') | KeyCode::Char('C') => {
                if control {
                    app.quit();
                }
            },
            KeyCode::Char('q') => app.quit(),
            KeyCode::Char('p') => {
                if app.items.selected_row().is_some() {
                    app.input_mode = InputMode::Preview;
                }
            },
            KeyCode::Enter => {
                let chosen = app.selected_copy();
                if chosen.is_some() {
                    app.task_to_exec = chosen;
                    app.quit();
                }
            },
            KeyCode::Down | KeyCode::Char('j') => app.items.next(1),
            KeyCode::Up | KeyCode::Char('k') => app.items.previous(1),
            KeyCode::Char('/') => app.input_mode = InputMode::Search,
            _ => {},
        },
        InputMode::Search => match key_event.code {
            KeyCode::Char(c) => {
                push_char(&mut app.search, c);
                app.items.filter(app.search.as_str());
            },
            KeyCode::Backspace => {
                pop_char(&mut app.search);
                app.items.filter(app.search.as_str());
            },
            KeyCode::Esc => {
                app.search = String::new();
                app.items.filter(app.search.as_str());
                app.input_mode = InputMode::Select;
            },
            KeyCode::Enter => app.input_mode = InputMode::Select,
            _ => {},
        },
        InputMode::Preview => match key_event.code {
            KeyCode::Char('q') | KeyCode::Char('p') => app.input_mode = InputMode::Select,
            _ => {},
        },
    }
}

} // verus!
