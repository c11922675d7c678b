//! The application: its mode, its flags, its queue of actions and its
//! components. The event loop around it reads the terminal and draws; what is
//! decided on each event and each action is decided here.

use vstd::prelude::*;
use vstd::string::StringExecFns;
use crate::action::{actions_view, Action, ActionView};
use crate::aws::Dataset;
use crate::components::data_table::{after_key, DataTable, DataTableView};
use crate::components::header::{header_after, header_answer, Header};
use crate::components::top_left::TopLeft;
use crate::components::top_right::{time_after_tick, TopRight};
use crate::components::Component;
use crate::enums::TabsEnum;
use crate::event::{Event, KeyCode, KeyEvent};
use crate::input::input_text;
use crate::keybindings::{resolve, KeyBindings, StateKey};
use crate::mode::Mode;

verus! {

/// Work on the terminal that an action asks for.
#[derive(Clone, Copy, Debug, PartialEq, Eq, Structural)]
pub enum Effect {
    /// Clear the screen.
    ClearScreen,
    /// Take the new size of the terminal, then draw.
    Resize(u16, u16),
    /// Draw every component.
    Render,
}

/// What the event loop does after the actions of an event were handled.
#[derive(Clone, Copy, Debug, PartialEq, Eq, Structural)]
pub enum LoopStep {
    /// Wait for the next event.
    Continue,
    /// Hand the terminal back, wait to be resumed, then take it again.
    Suspend,
    /// Leave the loop.
    Stop,
}

/// The application as mathematical values.
pub struct AppView {
    /// Position of the selected tab in the tab bar.
    pub tab_index: nat,
    /// Whether the graph is shown.
    pub show_graph: bool,
    /// The time that the panel beside the graph last noted.
    pub last_update_time: u64,
    /// The table of the resources.
    pub table: DataTableView,
    /// Whether the loop is to end.
    pub should_quit: bool,
    /// Whether the terminal is to be handed back.
    pub should_suspend: bool,
    /// How key presses are read.
    pub mode: Mode,
    /// The actions that wait to be handled, the oldest first.
    pub queue: Seq<ActionView>,
    /// The message to print after the loop has ended.
    pub post_exit_msg: Option<Seq<char>>,
    /// The key bindings.
    pub bindings: Map<StateKey, Action>,
}

/// The actions that an event stands for by itself: the requests of the loop
/// as they are, and for a key press the action bound to the key, if any.
pub open spec fn event_actions(
    event: Event,
    mode: Mode,
    bindings: Map<StateKey, Action>,
) -> Seq<ActionView> {
    match event {
        Event::Quit => seq![ActionView::Quit],
        Event::Tick => seq![ActionView::Tick],
        Event::Render => seq![ActionView::Render],
        Event::Resize(w, h) => seq![ActionView::Resize(w, h)],
        Event::Key(key) => match resolve(bindings, mode, key.code, key.modifiers) {
            Some(action) => seq![action@],
            None => Seq::empty(),
        },
        _ => Seq::empty(),
    }
}

/// The action that the table gives for an event: the change to the normal
/// mode for the enter key in the input mode.
pub open spec fn table_event_actions(event: Event, table: DataTableView) -> Seq<ActionView> {
    match event {
        Event::Key(key) => if table.mode == Mode::Input && key.code == KeyCode::Enter {
            seq![ActionView::ModeChange(Mode::Normal)]
        } else {
            Seq::empty()
        },
        _ => Seq::empty(),
    }
}

/// The work on the terminal that an action asks for.
pub open spec fn effect_of(action: ActionView) -> Option<Effect> {
    match action {
        ActionView::ClearScreen => Some(Effect::ClearScreen),
        ActionView::Resize(w, h) => Some(Effect::Resize(w, h)),
        ActionView::Render => Some(Effect::Render),
        _ => None,
    }
}

/// The action that reports the end of a refresh: the arrival of the data, or
/// the error with its message where the refresh failed.
pub open spec fn refresh_report(outcome: Result<(), String>) -> ActionView {
    match outcome {
        Ok(_) => ActionView::DataLoaded,
        Err(message) => ActionView::Error(message@),
    }
}

/// The action by which a refresh reports its end. A failed refresh is
/// reported as an error, which the application handles like any other: it
/// keeps the message and asks to quit.
pub fn refresh_finished(outcome: Result<(), String>) -> (action: Action)
    ensures
        action@ == refresh_report(outcome),
{
    match outcome {
        Ok(_) => Action::DataLoaded,
        Err(message) => Action::Error(message),
    }
}

/// An optional action as a sequence of none or one.
pub open spec fn as_seq(action: Option<ActionView>) -> Seq<ActionView> {
    match action {
        Some(a) => seq![a],
        None => Seq::empty(),
    }
}

/// How much handling an action can cost: one for the action itself and one
/// for the answer that a component may give to it.
pub open spec fn action_weight(action: ActionView) -> nat {
    match action {
        ActionView::Tab => 2,
        ActionView::ModeChange(Mode::Input) => 2,
        _ => 1,
    }
}

/// The weight of a queue: the sum of the weights of its actions.
pub open spec fn queue_weight(queue: Seq<ActionView>) -> nat
    decreases queue.len(),
{
    if queue.len() == 0 {
        0
    } else {
        queue_weight(queue.drop_last()) + action_weight(queue.last())
    }
}

impl AppView {
    /// The flags, the mode and the message after an action.
    pub open spec fn apply(self, action: ActionView) -> AppView {
        match action {
            ActionView::ModeChange(mode) => AppView { mode, ..self },
            ActionView::Error(message) => AppView {
                post_exit_msg: Some(message),
                should_quit: true,
                ..self
            },
            ActionView::Quit => AppView { should_quit: true, ..self },
            ActionView::Suspend => AppView { should_suspend: true, ..self },
            ActionView::Resume => AppView { should_suspend: false, ..self },
            _ => self,
        }
    }

    /// What the components answer to an action, in the order in which they
    /// are asked: the tab bar, then the table.
    pub open spec fn answers(self, action: ActionView) -> Seq<ActionView> {
        as_seq(header_answer(self.tab_index, action)) + as_seq(self.table.answer(action))
    }

    /// The application after an action: its own flags are set, every
    /// component has seen the action, and the answers wait at the end of the
    /// queue.
    pub open spec fn handle(self, action: ActionView, data: Dataset, now: u64) -> AppView {
        let applied = self.apply(action);
        AppView {
            tab_index: header_after(self.tab_index, action),
            show_graph: if action is GraphToggle {
                !self.show_graph
            } else {
                self.show_graph
            },
            last_update_time: if action is Tick {
                time_after_tick(self.last_update_time, now)
            } else {
                self.last_update_time
            },
            table: self.table.update(action, data),
            queue: self.queue + self.answers(action),
            ..applied
        }
    }

    /// The application after an event, where `field` is the filter box
    /// before it: the actions that the event stands for wait at the end of
    /// the queue, then those that the components give, and the table has
    /// seen the key press.
    pub open spec fn handle_event(self, event: Event, field: tui_input::Input) -> AppView {
        AppView {
            queue: self.queue + event_actions(event, self.mode, self.bindings)
                + table_event_actions(event, self.table),
            table: match event {
                Event::Key(key) => after_key(self.table, field, key),
                _ => self.table,
            },
            ..self
        }
    }
}

/// The weight of two queues joined.
pub proof fn lemma_queue_weight_add(a: Seq<ActionView>, b: Seq<ActionView>)
    ensures
        queue_weight(a + b) == queue_weight(a) + queue_weight(b),
    decreases b.len(),
{
    if b.len() == 0 {
        assert(a + b =~= a);
    } else {
        lemma_queue_weight_add(a, b.drop_last());
        assert((a + b).drop_last() =~= a + b.drop_last());
        assert((a + b).last() == b.last());
    }
}

/// The answers to an action weigh less than the action: handling the oldest
/// action of a queue makes the queue lighter, so that handling action after
/// action empties it.
pub proof fn lemma_handling_makes_queue_lighter(
    app: AppView,
    action: ActionView,
    data: Dataset,
    now: u64,
)
    ensures
        queue_weight(app.answers(action)) < action_weight(action),
        queue_weight(app.handle(action, data, now).queue) < queue_weight(app.queue)
            + action_weight(action),
        app.handle(action, data, now).queue.subrange(0, app.queue.len() as int) == app.queue,
{
    let header = as_seq(header_answer(app.tab_index, action));
    let table = as_seq(app.table.answer(action));
    lemma_queue_weight_add(header, table);
    lemma_queue_weight_add(app.queue, app.answers(action));
    if header.len() > 0 {
        assert(header.drop_last() =~= Seq::empty());
    }
    if table.len() > 0 {
        assert(table.drop_last() =~= Seq::empty());
    }
    assert((app.queue + app.answers(action)).subrange(0, app.queue.len() as int) =~= app.queue);
}

/// Where the tab bar and the table show the same tab, they still do once the
/// data has arrived, and once a change of tab has been handled.
pub proof fn lemma_tab_bar_and_table_agree(app: AppView, tab: TabsEnum, data: Dataset, now: u64)
    requires
        app.tab_index == app.table.active_tab.spec_index(),
    ensures
        ({
            let loaded = app.handle(ActionView::DataLoaded, data, now);
            loaded.tab_index == loaded.table.active_tab.spec_index()
        }),
        ({
            let changed = app.handle(ActionView::TabChange(tab), data, now);
            changed.tab_index == tab.spec_index() && changed.table.active_tab == tab
        }),
        ({
            let changed = app.handle(ActionView::TabChange(tab), data, now);
            let loaded = changed.handle(ActionView::DataLoaded, data, now);
            loaded.tab_index == tab.spec_index() && loaded.table.active_tab == tab
        }),
{
}

/// While the table is loading, the change to the input mode does not last:
/// the table asks for the normal mode at the end of the queue, and once that
/// request is handled the mode is the normal one. While it is not loading,
/// the input mode is taken and nothing is asked for.
pub proof fn lemma_input_mode_reverts_iff_loading(app: AppView, data: Dataset, now: u64)
    ensures
        ({
            let asked = app.handle(ActionView::ModeChange(Mode::Input), data, now);
            let answered = asked.handle(ActionView::ModeChange(Mode::Normal), data, now);
            &&& app.table.is_loading ==> {
                &&& asked.queue == app.queue.push(ActionView::ModeChange(Mode::Normal))
                &&& asked.table.mode == app.table.mode
                &&& answered.mode == Mode::Normal
                &&& answered.table.mode == Mode::Normal
            }
            &&& !app.table.is_loading ==> {
                &&& asked.queue == app.queue
                &&& asked.mode == Mode::Input
                &&& asked.table.mode == Mode::Input
            }
        }),
{
    let asked = app.handle(ActionView::ModeChange(Mode::Input), data, now);
    assert(header_answer(app.tab_index, ActionView::ModeChange(Mode::Input)) is None);
    if app.table.is_loading {
        assert(asked.queue =~= app.queue.push(ActionView::ModeChange(Mode::Normal)));
    } else {
        assert(asked.queue =~= app.queue);
    }
}

/// The application.
pub struct App {
    header: Header,
    top_left: TopLeft,
    top_right: TopRight,
    data_table: DataTable,
    should_quit: bool,
    should_suspend: bool,
    mode: Mode,
    queue: Vec<Action>,
    keybindings: KeyBindings,
    post_exit_msg: Option<String>,
}

impl View for App {
    type V = AppView;

    closed spec fn view(&self) -> AppView {
        AppView {
            tab_index: self.header.spec_tab_index(),
            show_graph: self.top_left.spec_show_graph(),
            last_update_time: self.top_right.spec_last_update_time(),
            table: self.data_table@,
            should_quit: self.should_quit,
            should_suspend: self.should_suspend,
            mode: self.mode,
            queue: actions_view(self.queue@),
            post_exit_msg: match self.post_exit_msg {
                Some(message) => Some(message@),
                None => None,
            },
            bindings: self.keybindings@,
        }
    }
}

impl App {
    /// The components are consistent inside.
    pub closed spec fn components_wf(&self) -> bool {
        self.header.wf() && self.data_table.wf()
    }

    /// The text field of the table's filter box.
    pub closed spec fn filter_box(&self) -> tui_input::Input {
        self.data_table.field()
    }

    /// The application is consistent: a tab of the tab bar is selected, and
    /// the table is consistent.
    pub open spec fn wf(&self) -> bool {
        &&& self.components_wf()
        &&& self@.tab_index < TabsEnum::spec_count()
        &&& self@.table.wf()
        &&& self@.table.input == input_text(self.filter_box())
    }

    /// The application at its start, at the time `now`: the first tab, no
    /// rows, the normal mode, an empty queue, the usual key bindings.
    pub fn new(now: u64) -> (app: App)
        ensures
            app.wf(),
            app@.tab_index == 0,
            !app@.show_graph,
            app@.last_update_time == now,
            app@.table == DataTable::new_view(),
            !app@.should_quit,
            !app@.should_suspend,
            app@.mode == Mode::Normal,
            app@.queue == Seq::<ActionView>::empty(),
            app@.post_exit_msg is None,
            app@.bindings == crate::keybindings::table_of(crate::keybindings::default_bindings()),
    {
        let app = App {
            header: Header::new(),
            top_left: TopLeft::default(),
            top_right: TopRight::new(now),
            data_table: DataTable::new(),
            should_quit: false,
            should_suspend: false,
            mode: Mode::Normal,
            queue: Vec::new(),
            keybindings: KeyBindings::default(),
            post_exit_msg: None,
        };
        assert(actions_view(app.queue@) =~= Seq::empty());
        app
    }

    /// Prepares every component. The result tells whether a refresh of the
    /// data has to be started, which is so unless one is under way.
    pub fn init(&mut self) -> (refresh: bool)
        requires
            old(self).wf(),
        ensures
            final(self).wf(),
            refresh == !old(self)@.table.is_loading,
            final(self)@ == (AppView { table: old(self)@.table.load_data(), ..old(self)@ }),
    {
        let _ = self.header.init();
        let _ = self.top_left.init();
        let _ = self.top_right.init();
        self.data_table.init()
    }

    /// Puts an action at the end of the queue.
    pub fn send(&mut self, action: Action)
        requires
            old(self).wf(),
        ensures
            final(self).wf(),
            final(self)@ == (AppView { queue: old(self)@.queue.push(action@), ..old(self)@ }),
            final(self).filter_box() == old(self).filter_box(),
    {
        self.queue.push(action);
        assert(actions_view(self.queue@) =~= actions_view(old(self).queue@).push(action@));
    }

    /// Puts the report of a component that could not be drawn at the end of
    /// the queue, as an error.
    pub fn report_draw_failure(&mut self, detail: &str)
        requires
            old(self).wf(),
        ensures
            final(self).wf(),
            final(self)@ == (AppView {
                queue: old(self)@.queue.push(ActionView::Error("Failed to draw: "@ + detail@)),
                ..old(self)@
            }),
            final(self).filter_box() == old(self).filter_box(),
    {
        let message = String::from_str("Failed to draw: ").concat(detail);
        self.send(Action::Error(message));
    }

    /// Takes the oldest action from the queue, if there is one.
    pub fn next_action(&mut self) -> (action: Option<Action>)
        requires
            old(self).wf(),
        ensures
            final(self).wf(),
            action is Some == (old(self)@.queue.len() > 0),
            action matches Some(a) ==> {
                &&& a@ == old(self)@.queue[0]
                &&& final(self)@ == (AppView { queue: old(self)@.queue.drop_first(), ..old(self)@ })
            },
            action is None ==> final(self)@ == old(self)@,
            final(self).filter_box() == old(self).filter_box(),
    {
        if self.queue.len() == 0 {
            return None;
        }
        let action = self.queue.remove(0);
        assert(actions_view(self.queue@) =~= actions_view(old(self).queue@).drop_first());
        Some(action)
    }

    /// Puts the action bound to a key press in the current mode at the end of
    /// the queue. A key without a binding gives nothing.
    pub fn handle_key_event(&mut self, key_event: KeyEvent)
        requires
            old(self).wf(),
        ensures
            final(self).wf(),
            final(self)@ == (AppView {
                queue: old(self)@.queue + event_actions(
                    Event::Key(key_event),
                    old(self)@.mode,
                    old(self)@.bindings,
                ),
                ..old(self)@
            }),
            final(self).filter_box() == old(self).filter_box(),
    {
        let bound = match self.keybindings.get_action(self.mode, key_event) {
            Some(action) => Some(action.duplicate()),
            None => None,
        };
        match bound {
            Some(action) => {
                self.queue.push(action);
                assert(actions_view(self.queue@) =~= actions_view(old(self).queue@) + seq![action@]);
            },
            None => {
                assert(actions_view(self.queue@) =~= actions_view(old(self).queue@)
                    + Seq::<ActionView>::empty());
            },
        }
    }

    /// Turns an event into actions and lets every component see the
    /// event. The actions wait at the end of the queue: first what the event
    /// stands for by itself, then what the components give.
    pub fn handle_events(&mut self, event: Event)
        requires
            old(self).wf(),
        ensures
            final(self).wf(),
            final(self)@ == old(self)@.handle_event(event, old(self).filter_box()),
    {
        let ghost before = self@;
        match event {
            Event::Quit => self.send(Action::Quit),
            Event::Tick => self.send(Action::Tick),
            Event::Render => self.send(Action::Render),
            Event::Resize(x, y) => self.send(Action::Resize(x, y)),
            Event::Key(key) => self.handle_key_event(key),
            _ => {},
        }
        let ghost globals = event_actions(event, before.mode, before.bindings);
        assert(self@.queue =~= before.queue + globals);
        let from_header = self.header.handle_events(event);
        let from_top_left = self.top_left.handle_events(event);
        let from_top_right = self.top_right.handle_events(event);
        let from_table = self.data_table.handle_events(event);
        assert(from_header is None && from_top_left is None && from_top_right is None);
        match from_table {
            Some(action) => {
                self.queue.push(action);
                assert(actions_view(self.queue@) =~= before.queue + globals + seq![action@]);
            },
            None => {
                assert(actions_view(self.queue@) =~= before.queue + globals
                    + Seq::<ActionView>::empty());
            },
        }
    }

    /// Handles one action: sets the application's own flags, lets every
    /// component see the action, and puts their answers at the end of the
    /// queue. The result is the work on the terminal that the action asks for.
    /// `data` is read for the arrival of data and for a change of tab only.
    pub fn handle_action(&mut self, action: &Action, data: &Dataset, now: u64) -> (effect: Option<
        Effect,
    >)
        requires
            old(self).wf(),
        ensures
            final(self).wf(),
            final(self)@ == old(self)@.handle(action@, *data, now),
            effect == effect_of(action@),
    {
        let ghost before = self@;
        let effect = match action {
            Action::ModeChange(mode) => {
                self.mode = *mode;
                None
            },
            Action::Error(message) => {
                self.post_exit_msg = Some(message.clone());
                self.should_quit = true;
                None
            },
            Action::Quit => {
                self.should_quit = true;
                None
            },
            Action::Suspend => {
                self.should_suspend = true;
                None
            },
            Action::Resume => {
                self.should_suspend = false;
                None
            },
            Action::ClearScreen => Some(Effect::ClearScreen),
            Action::Resize(w, h) => Some(Effect::Resize(*w, *h)),
            Action::Render => Some(Effect::Render),
            _ => None,
        };
        let from_header = self.header.update(action, data, now);
        let from_top_left = self.top_left.update(action, data, now);
        let from_top_right = self.top_right.update(action, data, now);
        let from_table = self.data_table.update(action, data, now);
        let ghost first = as_seq(header_answer(before.tab_index, action@));
        let ghost second = as_seq(before.table.answer(action@));
        match from_header {
            Some(answer) => {
                self.queue.push(answer);
                assert(actions_view(self.queue@) =~= before.queue + first);
            },
            None => {
                assert(actions_view(self.queue@) =~= before.queue + first);
            },
        }
        let ghost middle = actions_view(self.queue@);
        match from_table {
            Some(answer) => {
                self.queue.push(answer);
                assert(actions_view(self.queue@) =~= middle + second);
            },
            None => {
                assert(actions_view(self.queue@) =~= middle + second);
            },
        }
        assert(before.queue + first + second =~= before.queue + (first + second));
        effect
    }

    /// Whether handling the action reads the data: the arrival of data and a
    /// change of tab load rows.
    pub fn reads_data(action: &Action) -> (reads: bool)
        ensures
            reads == (action@ is DataLoaded || action@ is TabChange),
    {
        match action {
            Action::DataLoaded => true,
            Action::TabChange(_) => true,
            _ => false,
        }
    }

    /// Decides how the loop goes on once the queue is empty. To suspend comes
    /// first: then the requests to resume and to clear the screen wait in the
    /// queue for the return. Else the loop stops if it was asked to quit.
    pub fn after_actions(&mut self) -> (step: LoopStep)
        requires
            old(self).wf(),
        ensures
            final(self).wf(),
            old(self)@.should_suspend ==> step == LoopStep::Suspend && final(self)@ == (AppView {
                queue: old(self)@.queue.push(ActionView::Resume).push(ActionView::ClearScreen),
                ..old(self)@
            }),
            !old(self)@.should_suspend ==> final(self)@ == old(self)@ && step == (if old(
                self,
            )@.should_quit {
                LoopStep::Stop
            } else {
                LoopStep::Continue
            }),
            final(self).filter_box() == old(self).filter_box(),
    {
        if self.should_suspend {
            self.send(Action::Resume);
            self.send(Action::ClearScreen);
            LoopStep::Suspend
        } else if self.should_quit {
            LoopStep::Stop
        } else {
            LoopStep::Continue
        }
    }

    /// How key presses are read.
    pub fn mode(&self) -> (mode: Mode)
        ensures
            mode == self@.mode,
    {
        self.mode
    }

    /// Whether the loop is to end.
    pub fn should_quit(&self) -> (quit: bool)
        ensures
            quit == self@.should_quit,
    {
        self.should_quit
    }

    /// Whether the terminal is to be handed back.
    pub fn should_suspend(&self) -> (suspend: bool)
        ensures
            suspend == self@.should_suspend,
    {
        self.should_suspend
    }

    /// The message to print after the loop has ended, if there is one.
    pub fn post_exit_msg(&self) -> (message: Option<&str>)
        ensures
            message is Some == self@.post_exit_msg is Some,
            message matches Some(text) ==> Some(text@) == self@.post_exit_msg,
    {
        match &self.post_exit_msg {
            Some(message) => Some(message.as_str()),
            None => None,
        }
    }

    /// Number of actions that wait in the queue.
    pub fn pending(&self) -> (count: usize)
        ensures
            count == self@.queue.len(),
    {
        self.queue.len()
    }

    /// The action at a position of the queue, the oldest at 0.
    pub fn queued(&self, index: usize) -> (action: &Action)
        requires
            index < self@.queue.len(),
        ensures
            action@ == self@.queue[index as int],
    {
        &self.queue[index]
    }

    /// The tab bar.
    pub fn header(&self) -> (header: &Header)
        ensures
            header.spec_tab_index() == self@.tab_index,
            self.wf() ==> header.wf(),
    {
        &self.header
    }

    /// The panel of the graph.
    pub fn top_left(&self) -> (panel: &TopLeft)
        ensures
            panel.spec_show_graph() == self@.show_graph,
    {
        &self.top_left
    }

    /// The panel beside the graph.
    pub fn top_right(&self) -> (panel: &TopRight)
        ensures
            panel.spec_last_update_time() == self@.last_update_time,
    {
        &self.top_right
    }

    /// The table of the resources.
    pub fn data_table(&self) -> (table: &DataTable)
        ensures
            table@ == self@.table,
            table.field() == self.filter_box(),
            self.wf() ==> table.wf(),
    {
        &self.data_table
    }
}

} // verus!
