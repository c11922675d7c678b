//! The table of the resources, with its filter box and its refresh state.

use vstd::prelude::*;
use vstd::string::StringExecFns;
use crate::action::{Action, ActionView};
use crate::aws::{Dataset, Info, Property};
use crate::components::Component;
use crate::enums::TabsEnum;
use crate::event::{KeyCode, KeyEvent, MouseEvent};
use crate::input::{apply_edit, edited, empty_input, input_text};
use crate::layout::{Margin, Rect};
use crate::list::{ListState, ListView};
use crate::mode::Mode;
use crate::span::{Span, SpanView, Tone};
use crate::text::{decimal, decimal_of};

verus! {

/// Width of the filter box in cells.
pub const INPUT_SIZE: u16 = 30;

/// Width of the text of the filter box in cells: the box less its border and
/// one cell for the cursor. The text scrolls once the cursor passes it.
pub const INPUT_TEXT_WIDTH: usize = 27;

/// Number of glyphs of the spinner.
pub const SPINNER_COUNT: usize = 6;

/// What the table holds, as mathematical values.
pub struct DataTableView {
    /// The tab on show.
    pub active_tab: TabsEnum,
    /// The rows with their filter and selection.
    pub list: ListView,
    /// The text in the filter box.
    pub input: Seq<char>,
    /// Whether a refresh of the data is under way.
    pub is_loading: bool,
    /// How key presses are read.
    pub mode: Mode,
    /// Which glyph of the spinner is on show.
    pub spinner_index: nat,
}

impl DataTableView {
    /// The list is consistent and the spinner shows one of its glyphs.
    pub open spec fn wf(self) -> bool {
        self.list.wf() && self.spinner_index < SPINNER_COUNT
    }

    /// The table after the start of a refresh: the rows are dropped and the
    /// table is loading. Nothing starts while a refresh is under way.
    pub open spec fn load_data(self) -> DataTableView {
        if self.is_loading {
            self
        } else {
            DataTableView { is_loading: true, list: self.list.load(Seq::empty()), ..self }
        }
    }

    /// The table after a change to `tab`: the rows of the tab are loaded, the
    /// filter stays in force, the first row is selected.
    pub open spec fn tab_changed(self, tab: TabsEnum, data: Dataset) -> DataTableView {
        DataTableView {
            active_tab: tab,
            list: self.list.load(data.rows(Info::spec_of_tab(tab))),
            ..self
        }
    }

    /// The table after the filter box was confirmed: its text is the filter.
    pub open spec fn commit(self) -> DataTableView {
        DataTableView { list: self.list.set_filter(self.input), ..self }
    }

    /// The table after an action.
    pub open spec fn update(self, action: ActionView, data: Dataset) -> DataTableView {
        match action {
            ActionView::Tick => if self.is_loading {
                DataTableView {
                    spinner_index: (self.spinner_index + 1) % (SPINNER_COUNT as nat),
                    ..self
                }
            } else {
                self
            },
            ActionView::DataLoaded => DataTableView { is_loading: false, ..self }.tab_changed(
                self.active_tab,
                data,
            ),
            ActionView::Down => DataTableView { list: self.list.next(1), ..self },
            ActionView::Up => DataTableView { list: self.list.previous(1), ..self },
            ActionView::ModeChange(mode) => if self.is_loading && mode == Mode::Input {
                self
            } else {
                DataTableView { mode, ..self }
            },
            ActionView::TabChange(tab) => self.tab_changed(tab, data),
            ActionView::Clear => DataTableView {
                input: Seq::empty(),
                list: self.list.set_filter(Seq::empty()),
                ..self
            },
            _ => self,
        }
    }

    /// What the table answers to an action: while it is loading it answers
    /// the change to the input mode with the change back to the normal mode.
    pub open spec fn answer(self, action: ActionView) -> Option<ActionView> {
        if self.is_loading && action == ActionView::ModeChange(Mode::Input) {
            Some(ActionView::ModeChange(Mode::Normal))
        } else {
            None
        }
    }

    /// The table after `count` ticks.
    pub open spec fn ticked(self, count: nat, data: Dataset) -> DataTableView
        decreases count,
    {
        if count == 0 {
            self
        } else {
            self.ticked((count - 1) as nat, data).update(ActionView::Tick, data)
        }
    }
}

/// The table after a key press, where `field` is the filter box before it.
/// In the normal mode the key does nothing. In the input mode the enter key
/// makes the text of the filter box the filter; any other key leaves in the
/// filter box what its edit makes of the box, and nothing else changes.
pub open spec fn after_key(before: DataTableView, field: tui_input::Input, key: KeyEvent) -> DataTableView {
    match before.mode {
        Mode::Normal => before,
        Mode::Input => if key.code == KeyCode::Enter {
            before.commit()
        } else {
            DataTableView { input: edited(field, key.edit), ..before }
        },
    }
}

/// The change to the input mode is refused exactly when a refresh is under
/// way: then the mode stays as it was and the change back to the normal mode
/// is asked for; else the input mode is taken and nothing is asked for.
pub proof fn lemma_input_mode_refused_iff_loading(table: DataTableView, data: Dataset)
    ensures
        table.answer(ActionView::ModeChange(Mode::Input)) == Some(
            ActionView::ModeChange(Mode::Normal),
        ) <==> table.is_loading,
        table.is_loading ==> table.update(ActionView::ModeChange(Mode::Input), data) == table,
        !table.is_loading ==> table.update(ActionView::ModeChange(Mode::Input), data).mode
            == Mode::Input,
        !table.is_loading ==> table.answer(ActionView::ModeChange(Mode::Input)) is None,
{
}

/// The arrival of the data ends the loading, however many ticks went by
/// before it.
pub proof fn lemma_data_loaded_clears_loading(table: DataTableView, ticks: nat, data: Dataset)
    ensures
        !table.ticked(ticks, data).update(ActionView::DataLoaded, data).is_loading,
        table.ticked(ticks, data).is_loading == table.is_loading,
    decreases ticks,
{
    if ticks > 0 {
        lemma_data_loaded_clears_loading(table, (ticks - 1) as nat, data);
    }
}

/// The arrival of the data leaves the tab on show and loads its rows anew.
pub proof fn lemma_data_loaded_reloads_tab_on_show(table: DataTableView, data: Dataset)
    ensures
        table.update(ActionView::DataLoaded, data).active_tab == table.active_tab,
        table.update(ActionView::DataLoaded, data).list == table.list.load(
            data.rows(Info::spec_of_tab(table.active_tab)),
        ),
{
}

/// The arrival of the data and a change of tab come out the same in either
/// order: the table is not loading and shows the rows of the new tab.
pub proof fn lemma_data_and_tab_change_commute(table: DataTableView, tab: TabsEnum, data: Dataset)
    ensures
        table.update(ActionView::DataLoaded, data).update(ActionView::TabChange(tab), data)
            == table.update(ActionView::TabChange(tab), data).update(ActionView::DataLoaded, data),
        table.update(ActionView::DataLoaded, data).update(ActionView::TabChange(tab), data) == (
        DataTableView { is_loading: false, ..table }).tab_changed(tab, data),
{
}

/// Every action leaves a consistent table consistent.
pub proof fn lemma_update_keeps_wf(table: DataTableView, action: ActionView, data: Dataset)
    requires
        table.wf(),
    ensures
        table.update(action, data).wf(),
{
    if action is Tick && table.is_loading {
        assert((table.spinner_index + 1) % (SPINNER_COUNT as nat) < SPINNER_COUNT);
    }
}

/// Where the parts of the table are drawn.
#[derive(Clone, Copy, Debug, PartialEq, Eq, Structural)]
pub struct TableFrame {
    /// The table with its border.
    pub table: Rect,
    /// The scrollbar, inside the border and below the titles.
    pub scrollbar: Rect,
    /// The filter box, at the right of the table's first rows.
    pub input: Rect,
    /// The spinner, on the top border of the filter box.
    pub spinner: Rect,
}

/// Whether an area can hold the table with its filter box.
pub open spec fn frame_fits(bottom: Rect) -> bool {
    &&& bottom.height >= 4
    &&& bottom.width >= INPUT_SIZE + 1
    &&& bottom.y + 4 <= u16::MAX
}

/// Where the parts of the table are drawn in the area `bottom`.
pub open spec fn spec_frame(bottom: Rect) -> TableFrame {
    let table = Rect {
        x: bottom.x,
        y: (bottom.y + 1) as u16,
        width: bottom.width,
        height: (bottom.height - 1) as u16,
    };
    let scroll = Rect { y: (table.y + 3) as u16, height: (table.height - 3) as u16, ..table };
    let input = Rect::spec_new(
        (table.width - (INPUT_SIZE + 1)) as u16,
        (table.y + 1) as u16,
        INPUT_SIZE,
        3,
    );
    TableFrame {
        table,
        scrollbar: scroll.spec_inner(Margin { horizontal: 1, vertical: 1 }),
        input,
        spinner: Rect::spec_new((input.x + 1) as u16, input.y, 12, 1),
    }
}

/// The column of the cursor in a filter box at column `input_x`: one cell
/// for the border, then as many cells as the cursor is right of the scroll
/// position; held at the largest coordinate.
pub open spec fn spec_cursor_column(input_x: u16, visual_cursor: usize, scroll: usize) -> u16 {
    let shift: int = if visual_cursor > scroll {
        visual_cursor - scroll
    } else {
        0
    };
    if input_x + shift + 1 > u16::MAX {
        u16::MAX
    } else {
        (input_x + shift + 1) as u16
    }
}

/// The column of the cursor in a filter box at column `input_x`, given the
/// cursor's and the scroll's position in cells.
pub fn cursor_column(input_x: u16, visual_cursor: usize, scroll: usize) -> (column: u16)
    ensures
        column == spec_cursor_column(input_x, visual_cursor, scroll),
{
    let shift: usize = if visual_cursor > scroll {
        visual_cursor - scroll
    } else {
        0
    };
    let room: u16 = u16::MAX - input_x;
    if room == 0 || shift >= room as usize {
        u16::MAX
    } else {
        input_x + shift as u16 + 1
    }
}

/// The tone of a cell of the table: the name stands out, the status is
/// shown as good, the rest is plain.
pub open spec fn cell_tone(column: int) -> Tone {
    if column == 0 {
        Tone::Name
    } else if column == 1 {
        Tone::Good
    } else {
        Tone::Plain
    }
}

/// The cells of a row of the table, each with its tone.
pub open spec fn toned_row(row: Seq<Seq<char>>) -> Seq<SpanView> {
    Seq::new(row.len(), |c: int| SpanView { content: row[c], tone: cell_tone(c) })
}

/// The rows of the table, each cell with its tone.
pub open spec fn toned_rows(rows: Seq<Seq<Seq<char>>>) -> Seq<Seq<SpanView>> {
    Seq::new(rows.len(), |r: int| toned_row(rows[r]))
}

/// The title of the table: the number of rows loaded between two bars, and
/// the mark of a refresh while one is under way.
pub open spec fn title_spans(table: DataTableView) -> Seq<SpanView> {
    let count = seq![
        SpanView { content: "|"@, tone: Tone::Key },
        SpanView { content: "◉ "@, tone: Tone::Good },
        SpanView { content: decimal_of(table.list.rows.len()), tone: Tone::Alert },
        SpanView { content: "|"@, tone: Tone::Key },
    ];
    if table.is_loading {
        count + seq![
            SpanView { content: " ⣿("@, tone: Tone::Key },
            SpanView { content: "0"@, tone: Tone::Alert },
            SpanView { content: "/0"@, tone: Tone::Good },
            SpanView { content: ")"@, tone: Tone::Key },
        ]
    } else {
        count
    }
}

/// What the table shows.
pub struct TableModel {
    /// The titles of the columns.
    pub header: &'static [&'static str],
    /// The rows that pass the filter, each cell with its tone.
    pub rows: Vec<Vec<Span>>,
    /// The title on the top border.
    pub title: Vec<Span>,
}

/// What is drawn of the table besides its rows.
pub struct TableDrawing {
    /// Where the parts are drawn.
    pub frame: TableFrame,
    /// Length of the scrollbar's track.
    pub scroll_length: usize,
    /// Position of the scrollbar's thumb.
    pub scroll_position: usize,
    /// Whether the filter box has the keyboard.
    pub input_active: bool,
    /// Whether the filter box is dimmed, as it is during a refresh.
    pub input_dimmed: bool,
    /// The cell of the cursor, while the filter box has the keyboard.
    pub cursor: Option<(u16, u16)>,
    /// The label of the spinner, during a refresh.
    pub spinner: Option<String>,
}

/// The glyph of the spinner at `index`.
pub open spec fn spinner_glyph(index: nat) -> Seq<char> {
    if index == 0 {
        "⠷"@
    } else if index == 1 {
        "⠯"@
    } else if index == 2 {
        "⠟"@
    } else if index == 3 {
        "⠻"@
    } else if index == 4 {
        "⠽"@
    } else {
        "⠾"@
    }
}

/// The table of the resources.
pub struct DataTable {
    active_tab: TabsEnum,
    list: ListState,
    input: tui_input::Input,
    is_loading: bool,
    mode: Mode,
    spinner_index: usize,
}

impl View for DataTable {
    type V = DataTableView;

    closed spec fn view(&self) -> DataTableView {
        DataTableView {
            active_tab: self.active_tab,
            list: self.list@,
            input: input_text(self.input),
            is_loading: self.is_loading,
            mode: self.mode,
            spinner_index: self.spinner_index as nat,
        }
    }
}

impl DataTable {
    /// The list inside the table is consistent.
    pub closed spec fn list_wf(&self) -> bool {
        self.list.wf()
    }

    /// The text field of the filter box.
    pub closed spec fn field(&self) -> tui_input::Input {
        self.input
    }

    /// The table at its start: the devices' tab, no rows, no filter, an empty
    /// filter box, not loading, the normal mode.
    pub open spec fn new_view() -> DataTableView {
        DataTableView {
            active_tab: TabsEnum::Devices,
            list: ListView { rows: Seq::empty(), filter: Seq::empty(), selected: 0, offset: 0 },
            input: Seq::empty(),
            is_loading: false,
            mode: Mode::Normal,
            spinner_index: 0,
        }
    }

    /// A table without rows, not loading, in the normal mode.
    pub fn new() -> (table: DataTable)
        ensures
            table.wf(),
            table@ == DataTable::new_view(),
    {
        DataTable {
            active_tab: TabsEnum::Devices,
            list: ListState::new(),
            input: empty_input(),
            is_loading: false,
            mode: Mode::Normal,
            spinner_index: 0,
        }
    }

    /// Starts a refresh unless one is under way: the rows are dropped and the
    /// table is loading. The result tells whether a refresh has to be started.
    pub fn load_data(&mut self) -> (started: bool)
        requires
            old(self).wf(),
        ensures
            final(self).wf(),
            started == !old(self)@.is_loading,
            final(self)@ == old(self)@.load_data(),
    {
        if self.is_loading {
            return false;
        }
        let rows: Vec<Vec<String>> = Vec::new();
        assert(rows.deep_view() =~= Seq::empty());
        self.list.load(rows);
        self.is_loading = true;
        true
    }

    /// Shows the rows of `tab` as they were last loaded; the filter stays in
    /// force and the first row is selected.
    pub fn tab_changed(&mut self, tab: TabsEnum, data: &Dataset)
        requires
            old(self).wf(),
        ensures
            final(self).wf(),
            final(self)@ == old(self)@.tab_changed(tab, *data),
    {
        self.active_tab = tab;
        self.list.load(data.snapshot(tab));
    }

    /// Selects the row before the selected one, the last before the first.
    pub fn previous_in_table(&mut self)
        requires
            old(self).wf(),
        ensures
            final(self).wf(),
            final(self)@ == (DataTableView { list: old(self)@.list.previous(1), ..old(self)@ }),
    {
        self.list.previous(1);
    }

    /// Selects the row after the selected one, the first after the last.
    pub fn next_in_table(&mut self)
        requires
            old(self).wf(),
        ensures
            final(self).wf(),
            final(self)@ == (DataTableView { list: old(self)@.list.next(1), ..old(self)@ }),
    {
        self.list.next(1);
    }

    /// Whether a refresh of the data is under way.
    pub fn is_loading(&self) -> (loading: bool)
        ensures
            loading == self@.is_loading,
    {
        self.is_loading
    }

    /// How the table reads key presses.
    pub fn mode(&self) -> (mode: Mode)
        ensures
            mode == self@.mode,
    {
        self.mode
    }

    /// The tab on show.
    pub fn active_tab(&self) -> (tab: TabsEnum)
        ensures
            tab == self@.active_tab,
    {
        self.active_tab
    }

    /// Which glyph of the spinner is on show.
    pub fn spinner_index(&self) -> (index: usize)
        ensures
            index == self@.spinner_index,
    {
        self.spinner_index
    }

    /// The rows with their filter and selection.
    pub fn list(&self) -> (list: &ListState)
        ensures
            list@ == self@.list,
            self.wf() ==> list.wf(),
    {
        &self.list
    }

    /// The text field of the filter box.
    pub fn input(&self) -> (field: &tui_input::Input)
        ensures
            *field == self.field(),
            input_text(*field) == self@.input,
    {
        &self.input
    }

    /// The filter in force.
    pub fn filter_str(&self) -> (filter: &str)
        ensures
            filter@ == self@.list.filter,
    {
        self.list.filter_text()
    }

    /// Number of rows loaded, as the title of the table shows it.
    pub fn loaded_count(&self) -> (count: usize)
        ensures
            count == self@.list.rows.len(),
    {
        self.list.total()
    }

    /// Length of the scrollbar's track: one less than the number of rows on
    /// show, and 0 where there is none.
    pub fn scrollbar_height(&self) -> (length: usize)
        requires
            self.wf(),
        ensures
            length == (if self@.list.filtered().len() == 0 {
                0
            } else {
                self@.list.filtered().len() - 1
            }),
    {
        let len = self.list.len();
        if len == 0 {
            0
        } else {
            len - 1
        }
    }

    /// The label of the spinner: its glyph and the word for loading.
    pub fn make_spinner(&self) -> (label: String)
        requires
            self.wf(),
        ensures
            label@ == spinner_glyph(self@.spinner_index) + "loading.."@,
    {
        let glyph = if self.spinner_index == 0 {
            "⠷"
        } else if self.spinner_index == 1 {
            "⠯"
        } else if self.spinner_index == 2 {
            "⠟"
        } else if self.spinner_index == 3 {
            "⠻"
        } else if self.spinner_index == 4 {
            "⠽"
        } else {
            "⠾"
        };
        String::from_str(glyph).concat("loading..")
    }

    /// What the table shows: the titles of the columns of the tab on show,
    /// the rows that pass the filter, and the title with the number of rows
    /// loaded.
    pub fn make_table(&self) -> (model: TableModel)
        requires
            self.wf(),
        ensures
            model.header@.len() == 3,
            forall|i: int|
                0 <= i < 3 ==> (#[trigger] model.header@[i])@ == self@.active_tab.spec_headers()[i],
            model.rows.deep_view() == toned_rows(self@.list.filtered()),
            model.title.deep_view() == title_spans(self@),
    {
        let mut rows: Vec<Vec<Span>> = Vec::new();
        let len = self.list.len();
        let mut r: usize = 0;
        while r < len
            invariant
                r <= len,
                self.wf(),
                len == self@.list.filtered().len(),
                rows@.len() == r,
                forall|k: int|
                    0 <= k < r ==> (#[trigger] rows@[k]).deep_view() == toned_row(
                        self@.list.filtered()[k],
                    ),
            decreases len - r,
        {
            let row = self.list.row(r);
            let mut cells: Vec<Span> = Vec::new();
            let mut c: usize = 0;
            while c < row.len()
                invariant
                    c <= row.len(),
                    cells@.len() == c,
                    forall|k: int|
                        0 <= k < c ==> (#[trigger] cells@[k])@ == (SpanView {
                            content: row@[k]@,
                            tone: cell_tone(k),
                        }),
                decreases row.len() - c,
            {
                let tone = if c == 0 {
                    Tone::Name
                } else if c == 1 {
                    Tone::Good
                } else {
                    Tone::Plain
                };
                cells.push(Span::of(row[c].as_str(), tone));
                c += 1;
            }
            assert(cells.deep_view() =~= toned_row(row.deep_view())) by {
                assert forall|k: int| 0 <= k < row@.len() implies row.deep_view()[k]
                    == row@[k]@ by {}
            }
            rows.push(cells);
            r += 1;
        }
        assert(rows.deep_view() =~= toned_rows(self@.list.filtered()));
        let mut title: Vec<Span> = Vec::new();
        title.push(Span::of("|", Tone::Key));
        title.push(Span::of("◉ ", Tone::Good));
        title.push(Span::new(decimal(self.list.total()), Tone::Alert));
        title.push(Span::of("|", Tone::Key));
        if self.is_loading {
            title.push(Span::of(" ⣿(", Tone::Key));
            title.push(Span::of("0", Tone::Alert));
            title.push(Span::of("/0", Tone::Good));
            title.push(Span::of(")", Tone::Key));
        }
        assert(title.deep_view() =~= title_spans(self@));
        TableModel { header: self.active_tab.headers(), rows, title }
    }

    /// What is drawn of the table besides its rows, in the area `bottom`:
    /// where its parts go, the scrollbar, the state of the filter box, the
    /// cursor and the spinner. `visual_cursor` and `scroll` are the positions
    /// of the cursor and of the scroll of the filter box, in cells. `None`
    /// where the area cannot hold the table.
    pub fn draw(&self, bottom: Rect, visual_cursor: usize, scroll: usize) -> (drawing: Option<
        TableDrawing,
    >)
        requires
            self.wf(),
        ensures
            drawing is Some == frame_fits(bottom),
            drawing matches Some(d) ==> {
                &&& d.frame == spec_frame(bottom)
                &&& d.scroll_length == (if self@.list.filtered().len() == 0 {
                    0
                } else {
                    self@.list.filtered().len() - 1
                })
                &&& d.scroll_position == self@.list.selected
                &&& d.input_active == (self@.mode == Mode::Input)
                &&& d.input_dimmed == self@.is_loading
                &&& d.cursor == (if self@.mode == Mode::Input {
                    Some(
                        (
                            spec_cursor_column(d.frame.input.x, visual_cursor, scroll),
                            (d.frame.input.y + 1) as u16,
                        ),
                    )
                } else {
                    None
                })
                &&& d.spinner is Some == self@.is_loading
                &&& d.spinner matches Some(label) ==> label@ == spinner_glyph(
                    self@.spinner_index,
                ) + "loading.."@
            },
    {
        match Self::frame(bottom) {
            Some(frame) => {
                let cursor = match self.mode {
                    Mode::Input => Some(
                        (cursor_column(frame.input.x, visual_cursor, scroll), frame.input.y + 1),
                    ),
                    Mode::Normal => None,
                };
                let spinner = if self.is_loading {
                    Some(self.make_spinner())
                } else {
                    None
                };
                Some(
                    TableDrawing {
                        frame,
                        scroll_length: self.scrollbar_height(),
                        scroll_position: self.list.selected(),
                        input_active: self.mode == Mode::Input,
                        input_dimmed: self.is_loading,
                        cursor,
                        spinner,
                    },
                )
            },
            None => None,
        }
    }

    /// Where the parts of the table are drawn in the area `bottom`, or `None`
    /// where the area cannot hold them.
    pub fn frame(bottom: Rect) -> (frame: Option<TableFrame>)
        ensures
            frame is Some == frame_fits(bottom),
            frame matches Some(f) ==> f == spec_frame(bottom),
    {
        if bottom.height < 4 || bottom.width < INPUT_SIZE + 1 || bottom.y > u16::MAX - 4 {
            return None;
        }
        let table = Rect {
            x: bottom.x,
            y: bottom.y + 1,
            width: bottom.width,
            height: bottom.height - 1,
        };
        let scroll = Rect { x: table.x, y: table.y + 3, width: table.width, height: table.height - 3 };
        let input = Rect::new(table.width - (INPUT_SIZE + 1), table.y + 1, INPUT_SIZE, 3);
        let spinner = Rect::new(input.x + 1, input.y, 12, 1);
        Some(
            TableFrame {
                table,
                scrollbar: scroll.inner(Margin { horizontal: 1, vertical: 1 }),
                input,
                spinner,
            },
        )
    }
}

impl Component for DataTable {
    open spec fn wf(&self) -> bool {
        &&& self.list_wf()
        &&& self@.wf()
        &&& self@.input == input_text(self.field())
    }

    open spec fn init_response(&self, after: Self, refresh: bool) -> bool {
        refresh == !self@.is_loading && after@ == self@.load_data()
    }

    open spec fn update_response(
        &self,
        action: Action,
        data: Dataset,
        now: u64,
        after: Self,
        answer: Option<Action>,
    ) -> bool {
        &&& after@ == self@.update(action@, data)
        &&& answer is Some == self@.answer(action@) is Some
        &&& answer matches Some(a) ==> Some(a@) == self@.answer(action@)
    }

    /// Starts the first refresh.
    fn init(&mut self) -> (refresh: bool) {
        self.load_data()
    }

    open spec fn key_response(&self, key: KeyEvent, after: Self, action: Option<Action>) -> bool {
        &&& after@ == after_key(self@, self.field(), key)
        &&& action is Some == (self@.mode == Mode::Input && key.code == KeyCode::Enter)
        &&& action matches Some(a) ==> a@ == ActionView::ModeChange(Mode::Normal)
    }

    open spec fn mouse_response(&self, mouse: MouseEvent, after: Self, action: Option<Action>) -> bool {
        action is None && after@ == self@
    }

    /// In the normal mode key presses do not concern the table. In the input
    /// mode the enter key makes the text of the filter box the filter and
    /// asks for the normal mode; any other key is handed to the filter box,
    /// which alone changes.
    fn handle_key_events(&mut self, key: KeyEvent) -> (action: Option<Action>) {
        match self.mode {
            Mode::Normal => None,
            Mode::Input => {
                if key.code == KeyCode::Enter {
                    self.list.filter(self.input.value());
                    Some(Action::ModeChange(Mode::Normal))
                } else {
                    if let Some(request) = key.edit {
                        let _ = apply_edit(&mut self.input, request);
                    }
                    None
                }
            },
        }
    }

    fn handle_mouse_events(&mut self, mouse: MouseEvent) -> (action: Option<Action>) {
        None
    }

    /// Reacts to an action: a tick turns the spinner while the table is
    /// loading; the arrival of the data ends the loading and loads the rows
    /// of the tab on show anew; up and down move the selection; a change of mode is taken,
    /// but the input mode is refused while loading and the normal mode asked
    /// for instead; a change of tab loads the rows of the tab; a clear empties
    /// the filter box and the filter.
    fn update(&mut self, action: &Action, data: &Dataset, now: u64) -> (answer: Option<Action>) {
        match action {
            Action::Tick => {
                if self.is_loading {
                    self.spinner_index = (self.spinner_index + 1) % SPINNER_COUNT;
                }
                None
            },
            Action::DataLoaded => {
                self.is_loading = false;
                self.tab_changed(self.active_tab, data);
                None
            },
            Action::Down => {
                self.next_in_table();
                None
            },
            Action::Up => {
                self.previous_in_table();
                None
            },
            Action::ModeChange(mode) => {
                if self.is_loading && *mode == Mode::Input {
                    return Some(Action::ModeChange(Mode::Normal));
                }
                self.mode = *mode;
                None
            },
            Action::TabChange(tab) => {
                self.tab_changed(*tab, data);
                None
            },
            Action::Clear => {
                self.input.reset();
                self.list.filter("");
                proof {
                    reveal_strlit("");
                }
                assert(""@ =~= Seq::<char>::empty());
                None
            },
            _ => None,
        }
    }
}

} // verus!
