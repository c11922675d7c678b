//! What the browser shows, as plain values for the drawing code.

use vstd::prelude::*;
use vstd::std_specs::convert::FromSpecImpl;
use vstd::string::StringExecFns;
use crate::aws::Info;
use crate::input::input_text;
use crate::layout::{saturating_sum, Rect};
use crate::list::LIST_LIMIT;
use crate::span::{intersperse, interspersed, Span, SpanView, Tone};
use crate::text::{contains, display_width, is_substring, split, split_of, take_chars, width_of};
use crate::tui::app::{App, AppView};

verus! {

/// Application tab.
#[derive(Clone, Copy, Debug, Eq, PartialEq, Structural)]
pub enum Tab {
    /// Greengrass core devices.
    CoreDevices,
    /// Thing groups.
    ThingGroups,
    /// Greengrass deployments.
    Deployments,
}

impl Default for Tab {
    fn default() -> (tab: Tab)
        ensures
            tab == Tab::CoreDevices,
    {
        Tab::CoreDevices
    }
}

impl Tab {
    /// Number of tabs.
    pub open spec fn spec_count() -> nat {
        3
    }

    /// Position of the tab.
    pub open spec fn spec_index(self) -> nat {
        match self {
            Tab::CoreDevices => 0,
            Tab::ThingGroups => 1,
            Tab::Deployments => 2,
        }
    }

    /// The tab at a position; the first tab where there is none.
    pub open spec fn spec_from(v: usize) -> Tab {
        if v == 1 {
            Tab::ThingGroups
        } else if v == 2 {
            Tab::Deployments
        } else {
            Tab::CoreDevices
        }
    }

    /// The titles of the tabs.
    pub open spec fn spec_headers() -> Seq<Seq<char>> {
        seq!["Core Devices"@, "Thing Groups"@, "Deployments"@]
    }

    /// Returns the available tabs.
    pub fn get_headers() -> (titles: &'static [&'static str])
        ensures
            titles@.len() == Tab::spec_count(),
            forall|i: int|
                0 <= i < titles@.len() ==> (#[trigger] titles@[i])@ == Tab::spec_headers()[i],
    {
        &["Core Devices", "Thing Groups", "Deployments"]
    }

    /// Position of the tab.
    pub fn index(&self) -> (index: usize)
        ensures
            index == self.spec_index(),
            index < Tab::spec_count(),
    {
        match self {
            Tab::CoreDevices => 0,
            Tab::ThingGroups => 1,
            Tab::Deployments => 2,
        }
    }
}

impl From<usize> for Tab {
    fn from(v: usize) -> (tab: Tab)
        ensures
            tab == Tab::spec_from(v),
    {
        match v {
            0 => Tab::CoreDevices,
            1 => Tab::ThingGroups,
            2 => Tab::Deployments,
            _ => Tab::default(),
        }
    }
}

impl FromSpecImpl<usize> for Tab {
    open spec fn obeys_from_spec() -> bool {
        true
    }

    open spec fn from_spec(v: usize) -> Tab {
        Tab::spec_from(v)
    }
}

/// Number of categories of resources.
pub const INFO_COUNT: usize = 3;

/// The category at a position of the inner tables.
pub open spec fn spec_info_at(index: nat) -> Info {
    if index == 0 {
        Info::CoreDevices
    } else if index == 1 {
        Info::ThingGroups
    } else {
        Info::Deployments
    }
}

/// The category at a position of the inner tables.
pub fn info_at(index: usize) -> (info: Info)
    requires
        index < INFO_COUNT,
    ensures
        info == spec_info_at(index as nat),
{
    if index == 0 {
        Info::CoreDevices
    } else if index == 1 {
        Info::ThingGroups
    } else {
        Info::Deployments
    }
}

/// A piece of plain text.
pub open spec fn plain(content: Seq<char>) -> SpanView {
    SpanView { content, tone: Tone::Plain }
}

/// The pieces of a line in which every place where the search text stands is
/// marked: the pieces between those places, plain, with the search text
/// between each two of them, marked. A line without the search text, and any
/// line where the search text is empty, is one plain piece.
pub open spec fn highlighted(line: Seq<char>, search: Seq<char>) -> Seq<SpanView> {
    if search.len() > 0 && is_substring(search, line) {
        interspersed(
            split_of(line, search).map_values(|piece: Seq<char>| plain(piece)),
            SpanView { content: search, tone: Tone::Match },
        )
    } else {
        seq![plain(line)]
    }
}

/// Returns the line with the search result highlighted.
pub fn highlight_search_result(line: &str, search: &str) -> (spans: Vec<Span>)
    ensures
        spans.deep_view() == highlighted(line@, search@),
{
    if contains(line, search) && !search.is_empty() {
        let pieces = split(line, search);
        let mut chunks: Vec<Span> = Vec::new();
        let mut i: usize = 0;
        while i < pieces.len()
            invariant
                i <= pieces.len(),
                chunks@.len() == i,
                forall|k: int| 0 <= k < i ==> (#[trigger] chunks@[k])@ == plain(pieces@[k]@),
            decreases pieces.len() - i,
        {
            chunks.push(Span::of(pieces[i].as_str(), Tone::Plain));
            i += 1;
        }
        assert(chunks.deep_view() =~= split_of(line@, search@).map_values(
            |piece: Seq<char>| plain(piece),
        )) by {
            assert(pieces.deep_view() == split_of(line@, search@));
            assert forall|k: int| 0 <= k < pieces@.len() implies pieces.deep_view()[k]
                == pieces@[k]@ by {}
        }
        intersperse(chunks, Span::of(search, Tone::Match))
    } else {
        let mut spans: Vec<Span> = Vec::new();
        spans.push(Span::of(line, Tone::Plain));
        assert(spans.deep_view() =~= seq![plain(line@)]);
        spans
    }
}

/// The widest cell, in columns, that fits a table of `width` columns with
/// `columns` cells in a row: two columns less than an equal share.
pub open spec fn max_cell_width(width: u16, columns: nat) -> nat {
    if columns == 0 || width as nat / columns < 2 {
        0
    } else {
        (width as nat / columns - 2) as nat
    }
}

/// The pieces of a cell. The first cell of a row, where it is wider than the
/// widest cell allowed, is cut after as many characters and ends in an
/// ellipsis.
pub open spec fn cell_spans(value: Seq<char>, column: int, max: nat, search: Seq<char>) -> Seq<
    SpanView,
> {
    if width_of(value) > max && column == 0 {
        highlighted(
            if max < value.len() {
                value.take(max as int)
            } else {
                value
            },
            search,
        ).push(SpanView { content: "…"@, tone: Tone::Frame })
    } else {
        highlighted(value, search)
    }
}

/// The pieces of the cells of a row.
pub open spec fn row_spans(row: Seq<Seq<char>>, max: nat, search: Seq<char>) -> Seq<Seq<SpanView>> {
    Seq::new(row.len(), |c: int| cell_spans(row[c], c, max, search))
}

/// The pieces of the cells of the rows of a page.
pub open spec fn page_spans(page: Seq<Seq<Seq<char>>>, max: nat, search: Seq<char>) -> Seq<
    Seq<Seq<SpanView>>,
> {
    Seq::new(page.len(), |r: int| row_spans(page[r], max, search))
}

/// What the table of the resources shows.
pub struct DeviceTable {
    /// The titles of the columns.
    pub headers: &'static [&'static str],
    /// The share of the width that each column takes, in percent.
    pub column_percent: u16,
    /// The rows of the page on show, each cell in pieces.
    pub rows: Vec<Vec<Vec<Span>>>,
    /// The selected row, counted from the first row of the page.
    pub selected: usize,
    /// The selected row, counted from 1, and the number of rows; `None` for
    /// an empty list.
    pub position: Option<(usize, usize)>,
    /// Length of the scrollbar's track.
    pub scroll_length: usize,
    /// Position of the scrollbar's thumb.
    pub scroll_position: usize,
    /// Whether the block of the table is the selected one.
    pub active: bool,
}

/// Makes the pieces of one cell.
fn make_cell(value: &str, column: usize, max: usize, search: &str) -> (spans: Vec<Span>)
    ensures
        spans.deep_view() == cell_spans(value@, column as int, max as nat, search@),
{
    if display_width(value) > max && column == 0 {
        let cut = take_chars(value, max);
        let mut spans = highlight_search_result(cut.as_str(), search);
        let ghost before = spans.deep_view();
        let ellipsis = Span::of("…", Tone::Frame);
        spans.push(ellipsis);
        assert(spans.deep_view() =~= before.push(ellipsis@));
        spans
    } else {
        highlight_search_result(value, search)
    }
}

/// Makes the pieces of the cells of one row.
fn make_row(row: &Vec<String>, max: usize, search: &str) -> (cells: Vec<Vec<Span>>)
    ensures
        cells.deep_view() == row_spans(row.deep_view(), max as nat, search@),
{
    let mut cells: Vec<Vec<Span>> = Vec::new();
    let mut c: usize = 0;
    while c < row.len()
        invariant
            c <= row.len(),
            cells@.len() == c,
            forall|k: int|
                0 <= k < c ==> (#[trigger] cells@[k]).deep_view() == cell_spans(
                    row@[k]@,
                    k,
                    max as nat,
                    search@,
                ),
        decreases row.len() - c,
    {
        cells.push(make_cell(row[c].as_str(), c, max, search));
        c += 1;
    }
    assert(cells.deep_view() =~= row_spans(row.deep_view(), max as nat, search@));
    cells
}

/// What the table of the resources shows in an area of `width` columns: the
/// page that holds the selection, every cell in pieces with the search text
/// marked, and the numbers for the frame and the scrollbar.
pub fn render_device_info(app: &App, width: u16) -> (table: DeviceTable)
    requires
        app.wf(),
    ensures
        table.headers@.len() == spec_info_at(app@.info_index).spec_headers().len(),
        forall|i: int|
            0 <= i < table.headers@.len() ==> (#[trigger] table.headers@[i])@ == spec_info_at(
                app@.info_index,
            ).spec_headers()[i],
        table.column_percent == 100int / (table.headers@.len() as int),
        table.rows.deep_view() == page_spans(
            app@.list.page(),
            max_cell_width(width, table.headers@.len()),
            app@.input,
        ),
        table.selected == app@.list.selected - app@.list.offset,
        table.selected == app@.list.selected % (LIST_LIMIT as nat),
        table.position == (if app@.list.filtered().len() == 0 {
            None
        } else {
            Some(((app@.list.selected + 1) as usize, app@.list.filtered().len() as usize))
        }),
        table.scroll_length == app@.list.filtered().len(),
        table.scroll_position == app@.list.selected,
        table.active == (app@.block_index == 0),
{
    let list = app.list();
    let selected_index = list.selected();
    let items_len = list.len();
    let headers = info_at(app.info_index()).headers();
    let columns = headers.len();
    let share = width as usize / columns;
    let max_row_width = if share < 2 {
        0
    } else {
        share - 2
    };
    let search = app.input().value();
    let offset = list.offset();
    let page_len = list.page_len();
    let mut rows: Vec<Vec<Vec<Span>>> = Vec::new();
    let mut r: usize = 0;
    while r < page_len
        invariant
            r <= page_len,
            app.wf(),
            list.wf(),
            list@ == app@.list,
            offset == list@.offset,
            page_len == list@.page_len(),
            offset + page_len <= list@.filtered().len(),
            items_len == list@.filtered().len(),
            search@ == app@.input,
            rows@.len() == r,
            forall|k: int|
                0 <= k < r ==> (#[trigger] rows@[k]).deep_view() == row_spans(
                    list@.filtered()[offset + k],
                    max_row_width as nat,
                    search@,
                ),
        decreases page_len - r,
    {
        rows.push(make_row(list.row(offset + r), max_row_width, search));
        r += 1;
    }
    assert(rows.deep_view() =~= page_spans(app@.list.page(), max_row_width as nat, app@.input));
    assert(selected_index - offset == selected_index % LIST_LIMIT) by (nonlinear_arith)
        requires
            offset == (selected_index / LIST_LIMIT) * LIST_LIMIT,
            LIST_LIMIT == 100,
    ;
    DeviceTable {
        headers,
        column_percent: (100 / columns) as u16,
        rows,
        selected: selected_index - offset,
        position: if items_len != 0 {
            Some((selected_index + 1, items_len))
        } else {
            None
        },
        scroll_length: items_len,
        scroll_position: selected_index,
        active: app.block_index() == 0,
    }
}

/// The pieces of the line that tells the keys: for each key its name in
/// brackets with what it does, and a space between two keys.
pub open spec fn key_binding_spans(bindings: Seq<(&'static str, &'static str)>) -> Seq<SpanView> {
    Seq::new(
        6 * bindings.len(),
        |i: int|
            {
                let (keys, desc) = bindings[i / 6];
                if i % 6 == 0 {
                    SpanView { content: "["@, tone: Tone::Frame }
                } else if i % 6 == 1 {
                    SpanView { content: keys@, tone: Tone::Key }
                } else if i % 6 == 2 {
                    SpanView { content: "→ "@, tone: Tone::Frame }
                } else if i % 6 == 3 {
                    SpanView { content: desc@, tone: Tone::Plain }
                } else if i % 6 == 4 {
                    SpanView { content: "]"@, tone: Tone::Frame }
                } else if i / 6 != bindings.len() - 1 {
                    SpanView { content: " "@, tone: Tone::Plain }
                } else {
                    SpanView { content: ""@, tone: Tone::Plain }
                }
            },
    )
}

/// Whether the line that tells the keys gives way to the search line: it is
/// hidden where it is wider than the area less 25 columns while the search
/// line shows anything. The width of the line counts as the drawing code
/// holds it, in 16 bits.
pub open spec fn hides_key_bindings(line_width: usize, area_width: u16, input_width: usize) -> bool {
    let room: int = if area_width < 25 {
        0
    } else {
        area_width - 25
    };
    line_width % 0x10000 > room && input_width != 0
}

/// What the line that tells the keys shows.
pub struct KeyBindingLine {
    /// The pieces of the line.
    pub spans: Vec<Span>,
    /// Whether the line is left out.
    pub hidden: bool,
}

/// Renders the key bindings: the pieces of the line that tells the keys, and
/// whether the line gives way to the search line in an area of `area_width`
/// columns.
pub fn render_key_bindings(app: &App, area_width: u16) -> (line: KeyBindingLine)
    ensures
        line.spans.deep_view() == key_binding_spans(crate::tui::app::spec_key_bindings()),
        line.hidden == hides_key_bindings(
            spans_width(line.spans.deep_view()) as usize,
            area_width,
            spans_width(input_line_spans(app@)) as usize,
        ),
{
    let key_bindings = app.get_key_bindings();
    let mut spans: Vec<Span> = Vec::new();
    let mut i: usize = 0;
    while i < key_bindings.len()
        invariant
            i <= key_bindings.len(),
            key_bindings@.len() == 6,
            spans@.len() == 6 * i,
            forall|k: int|
                0 <= k < 6 * i ==> (#[trigger] spans@[k])@ == key_binding_spans(key_bindings@)[k],
        decreases key_bindings.len() - i,
    {
        let (keys, desc) = key_bindings[i];
        let ghost before = spans@;
        spans.push(Span::of("[", Tone::Frame));
        spans.push(Span::of(keys, Tone::Key));
        spans.push(Span::of("→ ", Tone::Frame));
        spans.push(Span::of(desc, Tone::Plain));
        spans.push(Span::of("]", Tone::Frame));
        spans.push(
            Span::of(
                if i != key_bindings.len() - 1 {
                    " "
                } else {
                    ""
                },
                Tone::Plain,
            ),
        );
        assert forall|k: int| 0 <= k < 6 * (i + 1) implies (#[trigger] spans@[k])@
            == key_binding_spans(key_bindings@)[k] by {
            if k < 6 * i {
                assert(spans@[k] == before[k]);
            } else {
                assert(k / 6 == i && k % 6 == k - 6 * i);
            }
        }
        i += 1;
    }
    assert(spans.deep_view() =~= key_binding_spans(key_bindings@));
    let line_width = line_width(&spans);
    let input_width = line_width_of_input(app);
    let room = if area_width < 25 {
        0
    } else {
        area_width - 25
    };
    let hidden = (line_width % 0x10000) > room as usize && input_width != 0;
    KeyBindingLine { spans, hidden }
}

/// The width of a line in columns: the sum of the widths of its pieces, held
/// at the largest number.
pub open spec fn spans_width(spans: Seq<SpanView>) -> nat
    decreases spans.len(),
{
    if spans.len() == 0 {
        0
    } else {
        let sum = spans_width(spans.drop_last()) + width_of(spans.last().content);
        if sum > usize::MAX {
            usize::MAX as nat
        } else {
            sum
        }
    }
}

/// The width of a line in columns.
pub fn line_width(spans: &Vec<Span>) -> (width: usize)
    ensures
        width == spans_width(spans.deep_view()),
{
    let mut width: usize = 0;
    let mut i: usize = 0;
    assert(spans.deep_view().take(0) =~= Seq::empty());
    while i < spans.len()
        invariant
            i <= spans.len(),
            width == spans_width(spans.deep_view().take(i as int)),
        decreases spans.len() - i,
    {
        assert(spans.deep_view().take(i + 1).drop_last() =~= spans.deep_view().take(i as int));
        assert(spans.deep_view().take(i + 1).last() == spans@[i as int]@);
        let columns = display_width(spans[i].content.as_str());
        width = if columns > usize::MAX - width {
            usize::MAX
        } else {
            width + columns
        };
        i += 1;
    }
    assert(spans.deep_view().take(spans.len() as int) =~= spans.deep_view());
    width
}

/// The pieces of the search line: the label and the search text between two
/// bars, with room for the cursor in the input mode. Nothing is shown where
/// the search text is empty outside the input mode.
pub open spec fn input_line_spans(app: AppView) -> Seq<SpanView> {
    if app.input.len() > 0 || app.input_mode {
        seq![
            SpanView { content: "|"@, tone: Tone::Frame },
            SpanView { content: "search: "@, tone: Tone::Key },
            SpanView { content: app.input, tone: Tone::Accent },
            SpanView {
                content: if app.input_mode {
                    " "@
                } else {
                    ""@
                },
                tone: Tone::Plain,
            },
            SpanView { content: "|"@, tone: Tone::Frame },
        ]
    } else {
        Seq::empty()
    }
}

/// Returns the input line.
pub fn get_input_line(app: &App) -> (spans: Vec<Span>)
    ensures
        spans.deep_view() == input_line_spans(app@),
{
    let mut spans: Vec<Span> = Vec::new();
    let value = app.input().value();
    if !value.is_empty() || app.input_mode() {
        spans.push(Span::of("|", Tone::Frame));
        spans.push(Span::of("search: ", Tone::Key));
        spans.push(Span::of(value, Tone::Accent));
        spans.push(
            Span::of(
                if app.input_mode() {
                    " "
                } else {
                    ""
                },
                Tone::Plain,
            ),
        );
        spans.push(Span::of("|", Tone::Frame));
    }
    assert(spans.deep_view() =~= input_line_spans(app@));
    spans
}

/// The width of the search line in columns.
fn line_width_of_input(app: &App) -> (width: usize)
    ensures
        width == spans_width(input_line_spans(app@)),
{
    let spans = get_input_line(app);
    line_width(&spans)
}

/// The text before which the cursor of the search line stands: the label and
/// the search text.
pub fn search_prompt(app: &App) -> (prompt: String)
    ensures
        prompt@ == "search: "@ + app@.input,
{
    String::from_str("search: ").concat(app.input().value())
}

/// The cell of the cursor in the input mode, in an area whose last row holds
/// the search line: two columns right of the prompt, which takes
/// `prompt_columns` columns. Coordinates are held at the largest one.
pub open spec fn cursor_cell(app: AppView, area: Rect, prompt_columns: usize) -> Option<(u16, u16)> {
    if app.input_mode {
        let bottom = saturating_sum(area.y, area.height);
        Some(
            (
                if area.x + prompt_columns + 2 > u16::MAX {
                    u16::MAX
                } else {
                    (area.x + prompt_columns + 2) as u16
                },
                if bottom == 0 {
                    0u16
                } else {
                    (bottom - 1) as u16
                },
            ),
        )
    } else {
        None
    }
}

/// Renders the cursor: the cell in which the cursor is shown, if the browser
/// is in the input mode.
pub fn render_cursor(app: &App, area: Rect, prompt_columns: usize) -> (cell: Option<(u16, u16)>)
    ensures
        cell == cursor_cell(app@, area, prompt_columns),
{
    if app.input_mode() {
        let room = u16::MAX - area.x;
        let x = if room < 2 || prompt_columns > (room - 2) as usize {
            u16::MAX
        } else {
            area.x + prompt_columns as u16 + 2
        };
        let bottom = area.bottom();
        let y = if bottom == 0 {
            0
        } else {
            bottom - 1
        };
        Some((x, y))
    } else {
        None
    }
}

} // verus!
