//! A selectable, scrollable and filterable list of rows.
//!
//! A row is a sequence of text cells. The list keeps every row that it was
//! loaded with, the filter text, and a selection inside the rows that pass the
//! filter. Rows are shown a page at a time; the scroll offset is the index of
//! the first row of the page that holds the selection.

use vstd::prelude::*;
use crate::text::{contains, is_substring, lowercase_of, to_lowercase};

verus! {

/// Number of rows on one page.
pub const LIST_LIMIT: usize = 100;

/// A cell holds the needle, whatever the case of the cell's letters. The
/// needle is expected in lower case.
pub open spec fn cell_matches(cell: Seq<char>, needle: Seq<char>) -> bool {
    is_substring(needle, lowercase_of(cell))
}

/// At least one cell of the row holds the needle.
pub open spec fn row_contains(row: Seq<Seq<char>>, needle: Seq<char>) -> bool {
    exists|j: int| 0 <= j < row.len() && cell_matches(#[trigger] row[j], needle)
}

/// The row passes the filter: the filter is empty, or one of the row's cells
/// contains it, compared without regard to case.
pub open spec fn keeps(row: Seq<Seq<char>>, filter: Seq<char>) -> bool {
    filter.len() == 0 || row_contains(row, lowercase_of(filter))
}

/// The rows that pass the filter, in the order in which they were loaded.
pub open spec fn filtered_rows(rows: Seq<Seq<Seq<char>>>, filter: Seq<char>) -> Seq<
    Seq<Seq<char>>,
> {
    rows.filter(|row: Seq<Seq<char>>| keeps(row, filter))
}

/// Index of the first row of the page that holds row `selected`.
pub open spec fn page_start(selected: nat) -> nat {
    ((selected / (LIST_LIMIT as nat)) * (LIST_LIMIT as nat)) as nat
}

/// The selection after a step of `n` rows forward in a view of `len` rows:
/// a step past the last row lands on the first.
pub open spec fn step_forward(selected: nat, n: nat, len: nat) -> nat {
    if selected + n >= len {
        0
    } else {
        selected + n
    }
}

/// The selection after a step of `n` rows backward in a view of `len` rows:
/// a step before the first row lands on the last.
pub open spec fn step_backward(selected: nat, n: nat, len: nat) -> nat {
    if len == 0 {
        0
    } else if n > selected {
        (len - 1) as nat
    } else {
        (selected - n) as nat
    }
}

/// The selection moved into a view of `len` rows.
pub open spec fn clamp_selection(selected: nat, len: nat) -> nat {
    if len == 0 {
        0
    } else if selected >= len {
        (len - 1) as nat
    } else {
        selected
    }
}

/// What a list holds, as mathematical values.
pub struct ListView {
    /// Every row the list was loaded with.
    pub rows: Seq<Seq<Seq<char>>>,
    /// The filter text.
    pub filter: Seq<char>,
    /// Index of the selected row among the rows that pass the filter.
    pub selected: nat,
    /// Index of the first row of the page on show.
    pub offset: nat,
}

/// A move of the selection.
pub enum Move {
    Next(nat),
    Previous(nat),
    First,
    Last,
}

impl ListView {
    /// The rows that pass the filter.
    pub open spec fn filtered(self) -> Seq<Seq<Seq<char>>> {
        filtered_rows(self.rows, self.filter)
    }

    /// The selection lies inside the filtered rows, or is 0 where there are
    /// none, and the offset is the start of the selection's page.
    pub open spec fn wf(self) -> bool {
        &&& self.filtered().len() > 0 ==> self.selected < self.filtered().len()
        &&& self.filtered().len() == 0 ==> self.selected == 0
        &&& self.offset == page_start(self.selected)
    }

    /// The same list with the selection on row `selected`.
    pub open spec fn select(self, selected: nat) -> ListView {
        ListView { selected, offset: page_start(selected), ..self }
    }

    /// The list after loading `rows`: the filter stays, the selection and the
    /// offset go back to 0.
    pub open spec fn load(self, rows: Seq<Seq<Seq<char>>>) -> ListView {
        ListView { rows, filter: self.filter, selected: 0, offset: 0 }
    }

    /// The list after setting the filter: the selection is moved into the new
    /// filtered rows.
    pub open spec fn set_filter(self, filter: Seq<char>) -> ListView {
        let len = filtered_rows(self.rows, filter).len();
        ListView { filter, ..self }.select(clamp_selection(self.selected, len))
    }

    pub open spec fn next(self, n: nat) -> ListView {
        self.select(step_forward(self.selected, n, self.filtered().len()))
    }

    pub open spec fn previous(self, n: nat) -> ListView {
        self.select(step_backward(self.selected, n, self.filtered().len()))
    }

    pub open spec fn first(self) -> ListView {
        self.select(0)
    }

    pub open spec fn last(self) -> ListView {
        self.select(
            if self.filtered().len() == 0 {
                0
            } else {
                (self.filtered().len() - 1) as nat
            },
        )
    }

    /// The list after one move.
    pub open spec fn moved(self, m: Move) -> ListView {
        match m {
            Move::Next(n) => self.next(n),
            Move::Previous(n) => self.previous(n),
            Move::First => self.first(),
            Move::Last => self.last(),
        }
    }

    /// The list after a sequence of moves, made in order.
    pub open spec fn moved_all(self, moves: Seq<Move>) -> ListView
        decreases moves.len(),
    {
        if moves.len() == 0 {
            self
        } else {
            self.moved_all(moves.drop_last()).moved(moves.last())
        }
    }

    /// The selected row, if the filtered rows are not empty.
    pub open spec fn selected_row(self) -> Option<Seq<Seq<char>>> {
        if self.selected < self.filtered().len() {
            Some(self.filtered()[self.selected as int])
        } else {
            None
        }
    }

    /// Number of rows on the page on show.
    pub open spec fn page_len(self) -> nat {
        if self.offset >= self.filtered().len() {
            0
        } else if self.filtered().len() - self.offset > LIST_LIMIT {
            LIST_LIMIT as nat
        } else {
            (self.filtered().len() - self.offset) as nat
        }
    }

    /// The rows of the page on show.
    pub open spec fn page(self) -> Seq<Seq<Seq<char>>> {
        self.filtered().subrange(self.offset as int, (self.offset + self.page_len()) as int)
    }
}

/// A move keeps the selection inside the filtered rows, and at 0 where there
/// are none.
pub proof fn lemma_move_keeps_selection_in_range(v: ListView, m: Move)
    requires
        v.wf(),
    ensures
        v.moved(m).wf(),
        v.moved(m).filtered() == v.filtered(),
        v.filtered().len() > 0 ==> v.moved(m).selected < v.filtered().len(),
        v.filtered().len() == 0 ==> v.moved(m).selected == 0,
{
}

/// Whatever sequence of moves is made, the selection stays inside the
/// filtered rows, and at 0 where there are none.
pub proof fn lemma_moves_keep_selection_in_range(v: ListView, moves: Seq<Move>)
    requires
        v.wf(),
    ensures
        v.moved_all(moves).wf(),
        v.moved_all(moves).filtered() == v.filtered(),
        v.filtered().len() > 0 ==> v.moved_all(moves).selected < v.filtered().len(),
        v.filtered().len() == 0 ==> v.moved_all(moves).selected == 0,
    decreases moves.len(),
{
    if moves.len() > 0 {
        lemma_moves_keep_selection_in_range(v, moves.drop_last());
        lemma_move_keeps_selection_in_range(v.moved_all(moves.drop_last()), moves.last());
    }
}

/// An empty filter keeps every row.
pub proof fn lemma_empty_filter_keeps_all(rows: Seq<Seq<Seq<char>>>, filter: Seq<char>)
    requires
        filter.len() == 0,
    ensures
        filtered_rows(rows, filter) == rows,
    decreases rows.len(),
{
    let pred = |row: Seq<Seq<char>>| keeps(row, filter);
    reveal(Seq::filter);
    if rows.len() > 0 {
        lemma_empty_filter_keeps_all(rows.drop_last(), filter);
        assert(rows.drop_last().push(rows.last()) =~= rows);
    }
}

/// Filtering what a filter has kept changes nothing.
pub proof fn lemma_filter_idempotent(rows: Seq<Seq<Seq<char>>>, filter: Seq<char>)
    ensures
        filtered_rows(filtered_rows(rows, filter), filter) == filtered_rows(rows, filter),
    decreases rows.len(),
{
    let pred = |row: Seq<Seq<char>>| keeps(row, filter);
    reveal(Seq::filter);
    if rows.len() > 0 {
        lemma_filter_idempotent(rows.drop_last(), filter);
        if pred(rows.last()) {
            rows.drop_last().filter(pred).lemma_filter_push(rows.last(), pred);
        }
    }
}

/// The filtered view of any filter is a part of the unfiltered view: each of
/// its rows is a row of the view under the empty filter, it is no longer, and
/// its rows keep their order.
pub proof fn lemma_filter_is_subset(rows: Seq<Seq<Seq<char>>>, filter: Seq<char>)
    ensures
        filtered_rows(rows, Seq::empty()) == rows,
        filtered_rows(rows, filter).len() <= rows.len(),
        forall|i: int|
            0 <= i < filtered_rows(rows, filter).len() ==> filtered_rows(rows, Seq::empty()).contains(
                #[trigger] filtered_rows(rows, filter)[i],
            ),
        exists|at: Seq<int>| is_selection_of(filtered_rows(rows, filter), rows, at),
{
    lemma_empty_filter_keeps_all(rows, Seq::empty());
    rows.lemma_filter_len(|row: Seq<Seq<char>>| keeps(row, filter));
    lemma_filter_selects(rows, filter);
    let at = choose|at: Seq<int>| is_selection_of(filtered_rows(rows, filter), rows, at);
    assert forall|i: int| 0 <= i < filtered_rows(rows, filter).len() implies rows.contains(
        #[trigger] filtered_rows(rows, filter)[i],
    ) by {
        assert(rows[at[i]] == filtered_rows(rows, filter)[i]);
    }
}

/// `part` holds the rows of `whole` at the positions `at`, which increase.
pub open spec fn is_selection_of(
    part: Seq<Seq<Seq<char>>>,
    whole: Seq<Seq<Seq<char>>>,
    at: Seq<int>,
) -> bool {
    &&& at.len() == part.len()
    &&& forall|k: int| 0 <= k < at.len() ==> 0 <= #[trigger] at[k] < whole.len()
    &&& forall|k: int| 0 <= k < at.len() ==> whole[#[trigger] at[k]] == part[k]
    &&& forall|j: int, k: int| 0 <= j < k < at.len() ==> at[j] < at[k]
}

/// The filtered rows are the rows at increasing positions of the whole.
pub proof fn lemma_filter_selects(rows: Seq<Seq<Seq<char>>>, filter: Seq<char>)
    ensures
        exists|at: Seq<int>| is_selection_of(filtered_rows(rows, filter), rows, at),
    decreases rows.len(),
{
    let pred = |row: Seq<Seq<char>>| keeps(row, filter);
    reveal(Seq::filter);
    if rows.len() == 0 {
        assert(is_selection_of(filtered_rows(rows, filter), rows, Seq::<int>::empty()));
    } else {
        let front = rows.drop_last();
        lemma_filter_selects(front, filter);
        let at = choose|at: Seq<int>| is_selection_of(filtered_rows(front, filter), front, at);
        if pred(rows.last()) {
            let at2 = at.push(rows.len() - 1);
            assert(is_selection_of(filtered_rows(rows, filter), rows, at2));
        } else {
            assert(is_selection_of(filtered_rows(rows, filter), rows, at));
        }
    }
}

/// Setting the same filter twice leaves the list as setting it once does.
pub proof fn lemma_set_filter_idempotent(v: ListView, filter: Seq<char>)
    ensures
        v.set_filter(filter).set_filter(filter) == v.set_filter(filter),
        v.set_filter(filter).wf(),
{
}

/// The rows of `rows` at the positions `at`.
pub open spec fn picked(rows: Seq<Seq<Seq<char>>>, at: Seq<usize>) -> Seq<Seq<Seq<char>>> {
    Seq::new(at.len(), |k: int| rows[at[k] as int])
}

/// True when one of the row's cells holds `needle`, compared without regard
/// to the case of the cell. `needle` is taken as it is.
pub fn row_matches(row: &Vec<String>, needle: &str) -> (found: bool)
    ensures
        found == row_contains(row.deep_view(), needle@),
{
    let mut j: usize = 0;
    while j < row.len()
        invariant
            j <= row.len(),
            forall|k: int| 0 <= k < j ==> !cell_matches(#[trigger] row.deep_view()[k], needle@),
        decreases row.len() - j,
    {
        let lower = to_lowercase(row[j].as_str());
        assert(row.deep_view()[j as int] == row@[j as int]@);
        if contains(lower.as_str(), needle) {
            return true;
        }
        j += 1;
    }
    false
}

/// A list of rows with a filter, a selection and a scroll offset.
pub struct ListState {
    rows: Vec<Vec<String>>,
    filter: String,
    visible: Vec<usize>,
    selected: usize,
    offset: usize,
}

impl View for ListState {
    type V = ListView;

    closed spec fn view(&self) -> ListView {
        ListView {
            rows: self.rows.deep_view(),
            filter: self.filter@,
            selected: self.selected as nat,
            offset: self.offset as nat,
        }
    }
}

impl ListState {
    /// The positions kept beside the rows are those of the rows that pass
    /// the filter.
    pub closed spec fn indexed(&self) -> bool {
        &&& forall|k: int|
            0 <= k < self.visible@.len() ==> (#[trigger] self.visible@[k]) < self.rows@.len()
        &&& picked(self.rows.deep_view(), self.visible@) == filtered_rows(
            self.rows.deep_view(),
            self.filter@,
        )
    }

    /// The list is consistent: see `ListView::wf`.
    pub open spec fn wf(&self) -> bool {
        self.indexed() && self@.wf()
    }

    /// An empty list without a filter.
    pub fn new() -> (list: ListState)
        ensures
            list.wf(),
            list@ == (ListView { rows: Seq::empty(), filter: Seq::empty(), selected: 0, offset: 0 }),
    {
        let list = ListState {
            rows: Vec::new(),
            filter: String::new(),
            visible: Vec::new(),
            selected: 0,
            offset: 0,
        };
        proof {
            reveal(Seq::filter);
            assert(list.rows.deep_view() =~= Seq::empty());
            assert(picked(list.rows.deep_view(), list.visible@) =~= Seq::empty());
        }
        list
    }

    /// A list of the given rows without a filter, the first row selected.
    pub fn with_items(rows: Vec<Vec<String>>) -> (list: ListState)
        ensures
            list.wf(),
            list@ == (ListView {
                rows: rows.deep_view(),
                filter: Seq::empty(),
                selected: 0,
                offset: 0,
            }),
    {
        let mut list = ListState::new();
        list.load(rows);
        list
    }

    /// Positions of the rows that pass `filter`.
    fn matching(rows: &Vec<Vec<String>>, filter: &str) -> (visible: Vec<usize>)
        ensures
            forall|k: int| 0 <= k < visible@.len() ==> (#[trigger] visible@[k]) < rows@.len(),
            picked(rows.deep_view(), visible@) == filtered_rows(rows.deep_view(), filter@),
    {
        let ghost all = rows.deep_view();
        let ghost pred = |row: Seq<Seq<char>>| keeps(row, filter@);
        let needle = to_lowercase(filter);
        let mut visible: Vec<usize> = Vec::new();
        let mut i: usize = 0;
        proof {
            reveal(Seq::filter);
            assert(all.take(0) =~= Seq::empty());
            assert(picked(all, visible@) =~= all.take(0).filter(pred));
        }
        while i < rows.len()
            invariant
                i <= rows.len(),
                all == rows.deep_view(),
                pred == (|row: Seq<Seq<char>>| keeps(row, filter@)),
                needle@ == lowercase_of(filter@),
                forall|k: int| 0 <= k < visible@.len() ==> (#[trigger] visible@[k]) < i,
                picked(all, visible@) == all.take(i as int).filter(pred),
            decreases rows.len() - i,
        {
            let keep = filter.is_empty() || row_matches(&rows[i], needle.as_str());
            proof {
                assert(all[i as int] == rows@[i as int].deep_view());
                assert(keep == pred(all[i as int]));
                assert(all.take(i + 1) =~= all.take(i as int).push(all[i as int]));
                all.take(i as int).lemma_filter_push(all[i as int], pred);
            }
            let ghost before = visible@;
            if keep {
                visible.push(i);
                assert(picked(all, visible@) =~= picked(all, before).push(all[i as int]));
            }
            i += 1;
        }
        proof {
            assert(all.take(rows.len() as int) =~= all);
        }
        visible
    }

    /// Start of the page that holds row `selected`.
    fn page_of(selected: usize) -> (start: usize)
        ensures
            start == page_start(selected as nat),
            start <= selected,
    {
        let page = selected / LIST_LIMIT;
        assert(page * LIST_LIMIT <= selected) by (nonlinear_arith)
            requires
                page == selected / LIST_LIMIT,
                LIST_LIMIT == 100,
        ;
        page * LIST_LIMIT
    }

    /// Replaces every row. The filter stays and is applied to the new rows;
    /// the selection and the scroll offset go back to 0.
    pub fn load(&mut self, rows: Vec<Vec<String>>)
        ensures
            final(self).wf(),
            final(self)@ == old(self)@.load(rows.deep_view()),
    {
        let visible = Self::matching(&rows, self.filter.as_str());
        self.rows = rows;
        self.visible = visible;
        self.selected = 0;
        self.offset = 0;
        proof {
            assert(picked(self.rows.deep_view(), self.visible@).len() == self.visible@.len());
        }
    }

    /// Sets the filter and recomputes the filtered rows. An empty filter keeps
    /// every row; any other keeps the rows of which a cell contains it,
    /// compared without regard to case. The selection is moved into the new
    /// filtered rows.
    pub fn filter(&mut self, substring: &str)
        ensures
            final(self).wf(),
            final(self)@ == old(self)@.set_filter(substring@),
    {
        let visible = Self::matching(&self.rows, substring);
        proof {
            assert(picked(self.rows.deep_view(), visible@).len() == visible@.len());
        }
        let len = visible.len();
        let selected = if len == 0 {
            0
        } else if self.selected >= len {
            len - 1
        } else {
            self.selected
        };
        self.filter = substring.to_owned();
        self.visible = visible;
        self.selected = selected;
        self.offset = Self::page_of(selected);
    }

    /// Number of rows that pass the filter.
    pub fn len(&self) -> (n: usize)
        requires
            self.wf(),
        ensures
            n == self@.filtered().len(),
    {
        proof {
            assert(picked(self.rows.deep_view(), self.visible@).len() == self.visible@.len());
        }
        self.visible.len()
    }

    /// True when no row passes the filter.
    pub fn is_empty(&self) -> (empty: bool)
        requires
            self.wf(),
        ensures
            empty == (self@.filtered().len() == 0),
    {
        self.len() == 0
    }

    /// Number of rows loaded, whether they pass the filter or not.
    pub fn total(&self) -> (n: usize)
        ensures
            n == self@.rows.len(),
    {
        self.rows.len()
    }

    /// Index of the selected row among the rows that pass the filter.
    pub fn selected(&self) -> (index: usize)
        ensures
            index == self@.selected,
    {
        self.selected
    }

    /// Index of the first row of the page on show.
    pub fn offset(&self) -> (index: usize)
        ensures
            index == self@.offset,
    {
        self.offset
    }

    /// The filter text.
    pub fn filter_text(&self) -> (text: &str)
        ensures
            text@ == self@.filter,
    {
        self.filter.as_str()
    }

    /// Number of rows on the page on show.
    pub fn page_len(&self) -> (n: usize)
        requires
            self.wf(),
        ensures
            n == self@.page_len(),
            self@.offset + n <= self@.filtered().len(),
    {
        let len = self.len();
        if self.offset >= len {
            0
        } else if len - self.offset > LIST_LIMIT {
            LIST_LIMIT
        } else {
            len - self.offset
        }
    }

    /// Row `index` of the rows that pass the filter.
    pub fn row(&self, index: usize) -> (row: &Vec<String>)
        requires
            self.wf(),
            index < self@.filtered().len(),
        ensures
            row.deep_view() == self@.filtered()[index as int],
    {
        proof {
            assert(picked(self.rows.deep_view(), self.visible@).len() == self.visible@.len());
            assert(picked(self.rows.deep_view(), self.visible@)[index as int]
                == self.rows.deep_view()[self.visible@[index as int] as int]);
        }
        &self.rows[self.visible[index]]
    }

    /// The selected row, or `None` where no row passes the filter.
    pub fn selected_row(&self) -> (row: Option<&Vec<String>>)
        requires
            self.wf(),
        ensures
            row is Some == (self@.filtered().len() > 0),
            row matches Some(r) ==> Some(r.deep_view()) == self@.selected_row(),
            row is None ==> self@.selected_row() is None,
    {
        if self.selected < self.len() {
            Some(self.row(self.selected))
        } else {
            None
        }
    }

    /// Moves the selection `amount` rows forward; past the last row it lands
    /// on the first.
    pub fn next(&mut self, amount: usize)
        requires
            old(self).wf(),
        ensures
            final(self).wf(),
            final(self)@ == old(self)@.next(amount as nat),
    {
        let len = self.len();
        let selected = if self.selected >= len || amount >= len - self.selected {
            0
        } else {
            self.selected + amount
        };
        self.selected = selected;
        self.offset = Self::page_of(selected);
    }

    /// Moves the selection `amount` rows backward; before the first row it
    /// lands on the last.
    pub fn previous(&mut self, amount: usize)
        requires
            old(self).wf(),
        ensures
            final(self).wf(),
            final(self)@ == old(self)@.previous(amount as nat),
    {
        let len = self.len();
        let selected = if len == 0 {
            0
        } else if amount > self.selected {
            len - 1
        } else {
            self.selected - amount
        };
        self.selected = selected;
        self.offset = Self::page_of(selected);
    }

    /// Selects the first row.
    pub fn first(&mut self)
        requires
            old(self).wf(),
        ensures
            final(self).wf(),
            final(self)@ == old(self)@.first(),
    {
        self.selected = 0;
        self.offset = 0;
    }

    /// Selects the last row.
    pub fn last(&mut self)
        requires
            old(self).wf(),
        ensures
            final(self).wf(),
            final(self)@ == old(self)@.last(),
    {
        let len = self.len();
        let selected = if len == 0 {
            0
        } else {
            len - 1
        };
        self.selected = selected;
        self.offset = Self::page_of(selected);
    }
}

} // verus!
