//! The torrent list of the torrents tab: the rows, the filter that hides
//! some of them, the multi-selection and the choice of a sort column.

use vstd::prelude::*;
use vstd::string::*;
use crate::messages::Torrent;
use crate::table::GenericTable;
use crate::tasks::{TorrentSelection, TorrentSelectionView};
use crate::text::{contains_text, occurs_in};

verus! {

/// The positions of the rows whose name holds the pattern, ascending.
pub open spec fn matching(items: Seq<Torrent>, pattern: Seq<char>) -> Seq<usize>
    decreases items.len(),
{
    if items.len() == 0 {
        Seq::empty()
    } else {
        let before = matching(items.drop_last(), pattern);
        if occurs_in(pattern, items.last().name@) {
            before.push((items.len() - 1) as usize)
        } else {
            before
        }
    }
}

/// No more rows match than there are, and every match is a row.
pub proof fn lemma_matching_bounds(items: Seq<Torrent>, pattern: Seq<char>)
    ensures
        matching(items, pattern).len() <= items.len(),
        forall|k: int|
            0 <= k < matching(items, pattern).len() ==> #[trigger] matching(items, pattern)[k]
                < items.len(),
    decreases items.len(),
{
    if items.len() > 0 {
        lemma_matching_bounds(items.drop_last(), pattern);
        let before = matching(items.drop_last(), pattern);
        let all = matching(items, pattern);
        assert forall|k: int| 0 <= k < all.len() implies #[trigger] all[k] < items.len() by {
            if k < before.len() {
                assert(all[k] == before[k]);
            }
        }
    }
}

/// The ids without every occurrence of `id`.
pub open spec fn without(ids: Seq<i64>, id: i64) -> Seq<i64>
    decreases ids.len(),
{
    if ids.len() == 0 {
        Seq::empty()
    } else if ids.last() == id {
        without(ids.drop_last(), id)
    } else {
        without(ids.drop_last(), id).push(ids.last())
    }
}

/// Whether some row is the torrent `id`.
pub open spec fn has_row(items: Seq<Torrent>, id: i64) -> bool {
    exists|i: int| 0 <= i < items.len() && (#[trigger] items[i]).id == id
}

/// The ids that still have a row, in their order.
pub open spec fn still_listed(ids: Seq<i64>, items: Seq<Torrent>) -> Seq<i64>
    decreases ids.len(),
{
    if ids.len() == 0 {
        Seq::empty()
    } else if has_row(items, ids.last()) {
        still_listed(ids.drop_last(), items).push(ids.last())
    } else {
        still_listed(ids.drop_last(), items)
    }
}

/// Where a cursor ends up when the number of rows it can be on changes.
pub open spec fn cursor_within(cursor: Option<usize>, len: nat) -> Option<usize> {
    match cursor {
        Some(i) => if len == 0 {
            None
        } else if i >= len {
            Some((len - 1) as usize)
        } else {
            Some(i)
        },
        None => None,
    }
}

/// The filter in force: the pattern, and the rows it lets through.
pub struct TableFilter {
    pub pattern: String,
    pub indexes: Vec<usize>,
}

pub struct TableManager {
    pub table: GenericTable<Torrent>,
    pub selected_torrents_ids: Vec<i64>,
    pub filter: Option<TableFilter>,
    pub sorting_is_being_selected: bool,
    pub sort_header: Option<usize>,
    pub sort_reverse: bool,
    /// How many rows the last redraw had room for.
    pub torrents_displaying_no: u16,
    /// The number of columns.
    pub headers_no: usize,
}

pub struct TableView {
    pub items: Seq<Torrent>,
    pub cursor: Option<usize>,
    pub offset: usize,
    pub selected_ids: Seq<i64>,
    pub pattern: Option<Seq<char>>,
    pub sorting: bool,
    pub sort_header: Option<usize>,
    pub sort_reverse: bool,
    pub displaying_no: u16,
    pub headers_no: usize,
}

impl View for TableManager {
    type V = TableView;

    open spec fn view(&self) -> TableView {
        TableView {
            items: self.table.items@,
            cursor: self.table.selected,
            offset: self.table.offset,
            selected_ids: self.selected_torrents_ids@,
            pattern: match self.filter {
                Some(f) => Some(f.pattern@),
                None => None,
            },
            sorting: self.sorting_is_being_selected,
            sort_header: self.sort_header,
            sort_reverse: self.sort_reverse,
            displaying_no: self.torrents_displaying_no,
            headers_no: self.headers_no,
        }
    }
}

impl TableView {
    /// The positions of the rows on show: those that the filter lets
    /// through, or all of them.
    pub open spec fn shown(self) -> Seq<usize> {
        match self.pattern {
            Some(p) => matching(self.items, p),
            None => Seq::new(self.items.len(), |i: int| i as usize),
        }
    }

    /// The position of the row under the cursor.
    pub open spec fn current(self) -> Option<usize> {
        match self.cursor {
            Some(c) => if c < self.shown().len() {
                Some(self.shown()[c as int])
            } else {
                None
            },
            None => None,
        }
    }

    /// What a task works on: the multi-selection if there is one, else the
    /// row under the cursor, else nothing.
    pub open spec fn selection(self) -> Option<TorrentSelectionView> {
        if self.selected_ids.len() > 0 {
            Some(TorrentSelectionView::Many(self.selected_ids))
        } else {
            match self.current() {
                Some(i) => Some(
                    TorrentSelectionView::Single(self.items[i as int].id, self.items[i as int].name@),
                ),
                None => None,
            }
        }
    }

    /// The row under the cursor joins the multi-selection, or leaves it if
    /// it was part of it.
    pub open spec fn toggled_current(self) -> TableView {
        match self.current() {
            Some(i) => {
                let id = self.items[i as int].id;
                TableView {
                    selected_ids: if self.selected_ids.contains(id) {
                        without(self.selected_ids, id)
                    } else {
                        self.selected_ids.push(id)
                    },
                    ..self
                }
            },
            None => self,
        }
    }

    /// The filter is set to the pattern, or taken away, and the cursor
    /// goes to the first row on show.
    pub open spec fn filtered(self, pattern: Option<Seq<char>>) -> TableView {
        let table = TableView { pattern, ..self };
        TableView {
            cursor: if table.shown().len() == 0 {
                None
            } else {
                Some(0usize)
            },
            ..table
        }
    }

    /// The rows are replaced. The filter stays in force, the ids of
    /// torrents that are gone leave the multi-selection, and the cursor
    /// stays on its position as far as there still is a row.
    pub open spec fn with_rows(self, rows: Seq<Torrent>) -> TableView {
        let table = TableView {
            items: rows,
            selected_ids: still_listed(self.selected_ids, rows),
            ..self
        };
        TableView { cursor: cursor_within(self.cursor, table.shown().len()), ..table }
    }

    /// The status of the row at the position is replaced.
    pub open spec fn with_status(self, i: int, status: crate::messages::TorrentStatus) -> TableView {
        TableView { items: self.items.update(i, Torrent { status, ..self.items[i] }), ..self }
    }

    /// The cursor is moved.
    pub open spec fn with_cursor(self, cursor: Option<usize>) -> TableView {
        TableView { cursor, ..self }
    }

    /// The choice of a sort column begins, at the first column unless one
    /// is chosen already.
    pub open spec fn sorting_entered(self) -> TableView {
        TableView {
            sorting: true,
            sort_header: match self.sort_header {
                Some(h) => Some(h),
                None => Some(0usize),
            },
            ..self
        }
    }

    /// The choice is given up: no column sorts.
    pub open spec fn sorting_left(self) -> TableView {
        TableView { sorting: false, sort_header: None, sort_reverse: false, ..self }
    }

    /// The choice is made.
    pub open spec fn sort_applied(self) -> TableView {
        TableView { sorting: false, ..self }
    }

    /// The choice moves one column to the left, if there is one.
    pub open spec fn column_left(self) -> TableView {
        TableView {
            sort_header: match self.sort_header {
                Some(h) => if h > 0 {
                    Some((h - 1) as usize)
                } else {
                    Some(h)
                },
                None => Some(0usize),
            },
            ..self
        }
    }

    /// The choice moves one column to the right, if there is one.
    pub open spec fn column_right(self) -> TableView {
        TableView {
            sort_header: match self.sort_header {
                Some(h) => if h + 1 < self.headers_no {
                    Some((h + 1) as usize)
                } else {
                    Some(h)
                },
                None => Some(0usize),
            },
            ..self
        }
    }

    /// The direction of the sort turns around.
    pub open spec fn sort_reversed(self) -> TableView {
        TableView { sort_reverse: !self.sort_reverse, ..self }
    }
}

impl TableManager {
    /// The filter lists exactly the rows it lets through, the table shows
    /// as many rows as that, and the cursor is on one of them.
    pub open spec fn wf(&self) -> bool {
        &&& self.table.wf()
        &&& match self.filter {
            Some(f) => f.indexes@ == matching(self.table.items@, f.pattern@)
                && self.table.overwritten_len == Some(f.indexes@.len() as usize),
            None => self.table.overwritten_len is None,
        }
    }

    /// The number of rows on show is what the table counts.
    pub proof fn lemma_shown_len(&self)
        requires
            self.wf(),
        ensures
            self@.shown().len() == self.table.len(),
            self@.cursor matches Some(c) ==> c < self@.shown().len(),
            forall|k: int|
                0 <= k < self@.shown().len() ==> #[trigger] self@.shown()[k]
                    < self.table.items@.len(),
    {
        match self.filter {
            Some(f) => {
                lemma_matching_bounds(self.table.items@, f.pattern@);
                assert(f.indexes@.len() == f.indexes.len());
            },
            None => {},
        }
    }

    /// An empty list with `headers_no` columns.
    pub fn new(headers_no: usize) -> (manager: TableManager)
        ensures
            manager.wf(),
            manager@ == (TableView {
                items: Seq::empty(),
                cursor: None,
                offset: 0,
                selected_ids: Seq::empty(),
                pattern: None,
                sorting: false,
                sort_header: None,
                sort_reverse: false,
                displaying_no: 0,
                headers_no,
            }),
    {
        let manager = TableManager {
            table: GenericTable::new(Vec::new()),
            selected_torrents_ids: Vec::new(),
            filter: None,
            sorting_is_being_selected: false,
            sort_header: None,
            sort_reverse: false,
            torrents_displaying_no: 0,
            headers_no,
        };
        assert(manager@.items =~= Seq::<Torrent>::empty());
        assert(manager@.selected_ids =~= Seq::<i64>::empty());
        manager
    }

    /// The position of the row under the cursor.
    pub fn current_index(&self) -> (index: Option<usize>)
        requires
            self.wf(),
        ensures
            index == self@.current(),
            index matches Some(i) ==> i < self.table.items@.len(),
    {
        proof {
            self.lemma_shown_len();
        }
        match self.table.selected {
            Some(c) => match &self.filter {
                Some(f) => Some(f.indexes[c]),
                None => Some(c),
            },
            None => None,
        }
    }

    /// The row under the cursor.
    pub fn current_torrent(&self) -> (torrent: Option<&Torrent>)
        requires
            self.wf(),
        ensures
            match self@.current() {
                Some(i) => torrent == Some(&self.table.items@[i as int]),
                None => torrent is None,
            },
    {
        match self.current_index() {
            Some(i) => Some(&self.table.items[i]),
            None => None,
        }
    }

    fn matching_rows(items: &Vec<Torrent>, pattern: &String) -> (indexes: Vec<usize>)
        ensures
            indexes@ == matching(items@, pattern@),
    {
        let mut indexes: Vec<usize> = Vec::new();
        let mut i: usize = 0;
        assert(items@.take(0) =~= Seq::<Torrent>::empty());
        while i < items.len()
            invariant
                0 <= i <= items@.len(),
                indexes@ == matching(items@.take(i as int), pattern@),
            decreases items@.len() - i,
        {
            assert(items@.take(i + 1).drop_last() =~= items@.take(i as int));
            assert(items@.take(i + 1).last() == items@[i as int]);
            if contains_text(items[i].name.as_str(), pattern.as_str()) {
                indexes.push(i);
            }
            i = i + 1;
        }
        assert(items@.take(items@.len() as int) =~= items@);
        indexes
    }

    fn apply_filter(&mut self, pattern: Option<String>)
        requires
            old(self).table.wf(),
        ensures
            final(self).wf(),
            final(self)@ == (TableView {
                pattern: crate::messages::opt_text(pattern),
                cursor: cursor_within(
                    old(self)@.cursor,
                    (TableView { pattern: crate::messages::opt_text(pattern), ..old(self)@ }).shown().len(),
                ),
                ..old(self)@
            }),
    {
        match pattern {
            Some(pattern) => {
                let indexes = Self::matching_rows(&self.table.items, &pattern);
                proof {
                    lemma_matching_bounds(self.table.items@, pattern@);
                }
                self.table.overwrite_len(Some(indexes.len()));
                self.filter = Some(TableFilter { pattern, indexes });
            },
            None => {
                self.table.overwrite_len(None);
                self.filter = None;
            },
        }
    }

    /// Sets the filter to the pattern and puts the cursor on the first row
    /// that it lets through.
    pub fn set_filter(&mut self, pattern: String)
        requires
            old(self).wf(),
        ensures
            final(self).wf(),
            final(self)@ == old(self)@.filtered(Some(pattern@)),
    {
        self.apply_filter(Some(pattern));
        self.table.select(Some(0));
        proof {
            self.lemma_shown_len();
        }
    }

    /// Takes the filter away and puts the cursor on the first row.
    pub fn clear_filter(&mut self)
        requires
            old(self).wf(),
        ensures
            final(self).wf(),
            final(self)@ == old(self)@.filtered(None),
    {
        self.apply_filter(None);
        self.table.select(Some(0));
        proof {
            self.lemma_shown_len();
        }
    }

    fn listed(items: &Vec<Torrent>, id: i64) -> (found: bool)
        ensures
            found == has_row(items@, id),
    {
        let mut i: usize = 0;
        while i < items.len()
            invariant
                0 <= i <= items@.len(),
                forall|k: int| 0 <= k < i ==> (#[trigger] items@[k]).id != id,
            decreases items@.len() - i,
        {
            if items[i].id == id {
                return true;
            }
            i = i + 1;
        }
        false
    }

    /// Replaces the rows by a fresh list from the daemon.
    pub fn set_new_rows(&mut self, rows: Vec<Torrent>)
        requires
            old(self).wf(),
        ensures
            final(self).wf(),
            final(self)@ == old(self)@.with_rows(rows@),
    {
        let mut kept: Vec<i64> = Vec::new();
        let mut k: usize = 0;
        assert(self.selected_torrents_ids@.take(0) =~= Seq::<i64>::empty());
        while k < self.selected_torrents_ids.len()
            invariant
                0 <= k <= self.selected_torrents_ids@.len(),
                kept@ == still_listed(self.selected_torrents_ids@.take(k as int), rows@),
                *self == *old(self),
            decreases self.selected_torrents_ids@.len() - k,
        {
            let id = self.selected_torrents_ids[k];
            assert(self.selected_torrents_ids@.take(k + 1).drop_last()
                =~= self.selected_torrents_ids@.take(k as int));
            assert(self.selected_torrents_ids@.take(k + 1).last() == id);
            if Self::listed(&rows, id) {
                kept.push(id);
            }
            k = k + 1;
        }
        assert(self.selected_torrents_ids@.take(self.selected_torrents_ids@.len() as int)
            =~= self.selected_torrents_ids@);
        self.selected_torrents_ids = kept;
        let cursor = self.table.selected;
        self.table.set_items(rows);
        self.table.selected = None;
        let pattern = match &self.filter {
            Some(f) => Some(f.pattern.clone()),
            None => None,
        };
        self.apply_filter(pattern);
        self.table.select(cursor);
        proof {
            self.lemma_shown_len();
        }
    }

    /// Toggles the membership of the row under the cursor in the
    /// multi-selection.
    pub fn select_current_torrent(&mut self)
        requires
            old(self).wf(),
        ensures
            final(self).wf(),
            final(self)@ == old(self)@.toggled_current(),
    {
        let id = match self.current_torrent() {
            Some(t) => t.id,
            None => {
                return;
            },
        };
        let mut rest: Vec<i64> = Vec::new();
        let mut found = false;
        let mut k: usize = 0;
        assert(self.selected_torrents_ids@.take(0) =~= Seq::<i64>::empty());
        while k < self.selected_torrents_ids.len()
            invariant
                0 <= k <= self.selected_torrents_ids@.len(),
                rest@ == without(self.selected_torrents_ids@.take(k as int), id),
                found == self.selected_torrents_ids@.take(k as int).contains(id),
                *self == *old(self),
            decreases self.selected_torrents_ids@.len() - k,
        {
            let ghost shorter = self.selected_torrents_ids@.take(k as int);
            let ghost longer = self.selected_torrents_ids@.take(k + 1);
            assert(longer.drop_last() =~= shorter);
            assert(longer.last() == self.selected_torrents_ids@[k as int]);
            proof {
                if shorter.contains(id) {
                    let j = choose|j: int| 0 <= j < shorter.len() && shorter[j] == id;
                    assert(longer[j] == id);
                }
                if longer.contains(id) && longer.last() != id {
                    let j = choose|j: int| 0 <= j < longer.len() && longer[j] == id;
                    assert(shorter[j] == id);
                }
            }
            if self.selected_torrents_ids[k] == id {
                found = true;
            } else {
                rest.push(self.selected_torrents_ids[k]);
            }
            k = k + 1;
        }
        assert(self.selected_torrents_ids@.take(self.selected_torrents_ids@.len() as int)
            =~= self.selected_torrents_ids@);
        if found {
            self.selected_torrents_ids = rest;
        } else {
            self.selected_torrents_ids.push(id);
        }
    }

    /// Empties the multi-selection.
    pub fn clear_selection(&mut self)
        requires
            old(self).wf(),
        ensures
            final(self).wf(),
            final(self)@ == (TableView { selected_ids: Seq::empty(), ..old(self)@ }),
    {
        self.selected_torrents_ids = Vec::new();
        assert(self@.selected_ids =~= Seq::<i64>::empty());
    }

    /// What a task works on.
    pub fn get_currently_selected(&self) -> (selection: Option<TorrentSelection>)
        requires
            self.wf(),
        ensures
            match selection {
                Some(s) => self@.selection() == Some(s@),
                None => self@.selection() is None,
            },
    {
        if self.selected_torrents_ids.len() > 0 {
            let ids = self.selected_torrents_ids.clone();
            assert(ids@ =~= self.selected_torrents_ids@);
            Some(TorrentSelection::Many(ids))
        } else {
            match self.current_torrent() {
                Some(t) => Some(TorrentSelection::Single(t.id, t.name.clone())),
                None => None,
            }
        }
    }

    pub fn enter_sorting_selection(&mut self)
        requires
            old(self).wf(),
        ensures
            final(self).wf(),
            final(self)@ == old(self)@.sorting_entered(),
    {
        self.sorting_is_being_selected = true;
        if self.sort_header.is_none() {
            self.sort_header = Some(0);
        }
    }

    pub fn leave_sorting(&mut self)
        requires
            old(self).wf(),
        ensures
            final(self).wf(),
            final(self)@ == old(self)@.sorting_left(),
    {
        self.sorting_is_being_selected = false;
        self.sort_header = None;
        self.sort_reverse = false;
    }

    pub fn apply_sort(&mut self)
        requires
            old(self).wf(),
        ensures
            final(self).wf(),
            final(self)@ == old(self)@.sort_applied(),
    {
        self.sorting_is_being_selected = false;
    }

    pub fn move_to_column_left(&mut self)
        requires
            old(self).wf(),
        ensures
            final(self).wf(),
            final(self)@ == old(self)@.column_left(),
    {
        self.sort_header = match self.sort_header {
            Some(h) => if h > 0 {
                Some(h - 1)
            } else {
                Some(h)
            },
            None => Some(0),
        };
    }

    pub fn move_to_column_right(&mut self)
        requires
            old(self).wf(),
        ensures
            final(self).wf(),
            final(self)@ == old(self)@.column_right(),
    {
        self.sort_header = match self.sort_header {
            Some(h) => if h < usize::MAX && h + 1 < self.headers_no {
                Some(h + 1)
            } else {
                Some(h)
            },
            None => Some(0),
        };
    }

    pub fn reverse_sort(&mut self)
        requires
            old(self).wf(),
        ensures
            final(self).wf(),
            final(self)@ == old(self)@.sort_reversed(),
    {
        self.sort_reverse = !self.sort_reverse;
    }
}

} // verus!
