//! The table model shared by the tabs: rows in order, a cursor on one of
//! the visible rows, and the scroll offset that the last redraw left behind.

use vstd::prelude::*;

verus! {

pub struct GenericTable<T> {
    pub items: Vec<T>,
    /// The row under the cursor, counted among the visible rows.
    pub selected: Option<usize>,
    /// The first row on screen, kept between redraws.
    pub offset: usize,
    /// The number of visible rows while a filter hides some of them.
    pub overwritten_len: Option<usize>,
}

impl<T> GenericTable<T> {
    /// The number of visible rows.
    pub open spec fn len(&self) -> nat {
        match self.overwritten_len {
            Some(n) => n as nat,
            None => self.items@.len(),
        }
    }

    /// The cursor, if there is one, is on a visible row, and no more rows
    /// are visible than there are.
    pub open spec fn wf(&self) -> bool {
        &&& self.len() <= self.items@.len()
        &&& self.selected matches Some(i) ==> i < self.len()
    }

    /// Where the cursor is after moving one row down, from the last row to
    /// the first; without a cursor it goes to the first row.
    pub open spec fn after_next(selected: Option<usize>, len: nat) -> Option<usize> {
        if len == 0 {
            selected
        } else {
            match selected {
                Some(i) => if i + 1 >= len {
                    Some(0usize)
                } else {
                    Some((i + 1) as usize)
                },
                None => Some(0usize),
            }
        }
    }

    /// Where the cursor is after moving one row up, from the first row to
    /// the last; without a cursor it goes to the first row.
    pub open spec fn after_previous(selected: Option<usize>, len: nat) -> Option<usize> {
        if len == 0 {
            selected
        } else {
            match selected {
                Some(i) => if i == 0 {
                    Some((len - 1) as usize)
                } else {
                    Some((i - 1) as usize)
                },
                None => Some(0usize),
            }
        }
    }

    /// Where the cursor is after moving `amount` rows down, stopping at the
    /// last row. Without a cursor the move starts at the first row.
    pub open spec fn after_scroll_down(selected: Option<usize>, len: nat, amount: nat) -> Option<
        usize,
    > {
        if len == 0 {
            selected
        } else {
            let from: nat = match selected {
                Some(i) => i as nat,
                None => 0,
            };
            if from + amount >= len {
                Some((len - 1) as usize)
            } else {
                Some((from + amount) as usize)
            }
        }
    }

    /// Where the cursor is after moving `amount` rows up, stopping at the
    /// first row.
    pub open spec fn after_scroll_up(selected: Option<usize>, len: nat, amount: nat) -> Option<
        usize,
    > {
        if len == 0 {
            selected
        } else {
            match selected {
                Some(i) => if amount >= i {
                    Some(0usize)
                } else {
                    Some((i - amount) as usize)
                },
                None => Some(0usize),
            }
        }
    }

    /// A table of the given rows, all visible, without a cursor.
    pub fn new(items: Vec<T>) -> (table: Self)
        ensures
            table.wf(),
            table.items == items,
            table.selected is None,
            table.offset == 0,
            table.overwritten_len is None,
    {
        GenericTable { items, selected: None, offset: 0, overwritten_len: None }
    }

    /// The number of visible rows.
    pub fn get_len(&self) -> (n: usize)
        requires
            self.wf(),
        ensures
            n == self.len(),
    {
        match self.overwritten_len {
            Some(n) => n,
            None => self.items.len(),
        }
    }

    /// The row at the cursor's position in `items`.
    pub fn current_item(&self) -> (item: Option<&T>)
        requires
            self.wf(),
        ensures
            match self.selected {
                Some(i) => item == Some(&self.items@[i as int]),
                None => item is None,
            },
    {
        match self.selected {
            Some(i) => Some(&self.items[i]),
            None => None,
        }
    }

    /// Moves the cursor one row down, wrapping around.
    pub fn next(&mut self)
        requires
            old(self).wf(),
        ensures
            final(self).wf(),
            final(self).selected == Self::after_next(old(self).selected, old(self).len()),
            final(self).items == old(self).items,
            final(self).offset == old(self).offset,
            final(self).overwritten_len == old(self).overwritten_len,
    {
        let len = self.get_len();
        if len == 0 {
            return;
        }
        self.selected = match self.selected {
            Some(i) => if i + 1 >= len {
                Some(0)
            } else {
                Some(i + 1)
            },
            None => Some(0),
        };
    }

    /// Moves the cursor one row up, wrapping around.
    pub fn previous(&mut self)
        requires
            old(self).wf(),
        ensures
            final(self).wf(),
            final(self).selected == Self::after_previous(old(self).selected, old(self).len()),
            final(self).items == old(self).items,
            final(self).offset == old(self).offset,
            final(self).overwritten_len == old(self).overwritten_len,
    {
        let len = self.get_len();
        if len == 0 {
            return;
        }
        self.selected = match self.selected {
            Some(i) => if i == 0 {
                Some(len - 1)
            } else {
                Some(i - 1)
            },
            None => Some(0),
        };
    }

    /// Moves the cursor `amount` rows down, at most to the last row.
    pub fn scroll_down_by(&mut self, amount: usize)
        requires
            old(self).wf(),
        ensures
            final(self).wf(),
            final(self).selected == Self::after_scroll_down(
                old(self).selected,
                old(self).len(),
                amount as nat,
            ),
            final(self).items == old(self).items,
            final(self).offset == old(self).offset,
            final(self).overwritten_len == old(self).overwritten_len,
    {
        let len = self.get_len();
        if len == 0 {
            return;
        }
        let from: usize = match self.selected {
            Some(i) => i,
            None => 0,
        };
        if amount >= len - from {
            self.selected = Some(len - 1);
        } else {
            self.selected = Some(from + amount);
        }
    }

    /// Moves the cursor `amount` rows up, at most to the first row.
    pub fn scroll_up_by(&mut self, amount: usize)
        requires
            old(self).wf(),
        ensures
            final(self).wf(),
            final(self).selected == Self::after_scroll_up(
                old(self).selected,
                old(self).len(),
                amount as nat,
            ),
            final(self).items == old(self).items,
            final(self).offset == old(self).offset,
            final(self).overwritten_len == old(self).overwritten_len,
    {
        let len = self.get_len();
        if len == 0 {
            return;
        }
        self.selected = match self.selected {
            Some(i) => if amount >= i {
                Some(0)
            } else {
                Some(i - amount)
            },
            None => Some(0),
        };
    }

    /// Puts the cursor on the first visible row, if there is one.
    pub fn select_first(&mut self)
        requires
            old(self).wf(),
        ensures
            final(self).wf(),
            final(self).selected == (if old(self).len() == 0 {
                old(self).selected
            } else {
                Some(0usize)
            }),
            final(self).items == old(self).items,
            final(self).offset == old(self).offset,
            final(self).overwritten_len == old(self).overwritten_len,
    {
        if self.get_len() > 0 {
            self.selected = Some(0);
        }
    }

    /// Puts the cursor on the last visible row, if there is one.
    pub fn select_last(&mut self)
        requires
            old(self).wf(),
        ensures
            final(self).wf(),
            final(self).selected == (if old(self).len() == 0 {
                old(self).selected
            } else {
                Some((old(self).len() - 1) as usize)
            }),
            final(self).items == old(self).items,
            final(self).offset == old(self).offset,
            final(self).overwritten_len == old(self).overwritten_len,
    {
        let len = self.get_len();
        if len > 0 {
            self.selected = Some(len - 1);
        }
    }

    /// Puts the cursor on the given visible row, or removes it. A position
    /// past the last visible row is moved onto the last one.
    pub fn select(&mut self, position: Option<usize>)
        requires
            old(self).wf(),
        ensures
            final(self).wf(),
            final(self).selected == (match position {
                Some(i) => if old(self).len() == 0 {
                    None
                } else if i >= old(self).len() {
                    Some((old(self).len() - 1) as usize)
                } else {
                    Some(i)
                },
                None => None,
            }),
            final(self).items == old(self).items,
            final(self).offset == old(self).offset,
            final(self).overwritten_len == old(self).overwritten_len,
    {
        let len = self.get_len();
        self.selected = match position {
            Some(i) => if len == 0 {
                None
            } else if i >= len {
                Some(len - 1)
            } else {
                Some(i)
            },
            None => None,
        };
    }

    /// Replaces the rows and shows them all. The cursor stays where it was,
    /// or moves onto the last row if the table became shorter; with no rows
    /// left it is removed.
    pub fn set_items(&mut self, items: Vec<T>)
        requires
            old(self).wf(),
        ensures
            final(self).wf(),
            final(self).items == items,
            final(self).overwritten_len is None,
            final(self).offset == old(self).offset,
            final(self).selected == (match old(self).selected {
                Some(i) => if items@.len() == 0 {
                    None
                } else if i >= items@.len() {
                    Some((items@.len() - 1) as usize)
                } else {
                    Some(i)
                },
                None => None,
            }),
    {
        let len = items.len();
        self.items = items;
        self.overwritten_len = None;
        self.selected = match self.selected {
            Some(i) => if len == 0 {
                None
            } else if i >= len {
                Some(len - 1)
            } else {
                Some(i)
            },
            None => None,
        };
    }

    /// Removes all rows, and the cursor with them.
    pub fn clear(&mut self)
        requires
            old(self).wf(),
        ensures
            final(self).wf(),
            final(self).items@.len() == 0,
            final(self).selected is None,
            final(self).overwritten_len is None,
            final(self).offset == old(self).offset,
    {
        self.items.clear();
        self.overwritten_len = None;
        self.selected = None;
    }

    /// Declares that only `len` rows are visible, or, with `None`, that all
    /// are. A cursor past the last visible row moves onto it, and is removed
    /// if no row is visible. A count above the number of rows means all rows.
    pub fn overwrite_len(&mut self, len: Option<usize>)
        requires
            old(self).wf(),
        ensures
            final(self).wf(),
            final(self).items == old(self).items,
            final(self).offset == old(self).offset,
            final(self).overwritten_len == (match len {
                Some(n) => if n <= old(self).items@.len() {
                    Some(n)
                } else {
                    None
                },
                None => None,
            }),
            final(self).selected == (match old(self).selected {
                Some(i) => if final(self).len() == 0 {
                    None
                } else if i >= final(self).len() {
                    Some((final(self).len() - 1) as usize)
                } else {
                    Some(i)
                },
                None => None,
            }),
    {
        self.overwritten_len = match len {
            Some(n) => if n <= self.items.len() {
                Some(n)
            } else {
                None
            },
            None => None,
        };
        let visible = match self.overwritten_len {
            Some(n) => n,
            None => self.items.len(),
        };
        self.selected = match self.selected {
            Some(i) => if visible == 0 {
                None
            } else if i >= visible {
                Some(visible - 1)
            } else {
                Some(i)
            },
            None => None,
        };
    }

    /// Records the first row that the last redraw put on screen.
    pub fn set_offset(&mut self, offset: usize)
        ensures
            final(self).offset == offset,
            final(self).items == old(self).items,
            final(self).selected == old(self).selected,
            final(self).overwritten_len == old(self).overwritten_len,
    {
        self.offset = offset;
    }
}

} // verus!
