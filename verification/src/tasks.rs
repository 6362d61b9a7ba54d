//! The foreground tasks of the torrents tab. Each one owns the keyboard
//! while it is the current task and asks to be closed with
//! `ComponentAction::Quit`.

pub mod add_magnet;
pub mod change_category;
pub mod delete_torrent;
pub mod filter;
pub mod move_torrent;
pub mod rename;
pub mod status;

use vstd::prelude::*;
use vstd::string::*;
use crate::text::{decimal, push_decimal};

verus! {

/// A named group of torrents with the directory its downloads go to.
#[derive(Clone, Debug, PartialEq, Eq)]
pub struct Category {
    pub name: String,
    pub default_dir: String,
}

pub struct CategoryView {
    pub name: Seq<char>,
    pub default_dir: Seq<char>,
}

impl View for Category {
    type V = CategoryView;

    open spec fn view(&self) -> CategoryView {
        CategoryView { name: self.name@, default_dir: self.default_dir@ }
    }
}

/// The configured categories, by their characters.
pub open spec fn categories_view(categories: Seq<Category>) -> Seq<CategoryView> {
    categories.map_values(|c: Category| c@)
}

/// The position of the first category with the given name.
pub open spec fn find_category(categories: Seq<CategoryView>, name: Seq<char>) -> Option<int>
    decreases categories.len(),
{
    if categories.len() == 0 {
        None
    } else if categories[0].name == name {
        Some(0)
    } else {
        match find_category(categories.drop_first(), name) {
            Some(i) => Some(i + 1),
            None => None,
        }
    }
}

/// Finds the first category with the given name.
pub fn lookup_category(categories: &Vec<Category>, name: &String) -> (found: Option<usize>)
    ensures
        match found {
            Some(i) => i < categories@.len() && find_category(
                categories_view(categories@),
                name@,
            ) == Some(i as int),
            None => find_category(categories_view(categories@), name@) is None,
        },
{
    let ghost all = categories_view(categories@);
    let mut i: usize = categories.len();
    let mut found: Option<usize> = None;
    assert(all.subrange(i as int, all.len() as int) =~= Seq::<CategoryView>::empty());
    while i > 0
        invariant
            all == categories_view(categories@),
            0 <= i <= categories@.len(),
            match found {
                Some(k) => i <= k < categories@.len() && find_category(
                    all.subrange(i as int, all.len() as int),
                    name@,
                ) == Some(k - i),
                None => find_category(all.subrange(i as int, all.len() as int), name@) is None,
            },
        decreases i,
    {
        i = i - 1;
        let ghost tail = all.subrange(i as int, all.len() as int);
        assert(tail.drop_first() =~= all.subrange(i + 1, all.len() as int));
        assert(tail[0] == categories@[i as int]@);
        if categories[i].name == *name {
            found = Some(i);
        }
    }
    assert(all.subrange(0, all.len() as int) =~= all);
    found
}

/// A copy of the configured categories.
pub fn copy_categories(categories: &Vec<Category>) -> (copy: Vec<Category>)
    ensures
        categories_view(copy@) == categories_view(categories@),
{
    let mut copy: Vec<Category> = Vec::new();
    let mut i: usize = 0;
    while i < categories.len()
        invariant
            0 <= i <= categories@.len(),
            copy@.len() == i,
            forall|k: int| 0 <= k < i ==> copy@[k]@ == categories@[k]@,
        decreases categories@.len() - i,
    {
        let c = &categories[i];
        copy.push(Category { name: c.name.clone(), default_dir: c.default_dir.clone() });
        i = i + 1;
    }
    assert(categories_view(copy@) =~= categories_view(categories@));
    copy
}

/// The torrents that a task works on: the one under the cursor, with its
/// name, or all of a multi-selection.
#[derive(Clone, Debug, PartialEq, Eq)]
pub enum TorrentSelection {
    Single(i64, String),
    Many(Vec<i64>),
}

pub enum TorrentSelectionView {
    Single(i64, Seq<char>),
    Many(Seq<i64>),
}

impl TorrentSelectionView {
    /// The ids of the torrents, in the order they were selected.
    pub open spec fn ids(self) -> Seq<i64> {
        match self {
            TorrentSelectionView::Single(id, _) => seq![id],
            TorrentSelectionView::Many(ids) => ids,
        }
    }

    /// How the status line names the selection: one torrent by its name,
    /// several by their number.
    pub open spec fn label(self) -> Seq<char> {
        match self {
            TorrentSelectionView::Single(_, name) => name,
            TorrentSelectionView::Many(ids) => decimal(ids.len()) + " torrents"@,
        }
    }
}

impl View for TorrentSelection {
    type V = TorrentSelectionView;

    open spec fn view(&self) -> TorrentSelectionView {
        match self {
            TorrentSelection::Single(id, name) => TorrentSelectionView::Single(*id, name@),
            TorrentSelection::Many(ids) => TorrentSelectionView::Many(ids@),
        }
    }
}

impl TorrentSelection {
    /// The ids of the torrents.
    pub fn ids(&self) -> (ids: Vec<i64>)
        ensures
            ids@ == self@.ids(),
    {
        match self {
            TorrentSelection::Single(id, _) => {
                let mut ids: Vec<i64> = Vec::new();
                ids.push(*id);
                assert(ids@ =~= seq![*id]);
                ids
            },
            TorrentSelection::Many(ids) => {
                let copy = ids.clone();
                assert(copy@ =~= ids@);
                copy
            },
        }
    }

    /// The number of torrents.
    pub fn count(&self) -> (n: usize)
        ensures
            n == self@.ids().len(),
    {
        match self {
            TorrentSelection::Single(_, _) => 1,
            TorrentSelection::Many(ids) => ids.len(),
        }
    }

    /// The name for the status line.
    pub fn label(&self) -> (label: String)
        ensures
            label@ == self@.label(),
    {
        match self {
            TorrentSelection::Single(_, name) => name.clone(),
            TorrentSelection::Many(ids) => {
                let mut label = String::new();
                push_decimal(&mut label, ids.len() as u128);
                label.append(" torrents");
                assert(label@ =~= self@.label());
                label
            },
        }
    }
}

/// Whether a text is exactly the given one.
pub fn text_is(text: &String, expected: &str) -> (same: bool)
    ensures
        same == (text@ == expected@),
{
    *text == String::from_str(expected)
}

} // verus!
