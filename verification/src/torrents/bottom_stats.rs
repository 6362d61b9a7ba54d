//! The figures in the bottom line of the torrents tab.

use vstd::prelude::*;
use crate::messages::SessionStats;

verus! {

/// Where the cursor is: its row, counted from 1, of how many rows on show.
#[derive(Clone, Copy, Debug, PartialEq, Eq, Structural)]
pub struct Position {
    pub row: usize,
    pub of: usize,
}

#[derive(Clone, Copy, Debug, PartialEq, Eq, Structural)]
pub struct BottomStats {
    pub stats: Option<SessionStats>,
    /// The free space on the download disk, in bytes.
    pub free_space: Option<u64>,
    pub position: Option<Position>,
}

/// The indicator for a cursor among `len` rows.
pub open spec fn indicator(cursor: Option<usize>, len: nat) -> Option<Position> {
    match cursor {
        Some(c) => Some(Position { row: (c + 1) as usize, of: len as usize }),
        None => None,
    }
}

impl BottomStats {
    pub fn new() -> (bottom: BottomStats)
        ensures
            bottom == (BottomStats { stats: None, free_space: None, position: None }),
    {
        BottomStats { stats: None, free_space: None, position: None }
    }

    pub fn set_stats(&mut self, stats: SessionStats)
        ensures
            *final(self) == (BottomStats { stats: Some(stats), ..*old(self) }),
    {
        self.stats = Some(stats);
    }

    pub fn set_free_space(&mut self, free_space: u64)
        ensures
            *final(self) == (BottomStats { free_space: Some(free_space), ..*old(self) }),
    {
        self.free_space = Some(free_space);
    }

    /// Takes over where the cursor is, among how many rows.
    pub fn update_selected_indicator(&mut self, cursor: Option<usize>, len: usize)
        requires
            cursor matches Some(c) ==> c < len,
        ensures
            *final(self) == (BottomStats { position: indicator(cursor, len as nat), ..*old(self) }),
    {
        self.position = match cursor {
            Some(c) => Some(Position { row: c + 1, of: len }),
            None => None,
        };
    }
}

} // verus!
