//! Selectable menus: an ordered list of entries with at most one selected,
//! moved up and down with wrap-around.
use vstd::prelude::*;

verus! {

/// The entries of the title menu.
#[derive(Clone, Copy, Debug, PartialEq, Eq, Structural)]
pub enum TitleItem {
    Start,
    Settings,
    Quit,
}

/// The entries of the pause menu.
#[derive(Clone, Copy, Debug, PartialEq, Eq, Structural)]
pub enum PauseItem {
    Resume,
    MainMenu,
    Restart,
    Quit,
}

/// The selection after moving up in a list of `len` entries: from the first
/// entry to the last, from any other to the one before it; with nothing
/// selected, the first entry. An empty list keeps index 0.
pub open spec fn index_above(selected: Option<usize>, len: nat) -> Option<usize> {
    match selected {
        None => Some(0),
        Some(i) => if i == 0 {
            if len > 0 {
                Some((len - 1) as usize)
            } else {
                Some(0)
            }
        } else {
            Some((i - 1) as usize)
        },
    }
}

/// The selection after moving down in a list of `len` entries: from the last
/// entry to the first, from any other to the one after it; with nothing
/// selected, the first entry. An empty list keeps index 0.
pub open spec fn index_below(selected: Option<usize>, len: nat) -> Option<usize> {
    match selected {
        None => Some(0),
        Some(i) => if i + 1 >= len {
            Some(0)
        } else {
            Some((i + 1) as usize)
        },
    }
}

/// A list of entries and the index of the selected one, if any.
pub struct StatefulList<T> {
    pub items: Vec<T>,
    pub selected: Option<usize>,
}

impl<T> StatefulList<T> {
    /// The selection, if any, points at an entry, or is the first index of
    /// an empty list.
    pub open spec fn wf(&self) -> bool {
        self.selected matches Some(i) ==> i < self.items.len() || i == 0
    }

    /// A list of `items` with nothing selected.
    pub fn with_items(items: Vec<T>) -> (l: StatefulList<T>)
        ensures
            l.items@ == items@,
            l.selected is None,
            l.wf(),
    {
        StatefulList { items, selected: None }
    }

    /// Moves the selection up, wrapping from the first entry to the last.
    pub fn up(&mut self)
        requires
            old(self).wf(),
        ensures
            final(self).wf(),
            final(self).items == old(self).items,
            final(self).selected == index_above(old(self).selected, old(self).items.len() as nat),
    {
        let len = self.items.len();
        self.selected = match self.selected {
            None => Some(0),
            Some(i) => if i == 0 {
                if len > 0 {
                    Some(len - 1)
                } else {
                    Some(0)
                }
            } else {
                Some(i - 1)
            },
        };
    }

    /// Moves the selection down, wrapping from the last entry to the first.
    pub fn down(&mut self)
        requires
            old(self).wf(),
        ensures
            final(self).wf(),
            final(self).items == old(self).items,
            final(self).selected == index_below(old(self).selected, old(self).items.len() as nat),
    {
        let len = self.items.len();
        self.selected = match self.selected {
            None => Some(0),
            Some(i) => if i >= len || i + 1 == len {
                Some(0)
            } else {
                Some(i + 1)
            },
        };
    }

    /// Selects the entry at `index`.
    pub fn select(&mut self, index: usize)
        ensures
            index < old(self).items.len() || index == 0 ==> final(self).wf(),
            final(self).items == old(self).items,
            final(self).selected == Some(index),
    {
        self.selected = Some(index);
    }

    /// Clears the selection.
    pub fn unselect(&mut self)
        ensures
            final(self).wf(),
            final(self).items == old(self).items,
            final(self).selected is None,
    {
        self.selected = None;
    }
}

} // verus!
