//! Selection state for the two navigable lists. `ListState` and
//! `TableState` model the cursor that the rendering layer draws: just an
//! optional selected index. `StatefulList` pairs a list of items with such
//! a cursor and moves it with wraparound.

use vstd::prelude::*;

verus! {

/// Cursor of the artist list: an optional selected index.
#[derive(Debug)]
pub struct ListState {
    pub selected: Option<usize>,
}

impl ListState {
    /// Sets the selected index.
    pub fn select(&mut self, index: Option<usize>)
        ensures
            final(self).selected == index,
    {
        self.selected = index;
    }

    /// Returns the selected index.
    pub fn selected(&self) -> (r: Option<usize>)
        ensures
            r == self.selected,
    {
        self.selected
    }
}

impl Default for ListState {
    /// A cursor with nothing selected.
    fn default() -> (r: Self)
        ensures
            r.selected is None,
    {
        ListState { selected: None }
    }
}

/// Cursor of the track table: an optional selected row.
#[derive(Debug)]
pub struct TableState {
    pub selected: Option<usize>,
}

impl TableState {
    /// Sets the selected row.
    pub fn select(&mut self, index: Option<usize>)
        ensures
            final(self).selected == index,
    {
        self.selected = index;
    }

    /// Returns the selected row.
    pub fn selected(&self) -> (r: Option<usize>)
        ensures
            r == self.selected,
    {
        self.selected
    }
}

impl Default for TableState {
    /// A cursor with nothing selected.
    fn default() -> (r: Self)
        ensures
            r.selected is None,
    {
        TableState { selected: None }
    }
}

/// The index selected after moving `n` steps down from `sel` in a list of
/// `len` items: moving past the last item wraps to the first, and with no
/// selection the first item is selected.
pub open spec fn wrap_next(sel: Option<usize>, n: int, len: int) -> int {
    match sel {
        Option::None => 0,
        Option::Some(i) => if i + n > len - 1 {
            0
        } else {
            i + n
        },
    }
}

/// The index selected after moving `n` steps up from `sel` in a list of
/// `len` items: moving past the first item wraps to the last, and with no
/// selection the first item is selected.
pub open spec fn wrap_prev(sel: Option<usize>, n: int, len: int) -> int {
    match sel {
        Option::None => 0,
        Option::Some(i) => if i == 0 {
            len - 1
        } else if i < n {
            0
        } else {
            i - n
        },
    }
}

/// A list of items together with the cursor over it.
#[derive(Debug)]
pub struct StatefulList<T> {
    pub state: ListState,
    pub items: Vec<T>,
}

impl<T> StatefulList<T> {
    /// A cursor within bounds of a non-empty item list.
    pub open spec fn wf(&self) -> bool {
        &&& self.items.len() > 0
        &&& match self.state.selected {
            Option::None => true,
            Option::Some(i) => i < self.items.len(),
        }
    }

    /// A list over the given items with the first one selected.
    pub fn with_items(items: Vec<T>) -> (r: StatefulList<T>)
        requires
            items.len() > 0,
        ensures
            r.items == items,
            r.state.selected == Some(0usize),
            r.wf(),
    {
        let mut list = StatefulList { state: ListState::default(), items };
        list.state.select(Some(0));
        list
    }

    /// Moves the selection `n` steps down, wrapping past the end.
    pub fn next(&mut self, n: usize)
        requires
            old(self).wf(),
        ensures
            final(self).items == old(self).items,
            final(self).state.selected == Some(
                wrap_next(old(self).state.selected, n as int, old(self).items.len() as int) as usize,
            ),
            final(self).wf(),
    {
        let i: usize = match self.state.selected() {
            Some(i) => {
                if n > self.items.len() - 1 - i {
                    0
                } else {
                    i + n
                }
            },
            None => 0,
        };
        self.state.select(Some(i));
    }

    /// Moves the selection `n` steps up, wrapping past the start.
    pub fn previous(&mut self, n: usize)
        requires
            old(self).wf(),
        ensures
            final(self).items == old(self).items,
            final(self).state.selected == Some(
                wrap_prev(old(self).state.selected, n as int, old(self).items.len() as int) as usize,
            ),
            final(self).wf(),
    {
        let i: usize = match self.state.selected() {
            Some(i) => {
                if i == 0 {
                    self.items.len() - 1
                } else if i < n {
                    0
                } else {
                    i - n
                }
            },
            None => 0,
        };
        self.state.select(Some(i));
    }
}

/// The artist index after `n` single steps down, each with wraparound.
pub open spec fn down_n(i: int, n: nat, len: int) -> int
    decreases n,
{
    if n == 0 {
        i
    } else {
        wrap_next(Some(down_n(i, (n - 1) as nat, len) as usize), 1, len)
    }
}

/// The artist index after `n` single steps up, each with wraparound.
pub open spec fn up_n(i: int, n: nat, len: int) -> int
    decreases n,
{
    if n == 0 {
        i
    } else {
        up_n(wrap_prev(Some(i as usize), 1, len), (n - 1) as nat, len)
    }
}

/// One step down followed by one step up returns to the starting index.
pub proof fn lemma_step_roundtrip(i: int, len: int)
    requires
        0 <= i < len,
        len <= usize::MAX,
    ensures
        wrap_prev(Some(wrap_next(Some(i as usize), 1, len) as usize), 1, len) == i,
{
}

/// In a non-empty list, moving down `n` times and then up `n` times
/// returns to the starting index, from any starting index.
pub proof fn lemma_down_up_roundtrip(i: int, n: nat, len: int)
    requires
        0 <= i < len,
        len <= usize::MAX,
    ensures
        up_n(down_n(i, n, len), n, len) == i,
    decreases n,
{
    if n > 0 {
        let j = down_n(i, (n - 1) as nat, len);
        lemma_down_up_n_bound(i, (n - 1) as nat, len);
        lemma_step_roundtrip(j, len);
        lemma_down_up_roundtrip(i, (n - 1) as nat, len);
    }
}

/// Stepping down stays within bounds.
pub proof fn lemma_down_up_n_bound(i: int, n: nat, len: int)
    requires
        0 <= i < len,
        len <= usize::MAX,
    ensures
        0 <= down_n(i, n, len) < len,
    decreases n,
{
    if n > 0 {
        lemma_down_up_n_bound(i, (n - 1) as nat, len);
    }
}

} // verus!
