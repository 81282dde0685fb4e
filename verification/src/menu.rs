//! The menu: an ordered list of labels fixed at construction, and a single
//! selection cursor that wraps around at both ends.

use vstd::prelude::*;

verus! {

/// The selection index after one step down: advance by one, wrapping to the
/// first entry after the last.
pub open spec fn next_sel(i: int, len: int) -> int {
    if i + 1 >= len {
        0
    } else {
        i + 1
    }
}

/// The selection index after one step up: decrement, wrapping to the last
/// entry when at the first.
pub open spec fn prev_sel(i: int, len: int) -> int {
    if i == 0 {
        len - 1
    } else {
        i - 1
    }
}

/// The selection index after `k` steps down in a row.
pub open spec fn next_sel_iter(i: int, len: int, k: nat) -> int
    decreases k,
{
    if k == 0 {
        i
    } else {
        next_sel(next_sel_iter(i, len, (k - 1) as nat), len)
    }
}

/// Stepping down never leaves the valid index range, and `k` steps down from
/// index `i` land on `i + k` shifted back by `len` once it passes the end.
pub proof fn lemma_next_iter_value(i: int, len: int, k: nat)
    requires
        0 < len,
        0 <= i < len,
        k <= len,
    ensures
        next_sel_iter(i, len, k) == if i + k < len {
            i + k
        } else {
            i + k - len
        },
        0 <= next_sel_iter(i, len, k) < len,
    decreases k,
{
    if k > 0 {
        lemma_next_iter_value(i, len, (k - 1) as nat);
    }
}

/// Law: stepping down once per menu entry returns to the starting selection.
pub proof fn lemma_next_full_cycle(i: int, len: int)
    requires
        0 < len,
        0 <= i < len,
    ensures
        next_sel_iter(i, len, len as nat) == i,
{
    lemma_next_iter_value(i, len, len as nat);
}

/// Law: one step up undoes one step down, and one step down undoes one step
/// up, from any valid selection index.
pub proof fn lemma_prev_undoes_next(i: int, len: int)
    requires
        0 < len,
        0 <= i < len,
    ensures
        prev_sel(next_sel(i, len), len) == i,
        next_sel(prev_sel(i, len), len) == i,
{
}

/// The index a step down selects, from a possibly-unset selection: an unset
/// selection snaps to the first entry.
pub open spec fn index_after_next(sel: Option<usize>, len: nat) -> usize {
    match sel {
        None => 0usize,
        Some(i) => next_sel(i as int, len as int) as usize,
    }
}

/// The index a step up selects, from a possibly-unset selection.
pub open spec fn index_after_prev(sel: Option<usize>, len: nat) -> usize {
    match sel {
        None => 0usize,
        Some(i) => prev_sel(i as int, len as int) as usize,
    }
}

/// An ordered list of action labels with a single selection cursor.
pub struct MenuModel {
    pub items: Vec<String>,
    pub selected: Option<usize>,
}

impl MenuModel {
    /// The labels as sequences of characters.
    pub open spec fn labels(self) -> Seq<Seq<char>> {
        self.items.deep_view()
    }

    /// After construction the selection is always set and in range, and the
    /// list is never empty.
    pub open spec fn wf(self) -> bool {
        &&& self.items@.len() > 0
        &&& self.selected matches Some(i) && i < self.items@.len()
    }

    /// A new menu over the given labels, with the first entry selected.
    pub fn new(items: Vec<String>) -> (m: MenuModel)
        requires
            items@.len() > 0,
        ensures
            m.wf(),
            m.items == items,
            m.selected == Some(0usize),
    {
        MenuModel { items, selected: Some(0) }
    }

    /// Move the selection one entry down, wrapping to the top after the last
    /// entry; an unset selection snaps to the first entry.
    pub fn next(&mut self)
        requires
            old(self).items@.len() > 0,
            old(self).selected matches Some(i) ==> i < old(self).items@.len(),
        ensures
            final(self).items == old(self).items,
            final(self).selected == Some(
                index_after_next(old(self).selected, old(self).items@.len()),
            ),
            final(self).wf(),
    {
        let len: usize = self.items.len();
        let i: usize = match self.selected {
            Some(i) => if i >= len - 1 {
                0
            } else {
                i + 1
            },
            None => 0,
        };
        self.selected = Some(i);
    }

    /// Move the selection one entry up, wrapping to the bottom when at the
    /// first entry; an unset selection snaps to the first entry.
    pub fn previous(&mut self)
        requires
            old(self).items@.len() > 0,
            old(self).selected matches Some(i) ==> i < old(self).items@.len(),
        ensures
            final(self).items == old(self).items,
            final(self).selected == Some(
                index_after_prev(old(self).selected, old(self).items@.len()),
            ),
            final(self).wf(),
    {
        let len: usize = self.items.len();
        let i: usize = match self.selected {
            Some(i) => if i == 0 {
                len - 1
            } else {
                i - 1
            },
            None => 0,
        };
        self.selected = Some(i);
    }

    /// The label at the current selection; the caller guarantees a non-empty,
    /// well-formed menu.
    pub fn selected_label(&self) -> (label: &String)
        requires
            self.wf(),
        ensures
            label@ == self.labels()[self.selected->Some_0 as int],
    {
        let i: usize = match self.selected {
            Some(i) => i,
            None => 0,
        };
        &self.items[i]
    }
}

} // verus!
