//! Ordered selection lists with a single active index and wraparound
//! navigation, used for every cascading list of the session.

use vstd::prelude::*;

verus! {

/// The cascading role a selection list plays in the session.
#[derive(Clone, Copy, Debug, PartialEq, Eq, Structural)]
pub enum StatefulListType {
    PartOfSpeech,
    Definition,
    Synonym,
    Antonym,
    All,
}

/// An ordered list of items with one active index.
///
/// The active index wraps around in both directions; it is `None` exactly
/// when the list is empty, so out-of-range selections are impossible.
#[derive(Clone, Debug)]
pub struct StatefulList<T> {
    pub items: Vec<T>,
    pub selected: Option<usize>,
    pub list_type: StatefulListType,
}

/// The active index a freshly built list starts with: the first item when
/// there is one, otherwise nothing.
pub open spec fn initial_sel(len: nat) -> Option<usize> {
    if len > 0 {
        Some(0usize)
    } else {
        None
    }
}

/// The active index after one step forward: advance by one, wrapping to the
/// first index past the last one. Stepping does nothing to an empty list.
pub open spec fn next_sel(sel: Option<usize>, len: nat) -> Option<usize> {
    match sel {
        Some(i) => if i + 1 < len {
            Some((i + 1) as usize)
        } else {
            Some(0usize)
        },
        None => None,
    }
}

/// The active index after one step backward: retreat by one, wrapping to the
/// last index from the first one. Stepping does nothing to an empty list.
pub open spec fn prev_sel(sel: Option<usize>, len: nat) -> Option<usize> {
    match sel {
        Some(i) => if i == 0 {
            Some((len - 1) as usize)
        } else {
            Some((i - 1) as usize)
        },
        None => None,
    }
}

/// The active index after `n` steps forward.
pub open spec fn next_sel_n(sel: Option<usize>, len: nat, n: nat) -> Option<usize>
    decreases n,
{
    if n == 0 {
        sel
    } else {
        next_sel(next_sel_n(sel, len, (n - 1) as nat), len)
    }
}

impl<T> StatefulList<T> {
    /// The structural invariant: the active index is `None` exactly when the
    /// list is empty, and in range otherwise.
    pub open spec fn wf(self) -> bool {
        match self.selected {
            Some(i) => i < self.items@.len(),
            None => self.items@.len() == 0,
        }
    }

    /// Builds a list over `items`, selecting the first item when there is one.
    pub fn with_items(items: Vec<T>, list_type: StatefulListType) -> (r: Self)
        ensures
            r.items == items,
            r.list_type == list_type,
            r.selected == initial_sel(items@.len()),
            r.wf(),
    {
        let selected: Option<usize> = if items.len() > 0 {
            Some(0)
        } else {
            None
        };
        StatefulList { items, selected, list_type }
    }

    /// Advances the active index by one, wrapping past the last item.
    pub fn down(&mut self)
        requires
            old(self).wf(),
        ensures
            final(self).items == old(self).items,
            final(self).list_type == old(self).list_type,
            final(self).selected == next_sel(old(self).selected, old(self).items@.len()),
            final(self).wf(),
    {
        match self.selected {
            Some(i) => {
                assert(i < self.items.len());
                if i + 1 < self.items.len() {
                    self.selected = Some(i + 1);
                } else {
                    self.selected = Some(0);
                }
            }
            None => {}
        }
    }

    /// Retreats the active index by one, wrapping to the last item.
    pub fn up(&mut self)
        requires
            old(self).wf(),
        ensures
            final(self).items == old(self).items,
            final(self).list_type == old(self).list_type,
            final(self).selected == prev_sel(old(self).selected, old(self).items@.len()),
            final(self).wf(),
    {
        match self.selected {
            Some(i) => {
                if i == 0 {
                    self.selected = Some(self.items.len() - 1);
                } else {
                    self.selected = Some(i - 1);
                }
            }
            None => {}
        }
    }

    /// Resets the active index to the first item, or to nothing when empty.
    pub fn select_first(&mut self)
        ensures
            final(self).items == old(self).items,
            final(self).list_type == old(self).list_type,
            final(self).selected == initial_sel(old(self).items@.len()),
            final(self).wf(),
    {
        if self.items.len() > 0 {
            self.selected = Some(0);
        } else {
            self.selected = None;
        }
    }

    /// The item at the active index, or nothing when the list is empty.
    pub fn selected_item(&self) -> (r: Option<&T>)
        requires
            self.wf(),
        ensures
            match r {
                Some(item) => (self.selected matches Some(i) && *item == self.items@[i as int]),
                None => self.selected is None,
            },
    {
        match self.selected {
            Some(i) => Some(&self.items[i]),
            None => None,
        }
    }
}

/// One step forward then one step backward (or the other way around)
/// restores the active index of any non-empty well-formed list.
pub proof fn lemma_down_up_restores<T>(l: StatefulList<T>)
    requires
        l.wf(),
        l.items@.len() > 0,
    ensures
        prev_sel(next_sel(l.selected, l.items@.len()), l.items@.len()) == l.selected,
        next_sel(prev_sel(l.selected, l.items@.len()), l.items@.len()) == l.selected,
{
    assert(vstd::std_specs::vec::spec_vec_len(&l.items) == l.items@.len());
}

proof fn lemma_next_sel_n_shift(i: usize, len: nat, n: nat)
    requires
        i < len,
        n <= len,
        len <= usize::MAX,
    ensures
        next_sel_n(Some(i), len, n) == if i + n < len {
            Some((i + n) as usize)
        } else {
            Some((i + n - len) as usize)
        },
    decreases n,
{
    if n > 0 {
        lemma_next_sel_n_shift(i, len, (n - 1) as nat);
    }
}

/// Stepping forward as many times as a non-empty well-formed list has items
/// returns the active index to its starting value: a full wraparound cycle.
pub proof fn lemma_full_cycle<T>(l: StatefulList<T>)
    requires
        l.wf(),
        l.items@.len() > 0,
    ensures
        next_sel_n(l.selected, l.items@.len(), l.items@.len()) == l.selected,
{
    let i = l.selected->Some_0;
    assert(vstd::std_specs::vec::spec_vec_len(&l.items) == l.items@.len());
    lemma_next_sel_n_shift(i, l.items@.len(), l.items@.len());
}

} // verus!
