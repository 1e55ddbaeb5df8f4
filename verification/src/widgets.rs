//! Models of the dialog's selection widgets.
//!
//! A combo box holds an ordered list of entries of which exactly one is
//! current (the first one right after the contents are replaced), and a role
//! list holds an ordered list of entries of which any subset may be
//! highlighted.  Only the state that the dialog logic reads is modelled:
//! entry texts and selection positions.

use vstd::prelude::*;

use crate::text::texts;

verus! {

use vstd::pervasive::VecAdditionalExecFns;

/// What a combo box shows: its entries' texts and the current position.
///
/// An empty combo box keeps position `0`; its current text reads as empty.
#[verifier::ext_equal]
pub ghost struct ComboBoxView {
    pub items: Seq<Seq<char>>,
    pub current: int,
}

impl ComboBoxView {
    /// The current position points at an entry whenever there is one.
    pub open spec fn wf(self) -> bool {
        if self.items.len() == 0 {
            self.current == 0
        } else {
            0 <= self.current < self.items.len()
        }
    }

    /// The text of the current entry, or empty text for an empty combo box.
    pub open spec fn current_text(self) -> Seq<char> {
        if self.items.len() == 0 {
            Seq::empty()
        } else {
            self.items[self.current]
        }
    }
}

/// A combo box: an ordered list of entries with one current position.
pub struct ComboBoxState {
    items: Vec<String>,
    current: usize,
}

impl View for ComboBoxState {
    type V = ComboBoxView;

    closed spec fn view(&self) -> ComboBoxView {
        ComboBoxView { items: texts(self.items@), current: self.current as int }
    }
}

impl ComboBoxState {
    /// An empty combo box.
    pub fn new() -> (cb: ComboBoxState)
        ensures
            cb@ == (ComboBoxView { items: Seq::empty(), current: 0 }),
    {
        let cb = ComboBoxState { items: Vec::new(), current: 0 };
        proof {
            assert(cb@ =~~= (ComboBoxView { items: Seq::empty(), current: 0 }));
        }
        cb
    }

    /// Remove every entry; the position falls back to `0`.
    pub fn clear(&mut self)
        ensures
            final(self)@ == (ComboBoxView { items: Seq::empty(), current: 0 }),
    {
        self.items.clear();
        self.current = 0;
        proof {
            assert(self@ =~~= (ComboBoxView { items: Seq::empty(), current: 0 }));
        }
    }

    /// Append one entry at the end; the current position does not move.
    pub fn add_item(&mut self, text: String)
        ensures
            final(self)@ == (ComboBoxView {
                items: old(self)@.items.push(text@),
                current: old(self)@.current,
            }),
    {
        proof {
            crate::text::lemma_texts_push(self.items@, text);
        }
        self.items.push(text);
        proof {
            assert(self@ =~~= (ComboBoxView {
                items: old(self)@.items.push(text@),
                current: old(self)@.current,
            }));
        }
    }

    /// Append a copy of each given entry, in order; the position does not move.
    pub fn add_items_cloned(&mut self, entries: &Vec<String>)
        ensures
            final(self)@ == (ComboBoxView {
                items: old(self)@.items + texts(entries@),
                current: old(self)@.current,
            }),
    {
        let n: usize = entries.len();
        let mut i: usize = 0;
        while i < n
            invariant
                i <= n,
                n == entries@.len(),
                self.current == old(self).current,
                self@.items =~= old(self)@.items + texts(entries@).take(i as int),
            decreases n - i,
        {
            let entry = entries[i].clone();
            assert(entry@ == entries@[i as int]@);
            self.add_item(entry);
            proof {
                assert(self@.items =~= old(self)@.items + texts(entries@).take(i as int + 1));
            }
            i = i + 1;
        }
        proof {
            assert(texts(entries@).take(n as int) =~= texts(entries@));
            assert(self@ =~~= (ComboBoxView {
                items: old(self)@.items + texts(entries@),
                current: old(self)@.current,
            }));
        }
    }

    /// Move the current position to `index`.
    pub fn set_current(&mut self, index: usize)
        requires
            index < old(self)@.items.len(),
        ensures
            final(self)@ == (ComboBoxView { items: old(self)@.items, current: index as int }),
    {
        self.current = index;
        proof {
            assert(self@ =~~= (ComboBoxView { items: old(self)@.items, current: index as int }));
        }
    }

    /// How many entries the combo box holds.
    pub fn count(&self) -> (n: usize)
        ensures
            n == self@.items.len(),
    {
        self.items.len()
    }

    /// The current position.
    pub fn current_index(&self) -> (index: usize)
        ensures
            index == self@.current,
    {
        self.current
    }

    /// A copy of the current entry's text, or the empty string when empty.
    pub fn current_text(&self) -> (text: String)
        requires
            self@.wf(),
        ensures
            text@ == self@.current_text(),
    {
        if self.items.len() == 0 {
            String::new()
        } else {
            self.items[self.current].clone()
        }
    }

    /// A copy of the entry at `index`.
    pub fn item_text(&self, index: usize) -> (text: String)
        requires
            index < self@.items.len(),
        ensures
            text@ == self@.items[index as int],
    {
        self.items[index].clone()
    }
}

/// What a role list shows: its entries' texts and which are highlighted.
#[verifier::ext_equal]
pub ghost struct RoleListView {
    pub items: Seq<Seq<char>>,
    pub selected: Seq<bool>,
}

impl RoleListView {
    /// Each entry has a highlight flag.
    pub open spec fn wf(self) -> bool {
        self.selected.len() == self.items.len()
    }

    /// The texts of the highlighted entries, in list order.
    pub open spec fn selected_texts(self) -> Seq<Seq<char>> {
        picked_prefix(self.items, self.selected, self.items.len() as int)
    }
}

/// The texts among the first `n` entries whose highlight flag is set,
/// in list order.
pub open spec fn picked_prefix(items: Seq<Seq<char>>, selected: Seq<bool>, n: int) -> Seq<Seq<char>>
    decreases n,
{
    if n <= 0 {
        Seq::empty()
    } else {
        let rest = picked_prefix(items, selected, n - 1);
        if n - 1 < items.len() && n - 1 < selected.len() && selected[n - 1] {
            rest.push(items[n - 1])
        } else {
            rest
        }
    }
}

/// With every entry highlighted, the picked texts are the entries themselves.
pub proof fn lemma_picked_all_selected(items: Seq<Seq<char>>, n: int)
    requires
        0 <= n <= items.len(),
    ensures
        picked_prefix(items, Seq::new(items.len(), |i: int| true), n) == items.take(n),
    decreases n,
{
    if n > 0 {
        lemma_picked_all_selected(items, n - 1);
    }
    assert(picked_prefix(items, Seq::new(items.len(), |i: int| true), n) =~= items.take(n));
}

/// A multi-select list: an ordered list of entries, any subset highlighted.
pub struct RoleListState {
    items: Vec<String>,
    selected: Vec<bool>,
}

impl View for RoleListState {
    type V = RoleListView;

    closed spec fn view(&self) -> RoleListView {
        RoleListView { items: texts(self.items@), selected: self.selected@ }
    }
}

impl RoleListState {
    /// An empty list.
    pub fn new() -> (list: RoleListState)
        ensures
            list@ == (RoleListView { items: Seq::empty(), selected: Seq::empty() }),
    {
        let list = RoleListState { items: Vec::new(), selected: Vec::new() };
        proof {
            assert(list@ =~~= (RoleListView { items: Seq::empty(), selected: Seq::empty() }));
        }
        list
    }

    /// Replace the entries; every new entry starts out unhighlighted.
    pub fn set_items(&mut self, items: Vec<String>)
        ensures
            final(self)@ == (RoleListView {
                items: texts(items@),
                selected: Seq::new(items@.len(), |i: int| false),
            }),
    {
        let n: usize = items.len();
        self.items = items;
        self.selected = vec![false; n];
        proof {
            assert(self@.selected =~= Seq::new(self.items@.len(), |i: int| false));
            assert(self@ =~~= (RoleListView {
                items: texts(self.items@),
                selected: Seq::new(self.items@.len(), |i: int| false),
            }));
        }
    }

    /// Highlight every entry.
    pub fn select_all(&mut self)
        ensures
            final(self)@ == (RoleListView {
                items: old(self)@.items,
                selected: Seq::new(old(self)@.items.len(), |i: int| true),
            }),
    {
        let n: usize = self.items.len();
        self.selected = vec![true; n];
        proof {
            assert(self@ =~~= (RoleListView {
                items: old(self)@.items,
                selected: Seq::new(old(self)@.items.len(), |i: int| true),
            }));
        }
    }

    /// Highlight or unhighlight the entry at `index`.
    pub fn set_selected(&mut self, index: usize, selected: bool)
        requires
            old(self)@.wf(),
            index < old(self)@.items.len(),
        ensures
            final(self)@ == (RoleListView {
                items: old(self)@.items,
                selected: old(self)@.selected.update(index as int, selected),
            }),
    {
        self.selected.set(index, selected);
        proof {
            assert(self@ =~~= (RoleListView {
                items: old(self)@.items,
                selected: old(self)@.selected.update(index as int, selected),
            }));
        }
    }

    /// How many entries the list holds.
    pub fn count(&self) -> (n: usize)
        ensures
            n == self@.items.len(),
    {
        self.items.len()
    }

    /// Copies of the highlighted entries' texts, in list order.
    pub fn selected_items(&self) -> (found: Vec<String>)
        requires
            self@.wf(),
        ensures
            texts(found@) == self@.selected_texts(),
    {
        let n: usize = self.items.len();
        let mut found: Vec<String> = Vec::new();
        let mut i: usize = 0;
        while i < n
            invariant
                i <= n,
                n == self@.items.len(),
                self@.wf(),
                texts(found@) =~= picked_prefix(self@.items, self@.selected, i as int),
            decreases n - i,
        {
            if self.selected[i] {
                let entry = self.items[i].clone();
                proof {
                    crate::text::lemma_texts_push(found@, entry);
                }
                found.push(entry);
            }
            proof {
                assert(texts(found@) =~= picked_prefix(self@.items, self@.selected, i as int + 1));
            }
            i = i + 1;
        }
        proof {
            assert(texts(found@) =~= self@.selected_texts());
        }
        found
    }
}

} // verus!
