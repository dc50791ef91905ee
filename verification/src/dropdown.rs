//! A list of choices of which one is selected.

use vstd::prelude::*;

verus! {

/// A dropdown: its items, the selected one, and whether the list is open.
pub struct Dropdown {
    items: Vec<String>,
    selected: usize,
    open: bool,
}

/// What a dropdown holds.
pub struct DropdownModel {
    pub items: Seq<Seq<char>>,
    pub selected: nat,
    pub open: bool,
}

impl DropdownModel {
    /// The dropdown with the next item selected; after the last comes the
    /// first.
    pub open spec fn advanced(self) -> DropdownModel
        recommends
            self.items.len() > 0,
    {
        DropdownModel { selected: (self.selected + 1) % self.items.len(), ..self }
    }

    /// The dropdown with the item before selected; before the first comes
    /// the last.
    pub open spec fn retreated(self) -> DropdownModel
        recommends
            self.items.len() > 0,
    {
        DropdownModel {
            selected: if self.selected == 0 {
                (self.items.len() - 1) as nat
            } else {
                (self.selected - 1) as nat
            },
            ..self
        }
    }

    /// The dropdown opened, or closed.
    pub open spec fn toggled(self) -> DropdownModel {
        DropdownModel { open: !self.open, ..self }
    }
}

impl View for Dropdown {
    type V = DropdownModel;

    closed spec fn view(&self) -> DropdownModel {
        DropdownModel {
            items: Seq::new(self.items@.len(), |i: int| self.items@[i]@),
            selected: self.selected as nat,
            open: self.open,
        }
    }
}

impl Dropdown {
    #[verifier::type_invariant]
    spec fn selection_in_range(self) -> bool {
        self.selected < self.items@.len() || self.selected == 0
    }

    /// A closed dropdown over `items`, with the first one selected.
    pub fn new(items: Vec<String>) -> (dropdown: Dropdown)
        ensures
            dropdown@ == (DropdownModel {
                items: Seq::new(items@.len(), |i: int| items@[i]@),
                selected: 0,
                open: false,
            }),
    {
        Dropdown { items, selected: 0, open: false }
    }

    /// Selects the next item; after the last comes the first.
    pub fn next(&mut self)
        requires
            old(self)@.items.len() > 0,
        ensures
            final(self)@ == old(self)@.advanced(),
    {
        proof {
            use_type_invariant(&*self);
        }
        let len: usize = self.items.len();
        self.selected = (self.selected + 1) % len;
    }

    /// Selects the item before; before the first comes the last.
    pub fn previous(&mut self)
        requires
            old(self)@.items.len() > 0,
        ensures
            final(self)@ == old(self)@.retreated(),
    {
        proof {
            use_type_invariant(&*self);
        }
        if self.selected == 0 {
            self.selected = self.items.len() - 1;
        } else {
            self.selected = self.selected - 1;
        }
    }

    /// The selected item.
    pub fn get_selected_value(&self) -> (value: String)
        requires
            self@.items.len() > 0,
        ensures
            self@.selected < self@.items.len(),
            value@ == self@.items[self@.selected as int],
    {
        proof {
            use_type_invariant(self);
        }
        self.items[self.selected].clone()
    }

    /// Opens the list, or closes it.
    pub fn toggle(&mut self)
        ensures
            final(self)@ == old(self)@.toggled(),
    {
        proof {
            use_type_invariant(&*self);
        }
        self.open = !self.open;
    }

    /// The position of the selected item.
    pub fn selected_index(&self) -> (index: usize)
        ensures
            index == self@.selected,
            index < self@.items.len() || index == 0,
    {
        proof {
            use_type_invariant(self);
        }
        self.selected
    }

    /// Whether the list is open.
    pub fn open(&self) -> (open: bool)
        ensures
            open == self@.open,
    {
        self.open
    }

    /// The number of items.
    pub fn len(&self) -> (len: usize)
        ensures
            len == self@.items.len(),
    {
        self.items.len()
    }

    /// The item at a position.
    pub fn item(&self, index: usize) -> (item: &str)
        requires
            index < self@.items.len(),
        ensures
            item@ == self@.items[index as int],
    {
        self.items[index].as_str()
    }
}

} // verus!
