use vstd::prelude::*;

verus! {

/// A selectable list: the items together with the selected position, modelled
/// as plain data so navigation over it can be reasoned about.
pub struct ListStateItem<A> {
    pub selected: Option<usize>,
    pub items: Vec<A>,
}

impl<A: Clone> ListStateItem<A> {
    /// A list with the first entry selected.
    pub fn new(items: Vec<A>) -> (r: Self)
        ensures
            r.selected == Some(0usize),
            r.items == items,
    {
        ListStateItem { selected: Some(0), items }
    }

    /// Move the selection forward, wrapping from the last entry to the first,
    /// and hand out a copy of the newly selected item.
    pub fn next(&mut self, abc: &mut A)
        requires
            old(self).items@.len() > 0,
            old(self).selected matches Some(i) ==> i < old(self).items@.len(),
        ensures
            final(self).items == old(self).items,
            final(self).selected == Some(
                match old(self).selected {
                    Some(i) => if i + 1 >= old(self).items@.len() {
                        0usize
                    } else {
                        (i + 1) as usize
                    },
                    None => 0usize,
                },
            ),
    {
        let i: usize = match self.selected {
            Some(i) => {
                if i >= self.items.len() - 1 {
                    0
                } else {
                    i + 1
                }
            },
            None => 0,
        };
        self.selected = Some(i);
        *abc = self.items[i].clone();
    }

    /// Move the selection backward; from the last entry it returns to the
    /// first, and otherwise it steps one place back. A copy of the newly
    /// selected item is handed out.
    pub fn previous(&mut self, abc: &mut A)
        requires
            old(self).items@.len() > 0,
            old(self).selected matches Some(i) ==> i < old(self).items@.len(),
            old(self).selected matches Some(i) ==> (i >= 1 || i + 1 >= old(self).items@.len()),
        ensures
            final(self).items == old(self).items,
            final(self).selected == Some(
                match old(self).selected {
                    Some(i) => if i + 1 >= old(self).items@.len() {
                        0usize
                    } else {
                        (i - 1) as usize
                    },
                    None => 0usize,
                },
            ),
    {
        let i: usize = match self.selected {
            Some(i) => {
                if i >= self.items.len() - 1 {
                    0
                } else {
                    i - 1
                }
            },
            None => 0,
        };
        self.selected = Some(i);
        *abc = self.items[i].clone();
    }
}

} // verus!
