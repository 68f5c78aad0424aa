//! The deliverables of one category, in the order of the catalog.

use vstd::prelude::*;

use crate::module::item::{Item, ItemView};

verus! {

/// The audited deliverables of one category.
#[derive(Debug)]
pub struct Module {
    items: Vec<Item>,
}

/// The views of a sequence of items.
pub open spec fn item_views(items: Seq<Item>) -> Seq<ItemView> {
    items.map_values(|i: Item| i@)
}

impl View for Module {
    type V = Seq<ItemView>;

    closed spec fn view(&self) -> Seq<ItemView> {
        item_views(self.items@)
    }
}

impl Module {
    /// A module without items.
    pub fn new() -> (m: Module)
        ensures
            m@ == Seq::<ItemView>::empty(),
    {
        let m = Module { items: Vec::new() };
        proof {
            assert(m@ =~= Seq::<ItemView>::empty());
        }
        m
    }

    /// Adds an item behind the ones the module holds.
    pub fn set_item(&mut self, item: Item) -> (r: &mut Self)
        ensures
            (*r)@ == old(self)@.push(item@),
            *final(self) == *final(r),
    {
        self.items.push(item);
        proof {
            assert(self@ =~= old(self)@.push(item@));
        }
        self
    }

    pub fn items(&self) -> (r: &Vec<Item>)
        ensures
            item_views(r@) == self@,
    {
        &self.items
    }
}

} // verus!
