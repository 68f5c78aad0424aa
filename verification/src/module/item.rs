//! A deliverable with the groups of files of its two tracks.

use vstd::prelude::*;

use crate::module::group::{Group, GroupStatus, GroupView};

verus! {

/// A deliverable: its name, its production track (`dev`) and its
/// validation track (`qc`).
#[derive(Debug)]
pub struct Item {
    name: String,
    dev: Group,
    qc: Group,
    qc_supp: Option<GroupStatus>,
}

/// The mathematical content of an [`Item`].
pub struct ItemView {
    pub name: Seq<char>,
    pub dev: GroupView,
    pub qc: GroupView,
    /// The status that the supplementary QC report gives the validation
    /// track, for a deliverable that has a supplementary domain.
    pub qc_supp: Option<GroupStatus>,
}

impl View for Item {
    type V = ItemView;

    closed spec fn view(&self) -> ItemView {
        ItemView { name: self.name@, dev: self.dev@, qc: self.qc@, qc_supp: self.qc_supp }
    }
}

impl Item {
    /// The deliverable of a name, with no file on either track.
    pub fn new(name: &str) -> (r: Item)
        ensures
            r@ == (ItemView {
                name: name@,
                dev: GroupView::blank(),
                qc: GroupView::blank(),
                qc_supp: None,
            }),
    {
        Item { name: name.to_owned(), dev: Group::new(), qc: Group::new(), qc_supp: None }
    }

    pub fn name(&self) -> (r: &str)
        ensures
            r@ == self@.name,
    {
        self.name.as_str()
    }

    pub fn set_dev(&mut self, g: Group) -> (r: &mut Self)
        ensures
            (*r)@ == (ItemView { dev: g@, ..old(self)@ }),
            *final(self) == *final(r),
    {
        self.dev = g;
        self
    }

    pub fn set_qc(&mut self, g: Group) -> (r: &mut Self)
        ensures
            (*r)@ == (ItemView { qc: g@, ..old(self)@ }),
            *final(self) == *final(r),
    {
        self.qc = g;
        self
    }

    pub fn set_qc_supp(&mut self, status: Option<GroupStatus>) -> (r: &mut Self)
        ensures
            (*r)@ == (ItemView { qc_supp: status, ..old(self)@ }),
            *final(self) == *final(r),
    {
        self.qc_supp = status;
        self
    }

    pub fn dev(&self) -> (r: &Group)
        ensures
            r@ == self@.dev,
    {
        &self.dev
    }

    pub fn qc(&self) -> (r: &Group)
        ensures
            r@ == self@.qc,
    {
        &self.qc
    }

    pub fn qc_supp(&self) -> (r: Option<GroupStatus>)
        ensures
            r == self@.qc_supp,
    {
        self.qc_supp
    }
}

} // verus!
