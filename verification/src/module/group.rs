//! The files of one track of a deliverable, with the track's status.

use vstd::prelude::*;

use crate::module::file::{views_of, File, FileKind, FileView};

verus! {

/// Where a track of a deliverable stands.
#[derive(Debug, Clone, Copy, PartialEq, Eq, Structural)]
pub enum GroupStatus {
    Building,
    Unexpected,
    Changed,
    Ready,
    NotMatch,
    Pass,
    NotStart,
    NotApplicable,
    Unknown,
}

impl Default for GroupStatus {
    fn default() -> (s: GroupStatus)
        ensures
            s == GroupStatus::Unknown,
    {
        GroupStatus::Unknown
    }
}

/// The track: `Dev` is production, `Qc` is validation.
#[derive(Debug, Clone, Copy, PartialEq, Eq, Structural)]
pub enum GroupKind {
    Dev,
    Qc,
}

/// The files of one track of a deliverable and the track's status. Each
/// pair holds the main file first and the supplementary one second.
#[derive(Debug)]
pub struct Group {
    status: GroupStatus,
    code: File,
    dataset: File,
    supp_dataset: File,
    xpt: File,
    supp_xpt: File,
    log: File,
    output: File,
    qc: File,
    supp_qc: File,
}

/// The mathematical content of a [`Group`].
pub struct GroupView {
    pub status: GroupStatus,
    pub code: FileView,
    pub dataset: (FileView, FileView),
    pub xpt: (FileView, FileView),
    pub log: FileView,
    pub output: FileView,
    pub qc: (FileView, FileView),
}

impl View for Group {
    type V = GroupView;

    closed spec fn view(&self) -> GroupView {
        GroupView {
            status: self.status,
            code: self.code@,
            dataset: (self.dataset@, self.supp_dataset@),
            xpt: (self.xpt@, self.supp_xpt@),
            log: self.log@,
            output: self.output@,
            qc: (self.qc@, self.supp_qc@),
        }
    }
}

/// A pair with one side replaced: the second for a supplementary file, the
/// first otherwise.
pub open spec fn put(pair: (FileView, FileView), f: FileView) -> (FileView, FileView) {
    if f.supp {
        (pair.0, f)
    } else {
        (f, pair.1)
    }
}

impl GroupView {
    /// The group that holds no file yet.
    pub open spec fn blank() -> GroupView {
        let none = FileView::blank(Seq::empty());
        GroupView {
            status: GroupStatus::Unknown,
            code: none,
            dataset: (none, none),
            xpt: (none, none),
            log: none,
            output: none,
            qc: (none, none),
        }
    }

    /// This group with `f` in the place of its kind.
    pub open spec fn with_file(self, f: FileView) -> GroupView {
        match f.kind {
            FileKind::SasData => GroupView { dataset: put(self.dataset, f), ..self },
            FileKind::SasCode => GroupView { code: f, ..self },
            FileKind::SasLog => GroupView { log: f, ..self },
            FileKind::Output => GroupView { output: f, ..self },
            FileKind::QcResult => GroupView { qc: put(self.qc, f), ..self },
            FileKind::Xpt => GroupView { xpt: put(self.xpt, f), ..self },
            _ => self,
        }
    }

    /// This group with each of `files`, in turn, in the place of its kind.
    pub open spec fn with_files(self, files: Seq<FileView>) -> GroupView
        decreases files.len(),
    {
        if files.len() == 0 {
            self
        } else {
            self.with_files(files.drop_last()).with_file(files.last())
        }
    }

    /// The files of a kind: the main one and the supplementary one. Kinds
    /// that have no supplementary file give a blank one in its place.
    pub open spec fn files_of(self, kind: FileKind) -> (FileView, FileView) {
        let none = FileView::blank(Seq::empty());
        match kind {
            FileKind::SasData => self.dataset,
            FileKind::SasCode => (self.code, none),
            FileKind::SasLog => (self.log, none),
            FileKind::Output => (self.output, none),
            FileKind::QcResult => self.qc,
            FileKind::Xpt => self.xpt,
            _ => (none, none),
        }
    }
}

impl Group {
    /// A group that holds no file yet.
    pub fn new() -> (g: Group)
        ensures
            g@ == GroupView::blank(),
    {
        proof {
            reveal_strlit("");
            assert(""@ =~= Seq::<char>::empty());
        }
        Group {
            status: GroupStatus::Unknown,
            code: File::new(""),
            dataset: File::new(""),
            supp_dataset: File::new(""),
            xpt: File::new(""),
            supp_xpt: File::new(""),
            log: File::new(""),
            output: File::new(""),
            qc: File::new(""),
            supp_qc: File::new(""),
        }
    }

    pub fn set_status(&mut self, status: GroupStatus) -> (r: &mut Self)
        ensures
            (*r)@ == (GroupView { status, ..old(self)@ }),
            *final(self) == *final(r),
    {
        self.status = status;
        self
    }

    pub fn status(&self) -> (r: GroupStatus)
        ensures
            r == self@.status,
    {
        self.status
    }

    /// Puts a file in the place of its kind; a file of another kind is
    /// dropped.
    pub fn set_file(&mut self, f: File) -> (r: &mut Self)
        ensures
            (*r)@ == old(self)@.with_file(f@),
            *final(self) == *final(r),
    {
        match f.kind() {
            FileKind::SasData => {
                if f.is_supp() {
                    self.supp_dataset = f;
                } else {
                    self.dataset = f;
                }
            },
            FileKind::SasCode => {
                self.code = f;
            },
            FileKind::SasLog => {
                self.log = f;
            },
            FileKind::Output => {
                self.output = f;
            },
            FileKind::QcResult => {
                if f.is_supp() {
                    self.supp_qc = f;
                } else {
                    self.qc = f;
                }
            },
            FileKind::Xpt => {
                if f.is_supp() {
                    self.supp_xpt = f;
                } else {
                    self.xpt = f;
                }
            },
            _ => {},
        }
        self
    }

    /// Puts each file, in turn, in the place of its kind.
    pub fn set_files(&mut self, files: Vec<File>) -> (r: &mut Self)
        ensures
            (*r)@ == old(self)@.with_files(views_of(files@)),
            *final(self) == *final(r),
    {
        let mut i: usize = 0;
        while i < files.len()
            invariant
                i <= files.len(),
                self@ == old(self)@.with_files(views_of(files@).take(i as int)),
            decreases files.len() - i,
        {
            proof {
                let all = views_of(files@);
                assert(all.take(i + 1).drop_last() =~= all.take(i as int));
            }
            self.set_file(files[i].duplicate());
            i = i + 1;
        }
        proof {
            let all = views_of(files@);
            assert(all.take(files.len() as int) =~= all);
        }
        self
    }

    /// Copies of the files of a kind. What is done to the copies does not
    /// touch the files of the group.
    pub fn get_file_copies(&self, kind: FileKind) -> (r: (File, File))
        ensures
            r.0@ == self@.files_of(kind).0,
            r.1@ == self@.files_of(kind).1,
    {
        proof {
            reveal_strlit("");
            assert(""@ =~= Seq::<char>::empty());
        }
        match kind {
            FileKind::SasData => (self.dataset.duplicate(), self.supp_dataset.duplicate()),
            FileKind::SasCode => (self.code.duplicate(), File::new("")),
            FileKind::SasLog => (self.log.duplicate(), File::new("")),
            FileKind::Output => (self.output.duplicate(), File::new("")),
            FileKind::QcResult => (self.qc.duplicate(), self.supp_qc.duplicate()),
            FileKind::Xpt => (self.xpt.duplicate(), self.supp_xpt.duplicate()),
            _ => (File::new(""), File::new("")),
        }
    }

    /// A copy of this group.
    pub fn duplicate(&self) -> (g: Group)
        ensures
            g@ == self@,
    {
        Group {
            status: self.status,
            code: self.code.duplicate(),
            dataset: self.dataset.duplicate(),
            supp_dataset: self.supp_dataset.duplicate(),
            xpt: self.xpt.duplicate(),
            supp_xpt: self.supp_xpt.duplicate(),
            log: self.log.duplicate(),
            output: self.output.duplicate(),
            qc: self.qc.duplicate(),
            supp_qc: self.supp_qc.duplicate(),
        }
    }
}

} // verus!
