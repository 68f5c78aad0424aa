//! One expected file of a deliverable: its name, what was observed of it on
//! disk, and the outcome the audit gave it.

use vstd::prelude::*;

use crate::module::group::GroupKind;
use crate::text::{concat, dashes_to_underscores, lowercase, underscored};

verus! {

/// The role a file plays in a deliverable's chain.
#[derive(Debug, Clone, Copy, PartialEq, Eq, Hash, Structural)]
pub enum FileKind {
    SasData,
    SasCode,
    SasLog,
    Output,
    QcResult,
    Xpt,
    Input,
    Other,
}

impl Default for FileKind {
    fn default() -> (k: FileKind)
        ensures
            k == FileKind::Other,
    {
        FileKind::Other
    }
}

/// The outcome of the audit for one file. `Missing` also records that the
/// file was not found on disk.
#[derive(Debug, Clone, Copy, PartialEq, Eq, Structural)]
pub enum FileStatus {
    Fine,
    Missing,
    Unexpected,
    NotMatch,
}

impl Default for FileStatus {
    fn default() -> (s: FileStatus)
        ensures
            s == FileStatus::Missing,
    {
        FileStatus::Missing
    }
}

/// One expected file and what the audit knows of it.
#[derive(Debug, Clone)]
pub struct File {
    name: String,
    size: u64,
    required: bool,
    modified_at: u64,
    kind: FileKind,
    supp: bool,
    status: FileStatus,
}

/// The mathematical content of a [`File`].
pub struct FileView {
    pub name: Seq<char>,
    pub size: u64,
    pub required: bool,
    pub modified_at: u64,
    pub kind: FileKind,
    pub supp: bool,
    pub status: FileStatus,
}

impl View for File {
    type V = FileView;

    closed spec fn view(&self) -> FileView {
        FileView {
            name: self.name@,
            size: self.size,
            required: self.required,
            modified_at: self.modified_at,
            kind: self.kind,
            supp: self.supp,
            status: self.status,
        }
    }
}

impl FileView {
    /// The file of a name of which nothing has been observed or decided yet.
    pub open spec fn blank(name: Seq<char>) -> FileView {
        FileView {
            name,
            size: 0,
            required: false,
            modified_at: 0,
            kind: FileKind::Other,
            supp: false,
            status: FileStatus::Missing,
        }
    }

    /// Whether the file was not found.
    pub open spec fn is_missing(self) -> bool {
        self.status == FileStatus::Missing
    }

    /// Whether two files, both found, fill the same slot: same name, same
    /// role.
    pub open spec fn equal(self, other: FileView) -> bool {
        !self.is_missing() && !other.is_missing() && self.name == other.name && self.kind
            == other.kind
    }

    /// This file with another status.
    pub open spec fn with_status(self, status: FileStatus) -> FileView {
        FileView { status, ..self }
    }
}

/// The views of a sequence of files.
pub open spec fn views_of(files: Seq<File>) -> Seq<FileView> {
    files.map_values(|f: File| f@)
}

impl File {
    /// A file of the given name: not required, of no particular kind, not
    /// found.
    pub fn new(name: &str) -> (f: File)
        ensures
            f@ == FileView::blank(name@),
    {
        File {
            name: name.to_owned(),
            size: 0,
            required: false,
            modified_at: 0,
            kind: FileKind::Other,
            supp: false,
            status: FileStatus::Missing,
        }
    }

    /// A copy of this file.
    pub fn duplicate(&self) -> (f: File)
        ensures
            f@ == self@,
    {
        File {
            name: self.name.clone(),
            size: self.size,
            required: self.required,
            modified_at: self.modified_at,
            kind: self.kind,
            supp: self.supp,
            status: self.status,
        }
    }

    pub fn name(&self) -> (r: &str)
        ensures
            r@ == self@.name,
    {
        self.name.as_str()
    }

    pub fn set_size(&mut self, size: u64) -> (r: &mut Self)
        ensures
            (*r)@ == (FileView { size, ..old(self)@ }),
            *final(self) == *final(r),
    {
        self.size = size;
        self
    }

    pub fn size(&self) -> (r: u64)
        ensures
            r == self@.size,
    {
        self.size
    }

    /// Whether the file has grown beyond the size of an untouched template.
    pub fn start_edit(&self, init_size: u64) -> (r: bool)
        ensures
            r == (self@.size > init_size),
    {
        self.size > init_size
    }

    pub fn require(&mut self) -> (r: &mut Self)
        ensures
            (*r)@ == (FileView { required: true, ..old(self)@ }),
            *final(self) == *final(r),
    {
        self.required = true;
        self
    }

    pub fn not_require(&mut self) -> (r: &mut Self)
        ensures
            (*r)@ == (FileView { required: false, ..old(self)@ }),
            *final(self) == *final(r),
    {
        self.required = false;
        self
    }

    pub fn is_required(&self) -> (r: bool)
        ensures
            r == self@.required,
    {
        self.required
    }

    pub fn set_kind(&mut self, kind: FileKind) -> (r: &mut Self)
        ensures
            (*r)@ == (FileView { kind, ..old(self)@ }),
            *final(self) == *final(r),
    {
        self.kind = kind;
        self
    }

    pub fn kind(&self) -> (r: FileKind)
        ensures
            r == self@.kind,
    {
        self.kind
    }

    pub fn update_modified_at(&mut self, timestamp: u64) -> (r: &mut Self)
        ensures
            (*r)@ == (FileView { modified_at: timestamp, ..old(self)@ }),
            *final(self) == *final(r),
    {
        self.modified_at = timestamp;
        self
    }

    pub fn modified_at(&self) -> (r: u64)
        ensures
            r == self@.modified_at,
    {
        self.modified_at
    }

    pub fn fine(&mut self) -> (r: &mut Self)
        ensures
            (*r)@ == old(self)@.with_status(FileStatus::Fine),
            *final(self) == *final(r),
    {
        self.status = FileStatus::Fine;
        self
    }

    pub fn unexpected(&mut self) -> (r: &mut Self)
        ensures
            (*r)@ == old(self)@.with_status(FileStatus::Unexpected),
            *final(self) == *final(r),
    {
        self.status = FileStatus::Unexpected;
        self
    }

    pub fn status(&self) -> (r: FileStatus)
        ensures
            r == self@.status,
    {
        self.status
    }

    pub fn missing(&mut self) -> (r: &mut Self)
        ensures
            (*r)@ == old(self)@.with_status(FileStatus::Missing),
            *final(self) == *final(r),
    {
        self.status = FileStatus::Missing;
        self
    }

    pub fn is_not_match(&self) -> (r: bool)
        ensures
            r == (self@.status == FileStatus::NotMatch),
    {
        self.status == FileStatus::NotMatch
    }

    pub fn not_match(&mut self) -> (r: &mut Self)
        ensures
            (*r)@ == old(self)@.with_status(FileStatus::NotMatch),
            *final(self) == *final(r),
    {
        self.status = FileStatus::NotMatch;
        self
    }

    pub fn is_missing(&self) -> (r: bool)
        ensures
            r == self@.is_missing(),
    {
        self.status == FileStatus::Missing
    }

    pub fn supp(&mut self) -> (r: &mut Self)
        ensures
            (*r)@ == (FileView { supp: true, ..old(self)@ }),
            *final(self) == *final(r),
    {
        self.supp = true;
        self
    }

    pub fn is_supp(&self) -> (r: bool)
        ensures
            r == self@.supp,
    {
        self.supp
    }

    /// Whether this file and `f`, both found, fill the same slot.
    pub fn equal(&self, f: &File) -> (r: bool)
        ensures
            r == self@.equal(f@),
    {
        if self.is_missing() || f.is_missing() {
            return false;
        }
        self.name == f.name && self.kind == f.kind
    }

    /// A copy of this file with the given status.
    pub fn marked(&self, status: FileStatus) -> (f: File)
        ensures
            f@ == self@.with_status(status),
    {
        let mut f = self.duplicate();
        f.status = status;
        f
    }
}

/// The extension, with its dot, that files of a kind carry.
pub open spec fn extension(kind: FileKind) -> Seq<char> {
    match kind {
        FileKind::SasCode => ".sas"@,
        FileKind::SasData => ".sas7bdat"@,
        FileKind::SasLog => ".log"@,
        FileKind::Output => ".rtf"@,
        FileKind::QcResult => ".rtf"@,
        FileKind::Xpt => ".xpt"@,
        _ => Seq::empty(),
    }
}

/// What the validation track puts in front of a file name of a kind.
pub open spec fn validation_prefix(kind: FileKind) -> Seq<char> {
    match kind {
        FileKind::SasData => "v_"@,
        FileKind::QcResult => "v_"@,
        FileKind::Xpt => "v_"@,
        FileKind::SasCode => "v-"@,
        FileKind::SasLog => "v-"@,
        FileKind::Output => "v-"@,
        _ => Seq::empty(),
    }
}

/// The file name of `name` in a role and on a track.
pub open spec fn filename_of(kind: FileKind, name: Seq<char>, group: GroupKind) -> Seq<char> {
    match group {
        GroupKind::Dev => name + extension(kind),
        GroupKind::Qc => validation_prefix(kind) + (name + extension(kind)),
    }
}

/// Whether files of a kind are named with `_` where the deliverable has `-`.
pub open spec fn uses_underscores(kind: FileKind) -> bool {
    kind == FileKind::SasData || kind == FileKind::QcResult || kind == FileKind::Xpt
}

/// The file name of a slot whose deliverable is written `lower` in lower
/// case: `lower`, after `supp` for a supplementary domain, with the
/// extension of the role and the prefix of the track; `-` becomes `_` for
/// datasets, transport files and QC reports.
pub open spec fn named_slot(lower: Seq<char>, group: GroupKind, kind: FileKind, supp: bool) -> Seq<
    char,
> {
    let base = if supp {
        "supp"@ + lower
    } else {
        lower
    };
    let plain = filename_of(kind, base, group);
    if uses_underscores(kind) {
        underscored(plain)
    } else {
        plain
    }
}

/// The canonical file name of a slot: that of the deliverable's
/// identifier in lower case.
pub open spec fn slot_filename_of(
    id: Seq<char>,
    group: GroupKind,
    kind: FileKind,
    supp: bool,
) -> Seq<char> {
    named_slot(lowercase(id), group, kind, supp)
}

impl FileKind {
    /// The file name of `name` in this role on the track `kind`.
    pub fn filename(&self, name: &str, kind: GroupKind) -> (r: String)
        ensures
            r@ == filename_of(*self, name@, kind),
    {
        let filename = match self {
            FileKind::SasCode => concat(name, ".sas"),
            FileKind::SasData => concat(name, ".sas7bdat"),
            FileKind::SasLog => concat(name, ".log"),
            FileKind::Output => concat(name, ".rtf"),
            FileKind::QcResult => concat(name, ".rtf"),
            FileKind::Xpt => concat(name, ".xpt"),
            _ => {
                proof {
                    assert(name@ + Seq::<char>::empty() =~= name@);
                }
                name.to_owned()
            },
        };
        match kind {
            GroupKind::Dev => filename,
            GroupKind::Qc => match self {
                FileKind::SasData => concat("v_", filename.as_str()),
                FileKind::SasCode => concat("v-", filename.as_str()),
                FileKind::SasLog => concat("v-", filename.as_str()),
                FileKind::Output => concat("v-", filename.as_str()),
                FileKind::QcResult => concat("v_", filename.as_str()),
                FileKind::Xpt => concat("v_", filename.as_str()),
                _ => {
                    proof {
                        assert(Seq::<char>::empty() + filename@ =~= filename@);
                    }
                    filename
                },
            },
        }
    }
}

/// The file name of the slot, on track `group` and in role `kind`, of the
/// deliverable that is written `lower` in lower case.
pub fn slot_filename_from(lower: &str, group: GroupKind, kind: FileKind, supp: bool) -> (r: String)
    ensures
        r@ == named_slot(lower@, group, kind, supp),
{
    let plain = if supp {
        kind.filename(concat("supp", lower).as_str(), group)
    } else {
        kind.filename(lower, group)
    };
    match kind {
        FileKind::SasData | FileKind::QcResult | FileKind::Xpt => dashes_to_underscores(
            plain.as_str(),
        ),
        _ => plain,
    }
}

/// The canonical file name of the slot of deliverable `id` on track `group`
/// in role `kind`, supplementary or not.
pub fn slot_filename(id: &str, group: GroupKind, kind: FileKind, supp: bool) -> (r: String)
    ensures
        r@ == slot_filename_of(id@, group, kind, supp),
{
    slot_filename_from(id.to_lowercase().as_str(), group, kind, supp)
}

} // verus!
