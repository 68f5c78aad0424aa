//! The categories of deliverables, the two tracks and the kinds of files.

use vstd::prelude::*;

verus! {

/// The category of a deliverable.
#[derive(Debug, Clone, Copy, PartialEq, Eq, Structural)]
pub enum Kind {
    SDTM,
    ADaM,
    TFLs,
}

/// The track of a file.
#[derive(Debug, Clone, Copy, PartialEq, Eq, Structural)]
pub enum Group {
    Production,
    Validation,
}

/// The name of the folder of a track.
pub open spec fn group_dir_of(group: Group) -> Seq<char> {
    match group {
        Group::Production => "product"@,
        Group::Validation => "validation"@,
    }
}

impl Group {
    /// The name of the folder of the track.
    pub fn group_dir(&self) -> (r: &'static str)
        ensures
            r@ == group_dir_of(*self),
    {
        match *self {
            Group::Production => "product",
            Group::Validation => "validation",
        }
    }
}

/// The kind of a file.
#[derive(Debug, Clone, Copy, PartialEq, Eq, Structural)]
pub enum FileType {
    Code,
    Data,
    Xpt,
    Output,
    Log,
    Qc,
}

} // verus!
