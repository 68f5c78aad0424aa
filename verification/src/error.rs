//! What can go wrong in an audit that the layout of the directories cannot
//! answer for.

use vstd::prelude::*;

use crate::module::group::GroupKind;

verus! {

/// An error of the audit.
#[derive(Debug, Clone, Copy, PartialEq, Eq, Structural)]
pub enum InspectError {
    /// A file of a kind that the track does not hold was asked for.
    InvalidFileKind(GroupKind),
    /// The directory is not that of a project in a study.
    InvalidProjectDir,
    /// The directory of the study or of the project does not exist.
    InvalidDir,
    /// The workbook lacks the sheet that lists the deliverables.
    MissingSheet,
    /// A cell that should hold a name or a mark holds neither text nor
    /// number.
    UnreadableCell,
}

impl InspectError {
    /// The error in words.
    pub fn message(&self) -> (r: String)
        ensures
            r@ == (match *self {
                InspectError::InvalidFileKind(GroupKind::Dev) => "Error: invalid filetype for dev group"@,
                InspectError::InvalidFileKind(GroupKind::Qc) => "Error: invalid filetype for qc group"@,
                InspectError::InvalidProjectDir => "Error: invalid project directory"@,
                InspectError::InvalidDir => "Error: invalid directory"@,
                InspectError::MissingSheet => "Error: worksheet not found"@,
                InspectError::UnreadableCell => "Error: cell holds neither text nor number"@,
            }),
    {
        match self {
            InspectError::InvalidFileKind(GroupKind::Dev) => "Error: invalid filetype for dev group".to_owned(),
            InspectError::InvalidFileKind(GroupKind::Qc) => "Error: invalid filetype for qc group".to_owned(),
            InspectError::InvalidProjectDir => "Error: invalid project directory".to_owned(),
            InspectError::InvalidDir => "Error: invalid directory".to_owned(),
            InspectError::MissingSheet => "Error: worksheet not found".to_owned(),
            InspectError::UnreadableCell => "Error: cell holds neither text nor number".to_owned(),
        }
    }
}

} // verus!
