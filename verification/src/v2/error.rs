//! The errors of the audit by pairs.

use vstd::prelude::*;

use crate::text::concat3;

verus! {

/// An error of the audit.
#[derive(Debug, Clone)]
pub enum Error {
    /// The folders of the studies could not be listed.
    ListProjectFailed,
    /// The catalog could not be read.
    ReadConfigFailed,
    /// The directory is not that of a project.
    InvalidProjectDir,
    /// What is known of a file on disk could not be had.
    FetchMetadataFailed,
    /// The QC report could not be checked.
    QcFailed,
    /// The log of the named deliverable could not be checked.
    LogFailed(String),
}

/// The mathematical content of an [`Error`].
pub enum ErrorView {
    ListProjectFailed,
    ReadConfigFailed,
    InvalidProjectDir,
    FetchMetadataFailed,
    QcFailed,
    LogFailed(Seq<char>),
}

impl View for Error {
    type V = ErrorView;

    open spec fn view(&self) -> ErrorView {
        match *self {
            Error::ListProjectFailed => ErrorView::ListProjectFailed,
            Error::ReadConfigFailed => ErrorView::ReadConfigFailed,
            Error::InvalidProjectDir => ErrorView::InvalidProjectDir,
            Error::FetchMetadataFailed => ErrorView::FetchMetadataFailed,
            Error::QcFailed => ErrorView::QcFailed,
            Error::LogFailed(item) => ErrorView::LogFailed(item@),
        }
    }
}

/// The error in words.
pub open spec fn message_of(e: ErrorView) -> Seq<char> {
    match e {
        ErrorView::ListProjectFailed => "Failed to list projects"@,
        ErrorView::ReadConfigFailed => "Failed to read config file"@,
        ErrorView::InvalidProjectDir => "Invalid project directory"@,
        ErrorView::FetchMetadataFailed => "Failed to fetch metadata"@,
        ErrorView::QcFailed => "Failed in qc result validation"@,
        ErrorView::LogFailed(item) => "Failed in "@ + item + " log validation"@,
    }
}

impl Error {
    /// The error in words.
    pub fn message(&self) -> (r: String)
        ensures
            r@ == message_of(self@),
    {
        match self {
            Error::ListProjectFailed => "Failed to list projects".to_owned(),
            Error::ReadConfigFailed => "Failed to read config file".to_owned(),
            Error::InvalidProjectDir => "Invalid project directory".to_owned(),
            Error::FetchMetadataFailed => "Failed to fetch metadata".to_owned(),
            Error::QcFailed => "Failed in qc result validation".to_owned(),
            Error::LogFailed(item) => concat3("Failed in ", item.as_str(), " log validation"),
        }
    }
}

} // verus!
