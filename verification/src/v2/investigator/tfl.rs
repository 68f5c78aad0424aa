//! The files of the tables, figures and listings.

use vstd::prelude::*;

use crate::v2::category::{FileType, Group};
use crate::v2::investigator::investigator::{found_of, File, Investigator};
use crate::v2::investigator::utils::slot_file;

verus! {

pub const CODE_DIR: &'static str = "program\\tfl";

pub const DATA_DIR: &'static str = "dataset\\tfl";

pub const QC_DIR: &'static str = "qc-result\\tfl";

pub const OUTPUT_DIR: &'static str = "output";

impl Investigator {
    /// The program of an output on a track.
    pub fn tfl_code(&self, item: &str, group: &Group) -> (r: Option<File>)
        ensures
            found_of(r) == slot_file(self@, *group, CODE_DIR@, item@, FileType::Code),
    {
        self.probe(*group, CODE_DIR, item, FileType::Code)
    }

    /// The dataset of an output on a track.
    pub fn tfl_data(&self, item: &str, group: &Group) -> (r: Option<File>)
        ensures
            found_of(r) == slot_file(self@, *group, DATA_DIR@, item@, FileType::Data),
    {
        self.probe(*group, DATA_DIR, item, FileType::Data)
    }

    /// The log of an output on a track.
    pub fn tfl_log(&self, item: &str, group: &Group) -> (r: Option<File>)
        ensures
            found_of(r) == slot_file(self@, *group, CODE_DIR@, item@, FileType::Log),
    {
        self.probe(*group, CODE_DIR, item, FileType::Log)
    }

    /// The QC report of an output.
    pub fn tfl_qc_result(&self, item: &str) -> (r: Option<File>)
        ensures
            found_of(r) == slot_file(self@, Group::Validation, QC_DIR@, item@, FileType::Qc),
    {
        self.probe(Group::Validation, QC_DIR, item, FileType::Qc)
    }

    /// The output itself on a track.
    pub fn tfl_output(&self, item: &str, group: &Group) -> (r: Option<File>)
        ensures
            found_of(r) == slot_file(self@, *group, OUTPUT_DIR@, item@, FileType::Output),
    {
        self.probe(*group, OUTPUT_DIR, item, FileType::Output)
    }
}

} // verus!
