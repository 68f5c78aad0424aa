//! The files of the ADaM datasets.

use vstd::prelude::*;

use crate::v2::category::{FileType, Group};
use crate::v2::investigator::investigator::{found_of, File, Investigator};
use crate::v2::investigator::utils::slot_file;

verus! {

pub const CODE_DIR: &'static str = "program\\adam";

pub const DATA_DIR: &'static str = "dataset\\adam";

pub const QC_DIR: &'static str = "qc-result\\adam";

impl Investigator {
    /// The program of a dataset on a track.
    pub fn adam_code(&self, item: &str, group: &Group) -> (r: Option<File>)
        ensures
            found_of(r) == slot_file(self@, *group, CODE_DIR@, item@, FileType::Code),
    {
        self.probe(*group, CODE_DIR, item, FileType::Code)
    }

    /// The dataset on a track.
    pub fn adam_data(&self, item: &str, group: &Group) -> (r: Option<File>)
        ensures
            found_of(r) == slot_file(self@, *group, DATA_DIR@, item@, FileType::Data),
    {
        self.probe(*group, DATA_DIR, item, FileType::Data)
    }

    /// The transport file of a dataset.
    pub fn adam_xpt(&self, item: &str) -> (r: Option<File>)
        ensures
            found_of(r) == slot_file(self@, Group::Production, DATA_DIR@, item@, FileType::Xpt),
    {
        self.probe(Group::Production, DATA_DIR, item, FileType::Xpt)
    }

    /// The log of a dataset on a track.
    pub fn adam_log(&self, item: &str, group: &Group) -> (r: Option<File>)
        ensures
            found_of(r) == slot_file(self@, *group, CODE_DIR@, item@, FileType::Log),
    {
        self.probe(*group, CODE_DIR, item, FileType::Log)
    }

    /// The QC report of a dataset.
    pub fn adam_qc_result(&self, item: &str) -> (r: Option<File>)
        ensures
            found_of(r) == slot_file(self@, Group::Validation, QC_DIR@, item@, FileType::Qc),
    {
        self.probe(Group::Validation, QC_DIR, item, FileType::Qc)
    }
}

} // verus!
