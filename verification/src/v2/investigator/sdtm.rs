//! The files of the SDTM domains.

use vstd::prelude::*;

use crate::text::concat;
use crate::v2::category::{FileType, Group};
use crate::v2::investigator::investigator::{found_of, File, Investigator};
use crate::v2::investigator::utils::{slot_file, supp_of};

verus! {

pub const CODE_DIR: &'static str = "program\\sdtm";

pub const DATA_DIR: &'static str = "dataset\\sdtm";

pub const QC_DIR: &'static str = "qc-result\\sdtm";

impl Investigator {
    /// The program of a domain on the production track.
    pub fn sdtm_code_production(&self, item: &str) -> (r: Option<File>)
        ensures
            found_of(r) == slot_file(self@, Group::Production, CODE_DIR@, item@, FileType::Code),
    {
        self.probe(Group::Production, CODE_DIR, item, FileType::Code)
    }

    /// The program of a domain on the validation track.
    pub fn sdtm_code_validation(&self, item: &str) -> (r: Option<File>)
        ensures
            found_of(r) == slot_file(self@, Group::Validation, CODE_DIR@, item@, FileType::Code),
    {
        self.probe(Group::Validation, CODE_DIR, item, FileType::Code)
    }

    /// The dataset of a domain on the production track.
    pub fn sdtm_data_main_production(&self, item: &str) -> (r: Option<File>)
        ensures
            found_of(r) == slot_file(self@, Group::Production, DATA_DIR@, item@, FileType::Data),
    {
        self.probe(Group::Production, DATA_DIR, item, FileType::Data)
    }

    /// The dataset of a domain on the validation track.
    pub fn sdtm_data_main_validation(&self, item: &str) -> (r: Option<File>)
        ensures
            found_of(r) == slot_file(self@, Group::Validation, DATA_DIR@, item@, FileType::Data),
    {
        self.probe(Group::Validation, DATA_DIR, item, FileType::Data)
    }

    /// The dataset of a domain's supplementary domain on the production track.
    pub fn sdtm_data_supp_production(&self, item: &str) -> (r: Option<File>)
        ensures
            found_of(r) == slot_file(self@, Group::Production, DATA_DIR@, supp_of(item@), FileType::Data),
    {
        self.probe(Group::Production, DATA_DIR, concat("supp", item).as_str(), FileType::Data)
    }

    /// The dataset of a domain's supplementary domain on the validation track.
    pub fn sdtm_data_supp_validation(&self, item: &str) -> (r: Option<File>)
        ensures
            found_of(r) == slot_file(self@, Group::Validation, DATA_DIR@, supp_of(item@), FileType::Data),
    {
        self.probe(Group::Validation, DATA_DIR, concat("supp", item).as_str(), FileType::Data)
    }

    /// The transport file of a domain.
    pub fn sdtm_xpt_main(&self, item: &str) -> (r: Option<File>)
        ensures
            found_of(r) == slot_file(self@, Group::Production, DATA_DIR@, item@, FileType::Xpt),
    {
        self.probe(Group::Production, DATA_DIR, item, FileType::Xpt)
    }

    /// The transport file of a domain's supplementary domain.
    pub fn sdtm_xpt_supp(&self, item: &str) -> (r: Option<File>)
        ensures
            found_of(r) == slot_file(self@, Group::Production, DATA_DIR@, supp_of(item@), FileType::Xpt),
    {
        self.probe(Group::Production, DATA_DIR, concat("supp", item).as_str(), FileType::Xpt)
    }

    /// The log of a domain on a track.
    pub fn sdtm_log(&self, item: &str, group: &Group) -> (r: Option<File>)
        ensures
            found_of(r) == slot_file(self@, *group, CODE_DIR@, item@, FileType::Log),
    {
        self.probe(*group, CODE_DIR, item, FileType::Log)
    }

    /// The QC report of a domain.
    pub fn sdtm_qc_main(&self, item: &str) -> (r: Option<File>)
        ensures
            found_of(r) == slot_file(self@, Group::Validation, QC_DIR@, item@, FileType::Qc),
    {
        self.probe(Group::Validation, QC_DIR, item, FileType::Qc)
    }

    /// The QC report of a domain's supplementary domain.
    pub fn sdtm_qc_supp(&self, item: &str) -> (r: Option<File>)
        ensures
            found_of(r) == slot_file(self@, Group::Validation, QC_DIR@, supp_of(item@), FileType::Qc),
    {
        self.probe(Group::Validation, QC_DIR, concat("supp", item).as_str(), FileType::Qc)
    }
}

} // verus!
