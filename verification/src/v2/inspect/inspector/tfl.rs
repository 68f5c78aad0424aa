//! The inspector of the tables, figures and listings.

use vstd::prelude::*;

use crate::v2::category::{Group, Kind};
use crate::v2::config::reader::{configs_of, copy_configs, Config, ConfigView};
use crate::v2::error::{Error, ErrorView};
use crate::v2::inspect::inspector::{
    audits_for, code_file, inspect_all, inspections, log_status, qc_status, sequence_statuses,
    start_coding, started, status_agrees, validate_log, validate_qc, Inspector,
};
use crate::v2::inspect::result::{
    checks_of, copy_checks, Checked, CheckedView, InspectionResult, InspectionView, Status,
};
use crate::v2::investigator::investigator::{Investigator, InvestigatorView};

verus! {

/// The inspector of the tables, figures and listings of a project.
#[derive(Debug)]
pub struct TflInspector {
    investigator: Investigator,
    config: Vec<Config>,
    checks: Vec<Checked>,
}

/// The mathematical content of a [`TflInspector`].
pub struct TflInspection {
    pub investigator: InvestigatorView,
    pub config: Seq<ConfigView>,
    pub checks: Seq<CheckedView>,
}

impl View for TflInspector {
    type V = TflInspection;

    closed spec fn view(&self) -> TflInspection {
        TflInspection {
            investigator: self.investigator@,
            config: configs_of(self.config@),
            checks: checks_of(self.checks@),
        }
    }
}

impl TflInspector {
    /// An inspector of the deliverables of `config`, with what was seen of
    /// their files and what the validators made of them.
    pub fn new(investigator: Investigator, config: &Vec<Config>, checks: &Vec<Checked>) -> (r:
        TflInspector)
        ensures
            r@ == (TflInspection {
                investigator: investigator@,
                config: configs_of(config@),
                checks: checks_of(checks@),
            }),
    {
        TflInspector { investigator, config: copy_configs(config), checks: copy_checks(checks) }
    }

    /// The statuses of the audits of the two tracks of a deliverable.
    pub fn sequence(&self, item: &str) -> (r: (Status, Status))
        ensures
            r.0@ == audits_for(Kind::TFLs, self@.investigator, item@, false)[0].status,
            r.1@ == audits_for(Kind::TFLs, self@.investigator, item@, false)[1].status,
    {
        sequence_statuses(&self.investigator, Kind::TFLs, item, false)
    }

    /// The status of the log of a deliverable on a track.
    pub fn validate_log(&self, item: &str, group: &Group) -> (r: Result<Status, Error>)
        ensures
            status_agrees(
                r,
                log_status(Kind::TFLs, self@.investigator, self@.checks, item@, *group),
            ),
    {
        validate_log(&self.investigator, &self.checks, Kind::TFLs, item, *group)
    }

    /// The status of the QC report of a deliverable. It never fails: a
    /// report that the validator could not work on has failed.
    pub fn qc(&self, item: &str) -> (r: Result<Status, Error>)
        ensures
            r matches Ok(s) && s@ == qc_status(
                Kind::TFLs,
                self@.investigator,
                self@.checks,
                item@,
                false,
            ),
    {
        Ok(validate_qc(&self.investigator, &self.checks, Kind::TFLs, item, false))
    }

    /// Whether coding of a deliverable has started on a track: its program
    /// was modified after it was created.
    pub fn start_coding(&self, item: &str, group: &Group) -> (r: bool)
        ensures
            r == started(code_file(self@.investigator, Kind::TFLs, item@, *group)),
    {
        start_coding(&self.investigator, Kind::TFLs, item, *group)
    }
}

impl Inspector for TflInspector {
    open spec fn inspected(&self) -> Result<Seq<InspectionView>, ErrorView> {
        inspections(Kind::TFLs, self@.investigator, self@.checks, self@.config, 0)
    }

    fn inspect(&self) -> (r: Result<Vec<InspectionResult>, Error>) {
        inspect_all(&self.investigator, &self.checks, Kind::TFLs, &self.config)
    }
}

} // verus!
