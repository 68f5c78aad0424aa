//! The inspector of the SDTM domains.

use vstd::prelude::*;

use crate::v2::category::{Group, Kind};
use crate::v2::config::reader::{configs_of, copy_configs, Config, ConfigView};
use crate::v2::error::{Error, ErrorView};
use crate::v2::inspect::inspector::{
    audits_for, code_file, inspect_all, inspections, log_status, qc_status, sequence_statuses,
    start_coding, started, status_agrees, validate_log, validate_qc, Inspector,
};
use crate::v2::inspect::result::{
    checks_of, copy_checks, Checked, CheckedView, InspectionResult, InspectionView, Status,
};
use crate::v2::investigator::investigator::{Investigator, InvestigatorView};

verus! {

/// The inspector of the SDTM domains of a project.
#[derive(Debug)]
pub struct SdtmInspector {
    investigator: Investigator,
    config: Vec<Config>,
    checks: Vec<Checked>,
}

/// The mathematical content of an [`SdtmInspector`].
pub struct SdtmInspection {
    pub investigator: InvestigatorView,
    pub config: Seq<ConfigView>,
    pub checks: Seq<CheckedView>,
}

impl View for SdtmInspector {
    type V = SdtmInspection;

    closed spec fn view(&self) -> SdtmInspection {
        SdtmInspection {
            investigator: self.investigator@,
            config: configs_of(self.config@),
            checks: checks_of(self.checks@),
        }
    }
}

impl SdtmInspector {
    /// An inspector of the deliverables of `config`, with what was seen of
    /// their files and what the validators made of them.
    pub fn new(investigator: Investigator, config: &Vec<Config>, checks: &Vec<Checked>) -> (r:
        SdtmInspector)
        ensures
            r@ == (SdtmInspection {
                investigator: investigator@,
                config: configs_of(config@),
                checks: checks_of(checks@),
            }),
    {
        SdtmInspector { investigator, config: copy_configs(config), checks: copy_checks(checks) }
    }

    /// The statuses of the audits of the two tracks of a deliverable.
    pub fn sequence(&self, config: &Config) -> (r: (Status, Status))
        ensures
            r.0@ == audits_for(Kind::SDTM, self@.investigator, config@.name, config@.supp)[0].status,
            r.1@ == audits_for(Kind::SDTM, self@.investigator, config@.name, config@.supp)[1].status,
    {
        sequence_statuses(&self.investigator, Kind::SDTM, config.name.as_str(), config.supp)
    }

    /// The status of the log of a deliverable on a track.
    pub fn validate_log(&self, item: &str, group: &Group) -> (r: Result<Status, Error>)
        ensures
            status_agrees(
                r,
                log_status(Kind::SDTM, self@.investigator, self@.checks, item@, *group),
            ),
    {
        validate_log(&self.investigator, &self.checks, Kind::SDTM, item, *group)
    }

    /// The status of the QC report of a domain, or of its supplementary
    /// domain. It never fails: a report that the validator could not work
    /// on has failed.
    pub fn qc(&self, item: &str, supp: bool) -> (r: Result<Status, Error>)
        ensures
            r matches Ok(s) && s@ == qc_status(
                Kind::SDTM,
                self@.investigator,
                self@.checks,
                item@,
                supp,
            ),
    {
        Ok(validate_qc(&self.investigator, &self.checks, Kind::SDTM, item, supp))
    }

    /// The status of the QC report of a domain.
    pub fn qc_main(&self, item: &str) -> (r: Result<Status, Error>)
        ensures
            r matches Ok(s) && s@ == qc_status(
                Kind::SDTM,
                self@.investigator,
                self@.checks,
                item@,
                false,
            ),
    {
        self.qc(item, false)
    }

    /// The status of the QC report of the supplementary domain of a
    /// domain.
    pub fn qc_supp(&self, item: &str) -> (r: Result<Status, Error>)
        ensures
            r matches Ok(s) && s@ == qc_status(
                Kind::SDTM,
                self@.investigator,
                self@.checks,
                item@,
                true,
            ),
    {
        self.qc(item, true)
    }

    /// Whether coding of a deliverable has started on a track: its program
    /// was modified after it was created.
    pub fn start_coding(&self, item: &str, group: Group) -> (r: bool)
        ensures
            r == started(code_file(self@.investigator, Kind::SDTM, item@, group)),
    {
        start_coding(&self.investigator, Kind::SDTM, item, group)
    }
}

impl Inspector for SdtmInspector {
    open spec fn inspected(&self) -> Result<Seq<InspectionView>, ErrorView> {
        inspections(Kind::SDTM, self@.investigator, self@.checks, self@.config, 0)
    }

    fn inspect(&self) -> (r: Result<Vec<InspectionResult>, Error>) {
        inspect_all(&self.investigator, &self.checks, Kind::SDTM, &self.config)
    }
}

} // verus!
