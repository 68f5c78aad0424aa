//! The audit of the files of an SDTM domain.

use vstd::prelude::*;

use crate::text::concat;
use crate::v2::category::{FileType, Group};
use crate::v2::investigator::investigator::{found_of, File, Found, Investigator, InvestigatorView};
use crate::v2::investigator::sdtm::{CODE_DIR, DATA_DIR, QC_DIR};
use crate::v2::investigator::utils::{filename, filename_of, slot_file, supp_of};
use crate::v2::sequence::audit::{
    audit_file, audit_track, audits_of, held_against, sequence_of, sequences_of, track_audit,
    AuditResult, AuditView, SequenceAuditor, SequenceResult, SequenceView,
};

verus! {

/// The files of a domain on the production track.
#[derive(Debug)]
pub struct SdtmProductionFile {
    pub code: Option<File>,
    pub log: Option<File>,
    pub main_data: Option<File>,
    pub supp_data: Option<File>,
    pub main_xpt: Option<File>,
    pub supp_xpt: Option<File>,
}

/// The mathematical content of an [`SdtmProductionFile`].
pub struct SdtmProduction {
    pub code: Option<Found>,
    pub log: Option<Found>,
    pub main_data: Option<Found>,
    pub supp_data: Option<Found>,
    pub main_xpt: Option<Found>,
    pub supp_xpt: Option<Found>,
}

impl View for SdtmProductionFile {
    type V = SdtmProduction;

    open spec fn view(&self) -> SdtmProduction {
        SdtmProduction {
            code: found_of(self.code),
            log: found_of(self.log),
            main_data: found_of(self.main_data),
            supp_data: found_of(self.supp_data),
            main_xpt: found_of(self.main_xpt),
            supp_xpt: found_of(self.supp_xpt),
        }
    }
}

/// The files of a domain on the production track, as they were seen.
pub open spec fn production_of(inv: InvestigatorView, item: Seq<char>) -> SdtmProduction {
    SdtmProduction {
        code: slot_file(inv, Group::Production, CODE_DIR@, item, FileType::Code),
        log: slot_file(inv, Group::Production, CODE_DIR@, item, FileType::Log),
        main_data: slot_file(inv, Group::Production, DATA_DIR@, item, FileType::Data),
        supp_data: slot_file(inv, Group::Production, DATA_DIR@, supp_of(item), FileType::Data),
        main_xpt: slot_file(inv, Group::Production, DATA_DIR@, item, FileType::Xpt),
        supp_xpt: slot_file(inv, Group::Production, DATA_DIR@, supp_of(item), FileType::Xpt),
    }
}

impl SdtmProductionFile {
    /// Looks up the files of a domain on the production track.
    pub fn build(item: &str, investigator: &Investigator) -> (r: SdtmProductionFile)
        ensures
            r@ == production_of(investigator@, item@),
    {
        let code = investigator.sdtm_code_production(item);
        let log = investigator.sdtm_log(item, &Group::Production);
        let main_data = investigator.sdtm_data_main_production(item);
        let supp_data = investigator.sdtm_data_supp_production(item);
        let main_xpt = investigator.sdtm_xpt_main(item);
        let supp_xpt = investigator.sdtm_xpt_supp(item);
        SdtmProductionFile { code, log, main_data, supp_data, main_xpt, supp_xpt }
    }
}

/// The files of a domain on the validation track.
#[derive(Debug)]
pub struct SdtmValidationFile {
    pub code: Option<File>,
    pub log: Option<File>,
    pub main_data: Option<File>,
    pub supp_data: Option<File>,
    pub main_qc: Option<File>,
    pub supp_qc: Option<File>,
}

/// The mathematical content of an [`SdtmValidationFile`].
pub struct SdtmValidation {
    pub code: Option<Found>,
    pub log: Option<Found>,
    pub main_data: Option<Found>,
    pub supp_data: Option<Found>,
    pub main_qc: Option<Found>,
    pub supp_qc: Option<Found>,
}

impl View for SdtmValidationFile {
    type V = SdtmValidation;

    open spec fn view(&self) -> SdtmValidation {
        SdtmValidation {
            code: found_of(self.code),
            log: found_of(self.log),
            main_data: found_of(self.main_data),
            supp_data: found_of(self.supp_data),
            main_qc: found_of(self.main_qc),
            supp_qc: found_of(self.supp_qc),
        }
    }
}

/// The files of a domain on the validation track, as they were seen.
pub open spec fn validation_of(inv: InvestigatorView, item: Seq<char>) -> SdtmValidation {
    SdtmValidation {
        code: slot_file(inv, Group::Validation, CODE_DIR@, item, FileType::Code),
        log: slot_file(inv, Group::Validation, CODE_DIR@, item, FileType::Log),
        main_data: slot_file(inv, Group::Validation, DATA_DIR@, item, FileType::Data),
        supp_data: slot_file(inv, Group::Validation, DATA_DIR@, supp_of(item), FileType::Data),
        main_qc: slot_file(inv, Group::Validation, QC_DIR@, item, FileType::Qc),
        supp_qc: slot_file(inv, Group::Validation, QC_DIR@, supp_of(item), FileType::Qc),
    }
}

impl SdtmValidationFile {
    /// Looks up the files of a domain on the validation track.
    pub fn build(item: &str, investigator: &Investigator) -> (r: SdtmValidationFile)
        ensures
            r@ == validation_of(investigator@, item@),
    {
        let code = investigator.sdtm_code_validation(item);
        let log = investigator.sdtm_log(item, &Group::Validation);
        let main_data = investigator.sdtm_data_main_validation(item);
        let supp_data = investigator.sdtm_data_supp_validation(item);
        let main_qc = investigator.sdtm_qc_main(item);
        let supp_qc = investigator.sdtm_qc_supp(item);
        SdtmValidationFile { code, log, main_data, supp_data, main_qc, supp_qc }
    }
}

/// The auditor of a domain.
#[derive(Debug)]
pub struct SdtmSequenceAuditor {
    item: String,
    supp: bool,
    production: SdtmProductionFile,
    validation: SdtmValidationFile,
}

/// The mathematical content of an [`SdtmSequenceAuditor`].
pub struct SdtmAudit {
    pub item: Seq<char>,
    pub supp: bool,
    pub production: SdtmProduction,
    pub validation: SdtmValidation,
}

impl View for SdtmSequenceAuditor {
    type V = SdtmAudit;

    closed spec fn view(&self) -> SdtmAudit {
        SdtmAudit {
            item: self.item@,
            supp: self.supp,
            production: self.production@,
            validation: self.validation@,
        }
    }
}

impl SdtmAudit {
    pub open spec fn code(self, group: Group) -> Option<Found> {
        match group {
            Group::Production => self.production.code,
            Group::Validation => self.validation.code,
        }
    }

    pub open spec fn main_data(self, group: Group) -> Option<Found> {
        match group {
            Group::Production => self.production.main_data,
            Group::Validation => self.validation.main_data,
        }
    }

    pub open spec fn supp_data(self, group: Group) -> Option<Found> {
        match group {
            Group::Production => self.production.supp_data,
            Group::Validation => self.validation.supp_data,
        }
    }

    pub open spec fn log(self, group: Group) -> Option<Found> {
        match group {
            Group::Production => self.production.log,
            Group::Validation => self.validation.log,
        }
    }

    /// The program has nothing before it.
    pub open spec fn audit_code(self, group: Group) -> SequenceView {
        sequence_of(
            filename_of(self.item, group, FileType::Code),
            FileType::Code,
            group,
            held_against(self.code(group), None, ""@),
            self.code(group),
        )
    }

    /// The dataset is made from the program.
    pub open spec fn audit_main_dataset(self, group: Group) -> SequenceView {
        sequence_of(
            filename_of(self.item, group, FileType::Data),
            FileType::Data,
            group,
            held_against(self.main_data(group), self.code(group), "Code later than data"@),
            self.main_data(group),
        )
    }

    /// The supplementary dataset is made after the main one. The audit
    /// shows the time of the production track's supplementary dataset.
    pub open spec fn audit_supp_dataset(self, group: Group) -> SequenceView {
        sequence_of(
            filename_of(supp_of(self.item), group, FileType::Data),
            FileType::Data,
            group,
            held_against(self.supp_data(group), self.main_data(group), "Main later than supp"@),
            self.production.supp_data,
        )
    }

    /// The transport file is made from the dataset.
    pub open spec fn audit_main_xpt(self) -> SequenceView {
        sequence_of(
            filename_of(self.item, Group::Production, FileType::Xpt),
            FileType::Xpt,
            Group::Production,
            held_against(
                self.production.main_xpt,
                self.production.main_data,
                "Data later than xpt"@,
            ),
            self.production.main_xpt,
        )
    }

    /// The supplementary transport file is made from the supplementary
    /// dataset.
    pub open spec fn audit_supp_xpt(self) -> SequenceView {
        sequence_of(
            filename_of(supp_of(self.item), Group::Production, FileType::Xpt),
            FileType::Xpt,
            Group::Production,
            held_against(
                self.production.supp_xpt,
                self.production.supp_data,
                "Data later than xpt"@,
            ),
            self.production.supp_xpt,
        )
    }

    /// The QC report is made from the validation track's dataset.
    pub open spec fn audit_main_qc(self) -> SequenceView {
        sequence_of(
            filename_of(self.item, Group::Validation, FileType::Qc),
            FileType::Qc,
            Group::Validation,
            held_against(
                self.validation.main_qc,
                self.validation.main_data,
                "Data later than QcResult"@,
            ),
            self.validation.main_qc,
        )
    }

    /// The supplementary QC report is held against the validation track's
    /// main dataset.
    pub open spec fn audit_supp_qc(self) -> SequenceView {
        sequence_of(
            filename_of(supp_of(self.item), Group::Validation, FileType::Qc),
            FileType::Qc,
            Group::Validation,
            held_against(
                self.validation.supp_qc,
                self.validation.main_data,
                "Data later than QcResult"@,
            ),
            self.validation.supp_qc,
        )
    }

    /// What the log is held against: the last file that the track makes.
    pub open spec fn before_log(self, group: Group) -> Option<Found> {
        match group {
            Group::Production => if self.supp {
                self.production.supp_data
            } else {
                self.production.main_data
            },
            Group::Validation => if self.supp {
                self.validation.supp_qc
            } else {
                self.validation.main_qc
            },
        }
    }

    /// The log is written last.
    pub open spec fn audit_log(self, group: Group) -> SequenceView {
        sequence_of(
            filename_of(self.item, group, FileType::Log),
            FileType::Log,
            group,
            held_against(
                self.log(group),
                self.before_log(group),
                match group {
                    Group::Production => "Data later than log"@,
                    Group::Validation => "QcResult later than log"@,
                },
            ),
            self.log(group),
        )
    }

    /// The audits of the files of the production track.
    pub open spec fn production_sequences(self) -> Seq<SequenceView> {
        let head = seq![
            self.audit_code(Group::Production),
            self.audit_main_dataset(Group::Production),
            self.audit_main_xpt(),
        ];
        let middle = if self.supp {
            seq![self.audit_supp_dataset(Group::Production), self.audit_supp_xpt()]
        } else {
            Seq::empty()
        };
        head + middle + seq![self.audit_log(Group::Production)]
    }

    /// The audits of the files of the validation track.
    pub open spec fn validation_sequences(self) -> Seq<SequenceView> {
        let head = seq![
            self.audit_code(Group::Validation),
            self.audit_main_dataset(Group::Validation),
            self.audit_main_qc(),
        ];
        let middle = if self.supp {
            seq![self.audit_supp_dataset(Group::Validation), self.audit_supp_qc()]
        } else {
            Seq::empty()
        };
        head + middle + seq![self.audit_log(Group::Validation)]
    }

    /// The audits of both tracks.
    pub open spec fn audits(self) -> Seq<AuditView> {
        seq![track_audit(self.production_sequences()), track_audit(self.validation_sequences())]
    }
}

/// The audits of both tracks of the domain `item`.
pub open spec fn sdtm_audits(inv: InvestigatorView, item: Seq<char>, supp: bool) -> Seq<AuditView> {
    (SdtmAudit {
        item,
        supp,
        production: production_of(inv, item),
        validation: validation_of(inv, item),
    }).audits()
}

impl SdtmSequenceAuditor {
    /// The auditor of the domain `item`, with its files as they were
    /// seen.
    pub fn new(item: &str, supp: bool, investigator: &Investigator) -> (r: SdtmSequenceAuditor)
        ensures
            r@ == (SdtmAudit {
                item: item@,
                supp,
                production: production_of(investigator@, item@),
                validation: validation_of(investigator@, item@),
            }),
    {
        let production = SdtmProductionFile::build(item, investigator);
        let validation = SdtmValidationFile::build(item, investigator);
        SdtmSequenceAuditor { item: item.to_owned(), supp, production, validation }
    }

    fn audit_production(&self) -> (r: AuditResult)
        ensures
            r@ == track_audit(self@.production_sequences()),
    {
        let mut sequences: Vec<SequenceResult> = Vec::new();
        sequences.push(self.audit_code(Group::Production));
        sequences.push(self.audit_main_dataset(Group::Production));
        sequences.push(self.audit_main_xpt());
        if self.supp {
            sequences.push(self.audit_supp_dataset(Group::Production));
            sequences.push(self.audit_supp_xpt());
        }
        sequences.push(self.audit_log(Group::Production));
        proof {
            assert(sequences_of(sequences@) =~= self@.production_sequences());
        }
        audit_track(sequences)
    }

    fn audit_validation(&self) -> (r: AuditResult)
        ensures
            r@ == track_audit(self@.validation_sequences()),
    {
        let mut sequences: Vec<SequenceResult> = Vec::new();
        sequences.push(self.audit_code(Group::Validation));
        sequences.push(self.audit_main_dataset(Group::Validation));
        sequences.push(self.audit_main_qc());
        if self.supp {
            sequences.push(self.audit_supp_dataset(Group::Validation));
            sequences.push(self.audit_supp_qc());
        }
        sequences.push(self.audit_log(Group::Validation));
        proof {
            assert(sequences_of(sequences@) =~= self@.validation_sequences());
        }
        audit_track(sequences)
    }

    fn audit_code(&self, group: Group) -> (r: SequenceResult)
        ensures
            r@ == self@.audit_code(group),
    {
        let code = match group {
            Group::Production => self.production.code.as_ref(),
            Group::Validation => self.validation.code.as_ref(),
        };
        let kind = FileType::Code;
        let name = filename(self.item.as_str(), &group, &kind);
        audit_file(name, kind, group, code, None, "", code)
    }

    fn audit_main_dataset(&self, group: Group) -> (r: SequenceResult)
        ensures
            r@ == self@.audit_main_dataset(group),
    {
        let kind = FileType::Data;
        let name = filename(self.item.as_str(), &group, &kind);
        let base = match group {
            Group::Production => self.production.main_data.as_ref(),
            Group::Validation => self.validation.main_data.as_ref(),
        };
        let compare = match group {
            Group::Production => self.production.code.as_ref(),
            Group::Validation => self.validation.code.as_ref(),
        };
        audit_file(name, kind, group, base, compare, "Code later than data", base)
    }

    fn audit_supp_dataset(&self, group: Group) -> (r: SequenceResult)
        ensures
            r@ == self@.audit_supp_dataset(group),
    {
        let kind = FileType::Data;
        let name = filename(concat("supp", self.item.as_str()).as_str(), &group, &kind);
        let base = match group {
            Group::Production => self.production.supp_data.as_ref(),
            Group::Validation => self.validation.supp_data.as_ref(),
        };
        let compare = match group {
            Group::Production => self.production.main_data.as_ref(),
            Group::Validation => self.validation.main_data.as_ref(),
        };
        audit_file(
            name,
            kind,
            group,
            base,
            compare,
            "Main later than supp",
            self.production.supp_data.as_ref(),
        )
    }

    fn audit_main_xpt(&self) -> (r: SequenceResult)
        ensures
            r@ == self@.audit_main_xpt(),
    {
        let kind = FileType::Xpt;
        let name = filename(self.item.as_str(), &Group::Production, &kind);
        audit_file(
            name,
            kind,
            Group::Production,
            self.production.main_xpt.as_ref(),
            self.production.main_data.as_ref(),
            "Data later than xpt",
            self.production.main_xpt.as_ref(),
        )
    }

    fn audit_supp_xpt(&self) -> (r: SequenceResult)
        ensures
            r@ == self@.audit_supp_xpt(),
    {
        let kind = FileType::Xpt;
        let name = filename(concat("supp", self.item.as_str()).as_str(), &Group::Production, &kind);
        audit_file(
            name,
            kind,
            Group::Production,
            self.production.supp_xpt.as_ref(),
            self.production.supp_data.as_ref(),
            "Data later than xpt",
            self.production.supp_xpt.as_ref(),
        )
    }

    fn audit_main_qc(&self) -> (r: SequenceResult)
        ensures
            r@ == self@.audit_main_qc(),
    {
        let kind = FileType::Qc;
        let name = filename(self.item.as_str(), &Group::Validation, &kind);
        audit_file(
            name,
            kind,
            Group::Validation,
            self.validation.main_qc.as_ref(),
            self.validation.main_data.as_ref(),
            "Data later than QcResult",
            self.validation.main_qc.as_ref(),
        )
    }

    fn audit_supp_qc(&self) -> (r: SequenceResult)
        ensures
            r@ == self@.audit_supp_qc(),
    {
        let kind = FileType::Qc;
        let name = filename(concat("supp", self.item.as_str()).as_str(), &Group::Validation, &kind);
        audit_file(
            name,
            kind,
            Group::Validation,
            self.validation.supp_qc.as_ref(),
            self.validation.main_data.as_ref(),
            "Data later than QcResult",
            self.validation.supp_qc.as_ref(),
        )
    }

    fn audit_log(&self, group: Group) -> (r: SequenceResult)
        ensures
            r@ == self@.audit_log(group),
    {
        let kind = FileType::Log;
        let name = filename(self.item.as_str(), &group, &kind);
        let base = match group {
            Group::Production => self.production.log.as_ref(),
            Group::Validation => self.validation.log.as_ref(),
        };
        let compare = match group {
            Group::Production => match self.supp {
                true => self.production.supp_data.as_ref(),
                false => self.production.main_data.as_ref(),
            },
            Group::Validation => match self.supp {
                true => self.validation.supp_qc.as_ref(),
                false => self.validation.main_qc.as_ref(),
            },
        };
        let message = match group {
            Group::Production => "Data later than log",
            Group::Validation => "QcResult later than log",
        };
        audit_file(name, kind, group, base, compare, message, base)
    }
}

impl SequenceAuditor for SdtmSequenceAuditor {
    open spec fn audited(&self) -> Seq<AuditView> {
        self@.audits()
    }

    fn audit(&self) -> (r: Vec<AuditResult>) {
        let production = self.audit_production();
        let validation = self.audit_validation();
        let mut r: Vec<AuditResult> = Vec::new();
        r.push(production);
        r.push(validation);
        proof {
            assert(audits_of(r@) =~= self@.audits());
        }
        r
    }
}

} // verus!
