//! The audit of the files of an ADaM dataset.

use vstd::prelude::*;

use crate::v2::category::{FileType, Group};
use crate::v2::investigator::adam::{CODE_DIR, DATA_DIR, QC_DIR};
use crate::v2::investigator::investigator::{found_of, File, Found, Investigator, InvestigatorView};
use crate::v2::investigator::utils::{filename, filename_of, slot_file};
use crate::v2::sequence::audit::{
    audit_file, audit_track, auditing, audits_of, held_against, modified_at_of, sequence_of,
    sequences_of, track_audit, AuditResult, AuditView, SequenceAuditor, SequenceResult,
    SequenceView,
};
use crate::v2::inspect::result::StatusView;

verus! {

/// The files of a dataset on the production track.
#[derive(Debug)]
pub struct AdamProductionFile {
    pub code: Option<File>,
    pub dataset: Option<File>,
    pub xpt: Option<File>,
    pub log: Option<File>,
}

/// The mathematical content of the files of a track: the program, the
/// dataset, what is made from the dataset, and the log.
pub struct TrackFiles {
    pub code: Option<Found>,
    pub dataset: Option<Found>,
    pub product: Option<Found>,
    pub log: Option<Found>,
}

impl View for AdamProductionFile {
    type V = TrackFiles;

    open spec fn view(&self) -> TrackFiles {
        TrackFiles {
            code: found_of(self.code),
            dataset: found_of(self.dataset),
            product: found_of(self.xpt),
            log: found_of(self.log),
        }
    }
}

/// The files of a dataset on the production track, as they were seen.
pub open spec fn production_of(inv: InvestigatorView, item: Seq<char>) -> TrackFiles {
    TrackFiles {
        code: slot_file(inv, Group::Production, CODE_DIR@, item, FileType::Code),
        dataset: slot_file(inv, Group::Production, DATA_DIR@, item, FileType::Data),
        product: slot_file(inv, Group::Production, DATA_DIR@, item, FileType::Xpt),
        log: slot_file(inv, Group::Production, CODE_DIR@, item, FileType::Log),
    }
}

impl AdamProductionFile {
    /// Looks up the files of a dataset on the production track.
    pub fn build(item: &str, investigator: &Investigator) -> (r: AdamProductionFile)
        ensures
            r@ == production_of(investigator@, item@),
    {
        AdamProductionFile {
            code: investigator.adam_code(item, &Group::Production),
            dataset: investigator.adam_data(item, &Group::Production),
            xpt: investigator.adam_xpt(item),
            log: investigator.adam_log(item, &Group::Production),
        }
    }
}

/// The files of a dataset on the validation track.
#[derive(Debug)]
pub struct AdamValidationFile {
    pub code: Option<File>,
    pub dataset: Option<File>,
    pub qc: Option<File>,
    pub log: Option<File>,
}

impl View for AdamValidationFile {
    type V = TrackFiles;

    open spec fn view(&self) -> TrackFiles {
        TrackFiles {
            code: found_of(self.code),
            dataset: found_of(self.dataset),
            product: found_of(self.qc),
            log: found_of(self.log),
        }
    }
}

/// The files of a dataset on the validation track, as they were seen.
pub open spec fn validation_of(inv: InvestigatorView, item: Seq<char>) -> TrackFiles {
    TrackFiles {
        code: slot_file(inv, Group::Validation, CODE_DIR@, item, FileType::Code),
        dataset: slot_file(inv, Group::Validation, DATA_DIR@, item, FileType::Data),
        product: slot_file(inv, Group::Validation, QC_DIR@, item, FileType::Qc),
        log: slot_file(inv, Group::Validation, CODE_DIR@, item, FileType::Log),
    }
}

impl AdamValidationFile {
    /// Looks up the files of a dataset on the validation track.
    pub fn build(item: &str, investigator: &Investigator) -> (r: AdamValidationFile)
        ensures
            r@ == validation_of(investigator@, item@),
    {
        AdamValidationFile {
            code: investigator.adam_code(item, &Group::Validation),
            dataset: investigator.adam_data(item, &Group::Validation),
            qc: investigator.adam_qc_result(item),
            log: investigator.adam_log(item, &Group::Validation),
        }
    }
}

/// The auditor of a dataset.
#[derive(Debug)]
pub struct AdamSequenceAuditor {
    item: String,
    production: AdamProductionFile,
    validation: AdamValidationFile,
}

/// The mathematical content of an auditor of two tracks.
pub struct TrackAudit {
    pub item: Seq<char>,
    pub production: TrackFiles,
    pub validation: TrackFiles,
}

impl View for AdamSequenceAuditor {
    type V = TrackAudit;

    closed spec fn view(&self) -> TrackAudit {
        TrackAudit {
            item: self.item@,
            production: self.production@,
            validation: self.validation@,
        }
    }
}

impl TrackAudit {
    pub open spec fn files(self, group: Group) -> TrackFiles {
        match group {
            Group::Production => self.production,
            Group::Validation => self.validation,
        }
    }

    /// The program has nothing before it.
    pub open spec fn audit_code(self, group: Group) -> SequenceView {
        sequence_of(
            filename_of(self.item, group, FileType::Code),
            FileType::Code,
            group,
            held_against(self.files(group).code, None, ""@),
            self.files(group).code,
        )
    }

    /// The dataset is made from the program.
    pub open spec fn audit_dataset(self, group: Group) -> SequenceView {
        sequence_of(
            filename_of(self.item, group, FileType::Data),
            FileType::Data,
            group,
            held_against(self.files(group).dataset, self.files(group).code, "Code later than data"@),
            self.files(group).dataset,
        )
    }

    /// The transport file is made from the dataset.
    pub open spec fn audit_xpt(self) -> SequenceView {
        sequence_of(
            filename_of(self.item, Group::Production, FileType::Xpt),
            FileType::Xpt,
            Group::Production,
            held_against(self.production.product, self.production.dataset, "Xpt later than data"@),
            self.production.product,
        )
    }

    /// The status of the QC report: held against the validation track's
    /// dataset, and where that does not pass, against the production
    /// track's.
    pub open spec fn qc_status(self) -> StatusView {
        let first = held_against(
            self.validation.product,
            self.validation.dataset,
            "Qc later than val dataset"@,
        );
        if first == StatusView::Pass {
            first
        } else {
            held_against(
                self.validation.product,
                self.production.dataset,
                "Qc later than prod dataset"@,
            )
        }
    }

    /// The QC report is made from the datasets of both tracks.
    pub open spec fn audit_qc(self) -> SequenceView {
        sequence_of(
            filename_of(self.item, Group::Validation, FileType::Qc),
            FileType::Qc,
            Group::Validation,
            self.qc_status(),
            self.validation.product,
        )
    }

    /// The log is written last: after the transport file on the
    /// production track, after the QC report on the validation track.
    pub open spec fn audit_log(self, group: Group, production: Seq<char>, validation: Seq<char>)
        -> SequenceView {
        sequence_of(
            filename_of(self.item, group, FileType::Log),
            FileType::Log,
            group,
            held_against(
                self.files(group).log,
                self.files(group).product,
                match group {
                    Group::Production => production,
                    Group::Validation => validation,
                },
            ),
            self.files(group).log,
        )
    }

    /// The audits of both tracks of a dataset.
    pub open spec fn adam_audits(self) -> Seq<AuditView> {
        seq![
            track_audit(
                seq![
                    self.audit_code(Group::Production),
                    self.audit_dataset(Group::Production),
                    self.audit_xpt(),
                    self.audit_log(Group::Production, "Xpt later than log"@, "Qc later than log"@),
                ],
            ),
            track_audit(
                seq![
                    self.audit_code(Group::Validation),
                    self.audit_dataset(Group::Validation),
                    self.audit_qc(),
                    self.audit_log(Group::Validation, "Xpt later than log"@, "Qc later than log"@),
                ],
            ),
        ]
    }
}

/// The audits of both tracks of the dataset `item`.
pub open spec fn adam_audits(inv: InvestigatorView, item: Seq<char>) -> Seq<AuditView> {
    (TrackAudit {
        item,
        production: production_of(inv, item),
        validation: validation_of(inv, item),
    }).adam_audits()
}

impl AdamSequenceAuditor {
    /// The auditor of the dataset `item`, with its files as they were
    /// seen.
    pub fn new(item: &str, investigator: &Investigator) -> (r: AdamSequenceAuditor)
        ensures
            r@ == (TrackAudit {
                item: item@,
                production: production_of(investigator@, item@),
                validation: validation_of(investigator@, item@),
            }),
    {
        let production = AdamProductionFile::build(item, investigator);
        let validation = AdamValidationFile::build(item, investigator);
        AdamSequenceAuditor { item: item.to_owned(), production, validation }
    }

    fn audit_production(&self) -> (r: AuditResult)
        ensures
            r@ == self@.adam_audits()[0],
    {
        let mut sequences: Vec<SequenceResult> = Vec::new();
        sequences.push(self.audit_code(Group::Production));
        sequences.push(self.audit_dataset(Group::Production));
        sequences.push(self.audit_xpt());
        sequences.push(self.audit_log(Group::Production));
        proof {
            assert(sequences_of(sequences@) =~= seq![
                self@.audit_code(Group::Production),
                self@.audit_dataset(Group::Production),
                self@.audit_xpt(),
                self@.audit_log(Group::Production, "Xpt later than log"@, "Qc later than log"@),
            ]);
        }
        audit_track(sequences)
    }

    fn audit_validation(&self) -> (r: AuditResult)
        ensures
            r@ == self@.adam_audits()[1],
    {
        let mut sequences: Vec<SequenceResult> = Vec::new();
        sequences.push(self.audit_code(Group::Validation));
        sequences.push(self.audit_dataset(Group::Validation));
        sequences.push(self.audit_qc());
        sequences.push(self.audit_log(Group::Validation));
        proof {
            assert(sequences_of(sequences@) =~= seq![
                self@.audit_code(Group::Validation),
                self@.audit_dataset(Group::Validation),
                self@.audit_qc(),
                self@.audit_log(Group::Validation, "Xpt later than log"@, "Qc later than log"@),
            ]);
        }
        audit_track(sequences)
    }

    fn audit_code(&self, group: Group) -> (r: SequenceResult)
        ensures
            r@ == self@.audit_code(group),
    {
        let code = match group {
            Group::Production => self.production.code.as_ref(),
            Group::Validation => self.validation.code.as_ref(),
        };
        let kind = FileType::Code;
        let name = filename(self.item.as_str(), &group, &kind);
        audit_file(name, kind, group, code, None, "", code)
    }

    fn audit_dataset(&self, group: Group) -> (r: SequenceResult)
        ensures
            r@ == self@.audit_dataset(group),
    {
        let dataset = match group {
            Group::Production => self.production.dataset.as_ref(),
            Group::Validation => self.validation.dataset.as_ref(),
        };
        let code = match group {
            Group::Production => self.production.code.as_ref(),
            Group::Validation => self.validation.code.as_ref(),
        };
        let kind = FileType::Data;
        let name = filename(self.item.as_str(), &group, &kind);
        audit_file(name, kind, group, dataset, code, "Code later than data", dataset)
    }

    fn audit_xpt(&self) -> (r: SequenceResult)
        ensures
            r@ == self@.audit_xpt(),
    {
        let xpt = self.production.xpt.as_ref();
        let dataset = self.production.dataset.as_ref();
        let kind = FileType::Xpt;
        let name = filename(self.item.as_str(), &Group::Production, &kind);
        audit_file(name, kind, Group::Production, xpt, dataset, "Xpt later than data", xpt)
    }

    fn audit_qc(&self) -> (r: SequenceResult)
        ensures
            r@ == self@.audit_qc(),
    {
        let base = self.validation.qc.as_ref();
        let prod_dataset = self.production.dataset.as_ref();
        let val_dataset = self.validation.dataset.as_ref();
        let mut status = auditing(base, val_dataset, "Qc later than val dataset");
        if !status.is_pass() {
            status = auditing(base, prod_dataset, "Qc later than prod dataset");
        }
        let kind = FileType::Qc;
        let name = filename(self.item.as_str(), &Group::Validation, &kind);
        SequenceResult {
            name,
            kind,
            status,
            group: Group::Validation,
            modified_at: modified_at_of(base),
        }
    }

    fn audit_log(&self, group: Group) -> (r: SequenceResult)
        ensures
            r@ == self@.audit_log(group, "Xpt later than log"@, "Qc later than log"@),
    {
        let log = match group {
            Group::Production => self.production.log.as_ref(),
            Group::Validation => self.validation.log.as_ref(),
        };
        let product = match group {
            Group::Production => self.production.xpt.as_ref(),
            Group::Validation => self.validation.qc.as_ref(),
        };
        let message = match group {
            Group::Production => "Xpt later than log",
            Group::Validation => "Qc later than log",
        };
        let kind = FileType::Log;
        let name = filename(self.item.as_str(), &group, &kind);
        audit_file(name, kind, group, log, product, message, log)
    }
}

impl SequenceAuditor for AdamSequenceAuditor {
    open spec fn audited(&self) -> Seq<AuditView> {
        self@.adam_audits()
    }

    fn audit(&self) -> (r: Vec<AuditResult>) {
        let mut r: Vec<AuditResult> = Vec::new();
        r.push(self.audit_production());
        r.push(self.audit_validation());
        proof {
            assert(audits_of(r@) =~= self@.adam_audits());
        }
        r
    }
}

} // verus!
