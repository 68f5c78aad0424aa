//! The audit of the files of a table, figure or listing.

use vstd::prelude::*;

use crate::v2::category::{FileType, Group};
use crate::v2::investigator::investigator::{found_of, File, Investigator, InvestigatorView};
use crate::v2::investigator::tfl::{CODE_DIR, DATA_DIR, OUTPUT_DIR, QC_DIR};
use crate::v2::investigator::utils::{filename, filename_of, slot_file};
use crate::v2::sequence::adam::{TrackAudit, TrackFiles};
use crate::v2::sequence::audit::{
    audit_file, audit_track, auditing, audits_of, held_against, modified_at_of, sequence_of,
    sequences_of, track_audit, AuditResult, AuditView, SequenceAuditor, SequenceResult,
    SequenceView,
};

verus! {

/// The files of an output on the production track.
#[derive(Debug)]
pub struct TflProductionFile {
    pub code: Option<File>,
    pub dataset: Option<File>,
    pub output: Option<File>,
    pub log: Option<File>,
}

impl View for TflProductionFile {
    type V = TrackFiles;

    open spec fn view(&self) -> TrackFiles {
        TrackFiles {
            code: found_of(self.code),
            dataset: found_of(self.dataset),
            product: found_of(self.output),
            log: found_of(self.log),
        }
    }
}

/// The files of an output on the production track, as they were seen.
pub open spec fn production_of(inv: InvestigatorView, item: Seq<char>) -> TrackFiles {
    TrackFiles {
        code: slot_file(inv, Group::Production, CODE_DIR@, item, FileType::Code),
        dataset: slot_file(inv, Group::Production, DATA_DIR@, item, FileType::Data),
        product: slot_file(inv, Group::Production, OUTPUT_DIR@, item, FileType::Output),
        log: slot_file(inv, Group::Production, CODE_DIR@, item, FileType::Log),
    }
}

impl TflProductionFile {
    /// Looks up the files of an output on the production track.
    pub fn build(item: &str, investigator: &Investigator) -> (r: TflProductionFile)
        ensures
            r@ == production_of(investigator@, item@),
    {
        TflProductionFile {
            code: investigator.tfl_code(item, &Group::Production),
            dataset: investigator.tfl_data(item, &Group::Production),
            output: investigator.tfl_output(item, &Group::Production),
            log: investigator.tfl_log(item, &Group::Production),
        }
    }
}

/// The files of an output on the validation track.
#[derive(Debug)]
pub struct TflValidationFile {
    pub code: Option<File>,
    pub dataset: Option<File>,
    pub log: Option<File>,
    pub qc: Option<File>,
}

impl View for TflValidationFile {
    type V = TrackFiles;

    open spec fn view(&self) -> TrackFiles {
        TrackFiles {
            code: found_of(self.code),
            dataset: found_of(self.dataset),
            product: found_of(self.qc),
            log: found_of(self.log),
        }
    }
}

/// The files of an output on the validation track, as they were seen.
pub open spec fn validation_of(inv: InvestigatorView, item: Seq<char>) -> TrackFiles {
    TrackFiles {
        code: slot_file(inv, Group::Validation, CODE_DIR@, item, FileType::Code),
        dataset: slot_file(inv, Group::Validation, DATA_DIR@, item, FileType::Data),
        product: slot_file(inv, Group::Validation, QC_DIR@, item, FileType::Qc),
        log: slot_file(inv, Group::Validation, CODE_DIR@, item, FileType::Log),
    }
}

impl TflValidationFile {
    /// Looks up the files of an output on the validation track.
    pub fn build(item: &str, investigator: &Investigator) -> (r: TflValidationFile)
        ensures
            r@ == validation_of(investigator@, item@),
    {
        TflValidationFile {
            code: investigator.tfl_code(item, &Group::Validation),
            dataset: investigator.tfl_data(item, &Group::Validation),
            log: investigator.tfl_log(item, &Group::Validation),
            qc: investigator.tfl_qc_result(item),
        }
    }
}

/// The auditor of an output.
#[derive(Debug)]
pub struct TflSequenceAuditor {
    item: String,
    production: TflProductionFile,
    validation: TflValidationFile,
}

impl View for TflSequenceAuditor {
    type V = TrackAudit;

    closed spec fn view(&self) -> TrackAudit {
        TrackAudit {
            item: self.item@,
            production: self.production@,
            validation: self.validation@,
        }
    }
}

/// The output is made from the program.
pub open spec fn audit_output(a: TrackAudit) -> SequenceView {
    sequence_of(
        filename_of(a.item, Group::Production, FileType::Output),
        FileType::Output,
        Group::Production,
        held_against(a.production.product, a.production.code, "Code later than output"@),
        a.production.product,
    )
}

/// The audits of the files of an output's production track.
pub open spec fn production_sequences(a: TrackAudit) -> Seq<SequenceView> {
    seq![
        a.audit_code(Group::Production),
        a.audit_dataset(Group::Production),
        audit_output(a),
        a.audit_log(Group::Production, "Output later than log"@, "Qc later than log"@),
    ]
}

/// The audits of the files of an output's validation track.
pub open spec fn validation_sequences(a: TrackAudit) -> Seq<SequenceView> {
    seq![
        a.audit_code(Group::Validation),
        a.audit_dataset(Group::Validation),
        a.audit_qc(),
        a.audit_log(Group::Validation, "Output later than log"@, "Qc later than log"@),
    ]
}

/// The audits of both tracks of an output.
pub open spec fn audits(a: TrackAudit) -> Seq<AuditView> {
    seq![track_audit(production_sequences(a)), track_audit(validation_sequences(a))]
}

/// The audits of both tracks of the output `item`.
pub open spec fn tfl_audits(inv: InvestigatorView, item: Seq<char>) -> Seq<AuditView> {
    audits(
        TrackAudit {
            item,
            production: production_of(inv, item),
            validation: validation_of(inv, item),
        },
    )
}

impl TflSequenceAuditor {
    /// The auditor of the output `item`, with its files as they were seen.
    pub fn new(item: &str, investigator: &Investigator) -> (r: TflSequenceAuditor)
        ensures
            r@ == (TrackAudit {
                item: item@,
                production: production_of(investigator@, item@),
                validation: validation_of(investigator@, item@),
            }),
    {
        let production = TflProductionFile::build(item, investigator);
        let validation = TflValidationFile::build(item, investigator);
        TflSequenceAuditor { item: item.to_owned(), production, validation }
    }

    fn audit_production(&self) -> (r: AuditResult)
        ensures
            r@ == track_audit(production_sequences(self@)),
    {
        let mut sequences: Vec<SequenceResult> = Vec::new();
        sequences.push(self.audit_code(Group::Production));
        sequences.push(self.audit_dataset(Group::Production));
        sequences.push(self.audit_output());
        sequences.push(self.audit_log(Group::Production));
        proof {
            assert(sequences_of(sequences@) =~= production_sequences(self@));
        }
        audit_track(sequences)
    }

    fn audit_validation(&self) -> (r: AuditResult)
        ensures
            r@ == track_audit(validation_sequences(self@)),
    {
        let mut sequences: Vec<SequenceResult> = Vec::new();
        sequences.push(self.audit_code(Group::Validation));
        sequences.push(self.audit_dataset(Group::Validation));
        sequences.push(self.audit_qc());
        sequences.push(self.audit_log(Group::Validation));
        proof {
            assert(sequences_of(sequences@) =~= validation_sequences(self@));
        }
        audit_track(sequences)
    }

    fn audit_code(&self, group: Group) -> (r: SequenceResult)
        ensures
            r@ == self@.audit_code(group),
    {
        let kind = FileType::Code;
        let code = match group {
            Group::Production => self.production.code.as_ref(),
            Group::Validation => self.validation.code.as_ref(),
        };
        audit_file(filename(self.item.as_str(), &group, &kind), kind, group, code, None, "", code)
    }

    fn audit_dataset(&self, group: Group) -> (r: SequenceResult)
        ensures
            r@ == self@.audit_dataset(group),
    {
        let kind = FileType::Data;
        let base = match group {
            Group::Production => self.production.dataset.as_ref(),
            Group::Validation => self.validation.dataset.as_ref(),
        };
        let compare = match group {
            Group::Production => self.production.code.as_ref(),
            Group::Validation => self.validation.code.as_ref(),
        };
        audit_file(
            filename(self.item.as_str(), &group, &kind),
            kind,
            group,
            base,
            compare,
            "Code later than data",
            base,
        )
    }

    fn audit_output(&self) -> (r: SequenceResult)
        ensures
            r@ == audit_output(self@),
    {
        let kind = FileType::Output;
        let base = self.production.output.as_ref();
        let compare = self.production.code.as_ref();
        audit_file(
            filename(self.item.as_str(), &Group::Production, &kind),
            kind,
            Group::Production,
            base,
            compare,
            "Code later than output",
            base,
        )
    }

    fn audit_qc(&self) -> (r: SequenceResult)
        ensures
            r@ == self@.audit_qc(),
    {
        let kind = FileType::Qc;
        let base = self.validation.qc.as_ref();
        let prod_dataset = self.production.dataset.as_ref();
        let val_dataset = self.validation.dataset.as_ref();
        let mut status = auditing(base, val_dataset, "Qc later than val dataset");
        if !status.is_pass() {
            status = auditing(base, prod_dataset, "Qc later than prod dataset");
        }
        SequenceResult {
            name: filename(self.item.as_str(), &Group::Validation, &kind),
            kind,
            status,
            group: Group::Validation,
            modified_at: modified_at_of(base),
        }
    }

    fn audit_log(&self, group: Group) -> (r: SequenceResult)
        ensures
            r@ == self@.audit_log(group, "Output later than log"@, "Qc later than log"@),
    {
        let kind = FileType::Log;
        let base = match group {
            Group::Production => self.production.log.as_ref(),
            Group::Validation => self.validation.log.as_ref(),
        };
        let compare = match group {
            Group::Production => self.production.output.as_ref(),
            Group::Validation => self.validation.qc.as_ref(),
        };
        let message = match group {
            Group::Production => "Output later than log",
            Group::Validation => "Qc later than log",
        };
        audit_file(
            filename(self.item.as_str(), &group, &kind),
            kind,
            group,
            base,
            compare,
            message,
            base,
        )
    }
}

impl SequenceAuditor for TflSequenceAuditor {
    open spec fn audited(&self) -> Seq<AuditView> {
        audits(self@)
    }

    fn audit(&self) -> (r: Vec<AuditResult>) {
        let production = self.audit_production();
        let validation = self.audit_validation();
        let mut r: Vec<AuditResult> = Vec::new();
        r.push(production);
        r.push(validation);
        proof {
            assert(audits_of(r@) =~= audits(self@));
        }
        r
    }
}

} // verus!
