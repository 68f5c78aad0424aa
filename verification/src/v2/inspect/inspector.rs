//! The inspection of the deliverables of a category: for each one the
//! checks of its QC reports and logs, whether coding has started, and the
//! audit of the order of its files.

use vstd::prelude::*;

use crate::sheet::{SheetView, Workbook};
use crate::v2::category::{FileType, Group, Kind};
use crate::v2::config::reader::{config_of, configs_of, read_config, Config, ConfigView};
use crate::v2::error::{message_of, Error, ErrorView};
use crate::v2::inspect::result::{
    check_of, checks_of, find_check, inspections_of, report_status, reported, Checked, CheckedView,
    IndividualResult, IndividualView, InspectionResult, InspectionView, LogResult, LogView,
    QcResult, QcView, Status, StatusView, UNKNOWN_ERROR,
};
use crate::v2::investigator::investigator::{
    found_of, seen_of, File, Found, Investigator, InvestigatorParam, InvestigatorView, Seen,
};
use crate::v2::investigator::utils::{slot_file, supp_of};
use crate::v2::sequence::audit::{audits_of, AuditResult, AuditView, SequenceAuditor};

pub mod adam;
pub mod sdtm;
pub mod tfl;

pub use adam::AdamInspector;
pub use sdtm::SdtmInspector;
pub use tfl::TflInspector;

verus! {

/// What was gathered of a project before its inspection: the files that
/// were seen, and what the validators made of the logs and QC reports
/// among them.
#[derive(Debug, Clone)]
pub struct Evidence {
    pub seen: Vec<Seen>,
    pub checks: Vec<Checked>,
}

/// What a failed check is reported as when the validator gives no reason,
/// in the details of a QC report.
pub const UNKNOWN_REASON: &'static str = "Unknown Reason";

/// The folder of the programs and logs of a category.
pub open spec fn code_dir(kind: Kind) -> Seq<char> {
    match kind {
        Kind::SDTM => crate::v2::investigator::sdtm::CODE_DIR@,
        Kind::ADaM => crate::v2::investigator::adam::CODE_DIR@,
        Kind::TFLs => crate::v2::investigator::tfl::CODE_DIR@,
    }
}

/// The folder of the QC reports of a category.
pub open spec fn qc_dir(kind: Kind) -> Seq<char> {
    match kind {
        Kind::SDTM => crate::v2::investigator::sdtm::QC_DIR@,
        Kind::ADaM => crate::v2::investigator::adam::QC_DIR@,
        Kind::TFLs => crate::v2::investigator::tfl::QC_DIR@,
    }
}

/// The log of a deliverable on a track, if it was seen.
pub open spec fn log_file(inv: InvestigatorView, kind: Kind, item: Seq<char>, group: Group)
    -> Option<Found> {
    slot_file(inv, group, code_dir(kind), item, FileType::Log)
}

/// The program of a deliverable on a track, if it was seen.
pub open spec fn code_file(inv: InvestigatorView, kind: Kind, item: Seq<char>, group: Group)
    -> Option<Found> {
    slot_file(inv, group, code_dir(kind), item, FileType::Code)
}

/// The QC report of a deliverable, or of its supplementary domain, if it
/// was seen.
pub open spec fn qc_file(inv: InvestigatorView, kind: Kind, item: Seq<char>, supp: bool) -> Option<
    Found,
> {
    slot_file(
        inv,
        Group::Validation,
        qc_dir(kind),
        if supp {
            supp_of(item)
        } else {
            item
        },
        FileType::Qc,
    )
}

/// The status of a file that a validator checks: missing when the file
/// was not seen; what the validator reports when it was; the error
/// `failure` when the validator could not work on it.
pub open spec fn checked_status(
    file: Option<Found>,
    checks: Seq<CheckedView>,
    unknown: Seq<char>,
    failure: ErrorView,
) -> Result<StatusView, ErrorView> {
    match file {
        None => Ok(StatusView::Missing),
        Some(f) => match check_of(checks, f.filepath, 0) {
            None => Err(failure),
            Some(v) => Ok(reported(v.status, unknown)),
        },
    }
}

/// Whether coding has started: the program was seen, and was modified
/// after it was created.
pub open spec fn started(code: Option<Found>) -> bool {
    match code {
        Some(f) => f.modified_at != f.created_at,
        None => false,
    }
}

/// The audits of both tracks of a deliverable of a category.
pub open spec fn audits_for(kind: Kind, inv: InvestigatorView, item: Seq<char>, supp: bool) -> Seq<
    AuditView,
> {
    match kind {
        Kind::SDTM => crate::v2::sequence::sdtm::sdtm_audits(inv, item, supp),
        Kind::ADaM => crate::v2::sequence::adam::adam_audits(inv, item),
        Kind::TFLs => crate::v2::sequence::tfl::tfl_audits(inv, item),
    }
}

/// Whether the supplementary domain of a deliverable is looked at: only
/// domains have one.
pub open spec fn looks_at_supp(kind: Kind, c: ConfigView) -> bool {
    kind == Kind::SDTM && c.supp
}

/// What the inspection finds of a track.
pub open spec fn individual(
    kind: Kind,
    inv: InvestigatorView,
    item: Seq<char>,
    group: Group,
    log: StatusView,
    sequence: StatusView,
) -> IndividualView {
    IndividualView { start_coding: started(code_file(inv, kind, item, group)), log, sequence }
}

/// The status of the log of a deliverable on a track.
pub open spec fn log_status(
    kind: Kind,
    inv: InvestigatorView,
    checks: Seq<CheckedView>,
    item: Seq<char>,
    group: Group,
) -> Result<StatusView, ErrorView> {
    checked_status(log_file(inv, kind, item, group), checks, UNKNOWN_ERROR@, ErrorView::LogFailed(item))
}

/// What a QC report fails for when the validator could not work on it.
pub open spec fn unreadable_report() -> Seq<char> {
    message_of(ErrorView::QcFailed)
}

/// The status of a QC report: missing when the report was not seen; what
/// the validator reports when it was; failed, and saying so, when the
/// validator could not work on it. A report that the validator cannot
/// read ends nothing.
pub open spec fn report_status_of(file: Option<Found>, checks: Seq<CheckedView>, unknown: Seq<char>)
    -> StatusView {
    match file {
        None => StatusView::Missing,
        Some(f) => match check_of(checks, f.filepath, 0) {
            None => StatusView::Failed(unreadable_report()),
            Some(v) => reported(v.status, unknown),
        },
    }
}

/// The status of the QC report of a deliverable.
pub open spec fn qc_status(
    kind: Kind,
    inv: InvestigatorView,
    checks: Seq<CheckedView>,
    item: Seq<char>,
    supp: bool,
) -> StatusView {
    report_status_of(qc_file(inv, kind, item, supp), checks, UNKNOWN_ERROR@)
}

/// What the inspection finds of one deliverable. Only a log that the
/// validator could not work on makes it fail: that of the production
/// track first, then that of the validation track.
#[verifier::opaque]
pub open spec fn inspection(
    kind: Kind,
    inv: InvestigatorView,
    checks: Seq<CheckedView>,
    c: ConfigView,
) -> Result<InspectionView, ErrorView> {
    let supp = looks_at_supp(kind, c);
    let audits = audits_for(kind, inv, c.name, supp);
    let qc = qc_status(kind, inv, checks, c.name, false);
    let production_log = log_status(kind, inv, checks, c.name, Group::Production);
    let validation_log = log_status(kind, inv, checks, c.name, Group::Validation);
    let qc_supp = qc_status(kind, inv, checks, c.name, true);
    if production_log is Err {
        Err(production_log->Err_0)
    } else if validation_log is Err {
        Err(validation_log->Err_0)
    } else {
        Ok(
            InspectionView {
                item: c.name,
                qc,
                qc_supp: if supp {
                    Some(qc_supp)
                } else {
                    None
                },
                production_result: individual(
                    kind,
                    inv,
                    c.name,
                    Group::Production,
                    production_log->Ok_0,
                    audits[0].status,
                ),
                validation_result: individual(
                    kind,
                    inv,
                    c.name,
                    Group::Validation,
                    validation_log->Ok_0,
                    audits[1].status,
                ),
            },
        )
    }
}

/// What the inspection finds of the deliverables from index `from` on, or
/// the error of the first log that could not be checked.
pub open spec fn inspections(
    kind: Kind,
    inv: InvestigatorView,
    checks: Seq<CheckedView>,
    configs: Seq<ConfigView>,
    from: int,
) -> Result<Seq<InspectionView>, ErrorView>
    decreases configs.len() - from,
{
    if from < 0 || from >= configs.len() {
        Ok(Seq::empty())
    } else {
        match inspection(kind, inv, checks, configs[from]) {
            Err(e) => Err(e),
            Ok(first) => match inspections(kind, inv, checks, configs, from + 1) {
                Err(e) => Err(e),
                Ok(rest) => Ok(seq![first] + rest),
            },
        }
    }
}

/// Whether an outcome of an inspection is the one that was specified.
pub open spec fn agrees(
    r: Result<Vec<InspectionResult>, Error>,
    expected: Result<Seq<InspectionView>, ErrorView>,
) -> bool {
    match r {
        Ok(list) => expected == Ok::<Seq<InspectionView>, ErrorView>(inspections_of(list@)),
        Err(e) => expected == Err::<Seq<InspectionView>, ErrorView>(e@),
    }
}

/// Whether a status that was computed is the one that was specified.
pub open spec fn status_agrees(r: Result<Status, Error>, expected: Result<StatusView, ErrorView>)
    -> bool {
    match r {
        Ok(s) => expected == Ok::<StatusView, ErrorView>(s@),
        Err(e) => expected == Err::<StatusView, ErrorView>(e@),
    }
}

/// An inspector of the deliverables of a category.
pub trait Inspector {
    /// What the inspection finds.
    spec fn inspected(&self) -> Result<Seq<InspectionView>, ErrorView>;

    /// Inspects every deliverable of the catalog, in the catalog's order.
    /// Fails with the error of the first log that the validator could not
    /// work on.
    fn inspect(&self) -> (r: Result<Vec<InspectionResult>, Error>)
        ensures
            agrees(r, self.inspected()),
    ;
}

/// The status of a file that a validator checks.
pub fn validate_file(file: Option<File>, checks: &Vec<Checked>, unknown: &str, failure: Error) -> (r:
    Result<Status, Error>)
    ensures
        status_agrees(r, checked_status(found_of(file), checks_of(checks@), unknown@, failure@)),
{
    match file {
        Some(file) => match find_check(checks, file.filepath.as_str()) {
            Some(result) => Ok(report_status(&result.status, unknown)),
            None => Err(failure),
        },
        None => Ok(Status::Missing),
    }
}

/// The program of a deliverable on a track.
pub fn find_code(investigator: &Investigator, kind: Kind, item: &str, group: Group) -> (r: Option<
    File,
>)
    ensures
        found_of(r) == code_file(investigator@, kind, item@, group),
{
    match kind {
        Kind::SDTM => match group {
            Group::Production => investigator.sdtm_code_production(item),
            Group::Validation => investigator.sdtm_code_validation(item),
        },
        Kind::ADaM => investigator.adam_code(item, &group),
        Kind::TFLs => investigator.tfl_code(item, &group),
    }
}

/// The log of a deliverable on a track.
pub fn find_log(investigator: &Investigator, kind: Kind, item: &str, group: Group) -> (r: Option<
    File,
>)
    ensures
        found_of(r) == log_file(investigator@, kind, item@, group),
{
    match kind {
        Kind::SDTM => investigator.sdtm_log(item, &group),
        Kind::ADaM => investigator.adam_log(item, &group),
        Kind::TFLs => investigator.tfl_log(item, &group),
    }
}

/// The QC report of a deliverable or of its supplementary domain.
pub fn find_qc(investigator: &Investigator, kind: Kind, item: &str, supp: bool) -> (r: Option<File>)
    ensures
        found_of(r) == qc_file(investigator@, kind, item@, supp),
{
    match kind {
        Kind::SDTM => if supp {
            investigator.sdtm_qc_supp(item)
        } else {
            investigator.sdtm_qc_main(item)
        },
        Kind::ADaM => if supp {
            investigator.probe(
                Group::Validation,
                crate::v2::investigator::adam::QC_DIR,
                crate::text::concat("supp", item).as_str(),
                FileType::Qc,
            )
        } else {
            investigator.adam_qc_result(item)
        },
        Kind::TFLs => if supp {
            investigator.probe(
                Group::Validation,
                crate::v2::investigator::tfl::QC_DIR,
                crate::text::concat("supp", item).as_str(),
                FileType::Qc,
            )
        } else {
            investigator.tfl_qc_result(item)
        },
    }
}

/// Whether coding of a deliverable has started on a track.
pub fn start_coding(investigator: &Investigator, kind: Kind, item: &str, group: Group) -> (r: bool)
    ensures
        r == started(code_file(investigator@, kind, item@, group)),
{
    match find_code(investigator, kind, item, group) {
        Some(file) => file.modified_at != file.created_at,
        None => false,
    }
}

/// The status of the log of a deliverable on a track.
pub fn validate_log(
    investigator: &Investigator,
    checks: &Vec<Checked>,
    kind: Kind,
    item: &str,
    group: Group,
) -> (r: Result<Status, Error>)
    ensures
        status_agrees(r, log_status(kind, investigator@, checks_of(checks@), item@, group)),
{
    let target_file = find_log(investigator, kind, item, group);
    validate_file(target_file, checks, UNKNOWN_ERROR, Error::LogFailed(item.to_owned()))
}

/// The status of a QC report: missing when it was not seen, what the
/// validator reports when it was, and failed when the validator could not
/// work on it.
pub fn validate_report(file: Option<File>, checks: &Vec<Checked>, unknown: &str) -> (r: Status)
    ensures
        r@ == report_status_of(found_of(file), checks_of(checks@), unknown@),
{
    match file {
        Some(file) => match find_check(checks, file.filepath.as_str()) {
            Some(result) => report_status(&result.status, unknown),
            None => Status::Failed(Error::QcFailed.message()),
        },
        None => Status::Missing,
    }
}

/// The status of the QC report of a deliverable or of its supplementary
/// domain.
pub fn validate_qc(
    investigator: &Investigator,
    checks: &Vec<Checked>,
    kind: Kind,
    item: &str,
    supp: bool,
) -> (r: Status)
    ensures
        r@ == qc_status(kind, investigator@, checks_of(checks@), item@, supp),
{
    let target_file = find_qc(investigator, kind, item, supp);
    validate_report(target_file, checks, UNKNOWN_ERROR)
}

/// The statuses of the audits of both tracks of a deliverable.
pub fn sequence_statuses(investigator: &Investigator, kind: Kind, item: &str, supp: bool) -> (r: (
    Status,
    Status,
))
    ensures
        r.0@ == audits_for(kind, investigator@, item@, supp)[0].status,
        r.1@ == audits_for(kind, investigator@, item@, supp)[1].status,
{
    let sequence = crate::v2::sequence::audit::new(item, &kind, supp, investigator);
    let result = sequence.audit();
    assert(audits_of(result@)[0] == result@[0]@);
    assert(audits_of(result@)[1] == result@[1]@);
    (result[0].status.duplicate(), result[1].status.duplicate())
}

/// Inspects one deliverable.
pub fn inspect_item(
    investigator: &Investigator,
    checks: &Vec<Checked>,
    kind: Kind,
    item: &Config,
) -> (r: Result<InspectionResult, Error>)
    ensures
        match r {
            Ok(found) => inspection(kind, investigator@, checks_of(checks@), item@) == Ok::<
                InspectionView,
                ErrorView,
            >(found@),
            Err(e) => inspection(kind, investigator@, checks_of(checks@), item@) == Err::<
                InspectionView,
                ErrorView,
            >(e@),
        },
{
    proof {
        reveal(inspection);
    }
    let supp = match kind {
        Kind::SDTM => item.supp,
        _ => false,
    };
    let name = item.name.as_str();
    let sequence = sequence_statuses(investigator, kind, name, supp);
    let qc = validate_qc(investigator, checks, kind, name, false);
    let production_log = match validate_log(investigator, checks, kind, name, Group::Production) {
        Ok(log) => log,
        Err(e) => {
            return Err(e);
        },
    };
    let validation_log = match validate_log(investigator, checks, kind, name, Group::Validation) {
        Ok(log) => log,
        Err(e) => {
            return Err(e);
        },
    };
    let mut result = InspectionResult {
        item: item.name.clone(),
        qc,
        qc_supp: None,
        production_result: IndividualResult {
            start_coding: start_coding(investigator, kind, name, Group::Production),
            log: production_log,
            sequence: sequence.0,
        },
        validation_result: IndividualResult {
            start_coding: start_coding(investigator, kind, name, Group::Validation),
            log: validation_log,
            sequence: sequence.1,
        },
    };
    if supp {
        result.qc_supp = Some(validate_qc(investigator, checks, kind, name, true));
    }
    Ok(result)
}

/// Inspects every deliverable of a catalog, in its order.
pub fn inspect_all(
    investigator: &Investigator,
    checks: &Vec<Checked>,
    kind: Kind,
    config: &Vec<Config>,
) -> (r: Result<Vec<InspectionResult>, Error>)
    ensures
        agrees(r, inspections(kind, investigator@, checks_of(checks@), configs_of(config@), 0)),
{
    let mut results: Vec<InspectionResult> = Vec::new();
    let mut n: usize = 0;
    let ghost inv = investigator@;
    let ghost chk = checks_of(checks@);
    let ghost all = configs_of(config@);
    proof {
        assert(inspections_of(results@) =~= Seq::empty());
        match inspections(kind, inv, chk, all, 0) {
            Ok(rest) => {
                assert(Seq::<InspectionView>::empty() + rest =~= rest);
            },
            Err(_) => {},
        }
    }
    while n < config.len()
        invariant
            n <= config.len(),
            inv == investigator@,
            chk == checks_of(checks@),
            all == configs_of(config@),
            inspections(kind, inv, chk, all, 0) == (match inspections(kind, inv, chk, all, n as int) {
                Ok(rest) => Ok::<Seq<InspectionView>, ErrorView>(inspections_of(results@) + rest),
                Err(e) => Err::<Seq<InspectionView>, ErrorView>(e),
            }),
        decreases config.len() - n,
    {
        assert(all[n as int] == config@[n as int]@);
        let found = match inspect_item(investigator, checks, kind, &config[n]) {
            Ok(found) => found,
            Err(e) => {
                return Err(e);
            },
        };
        let ghost before = inspections_of(results@);
        let ghost first = found@;
        results.push(found);
        proof {
            assert(inspections_of(results@) =~= before.push(first));
            match inspections(kind, inv, chk, all, n + 1) {
                Ok(rest) => {
                    assert(before + (seq![first] + rest) =~= before.push(first) + rest);
                },
                Err(_) => {},
            }
        }
        n = n + 1;
    }
    proof {
        assert(inspections_of(results@) + Seq::empty() =~= inspections_of(results@));
    }
    Ok(results)
}

/// What the inspection of a project finds: of the deliverables that the
/// catalog lists. The catalog is read first, so a catalog that cannot be
/// read decides the error.
pub open spec fn inspect_of(
    param: InvestigatorParam,
    book: Seq<SheetView>,
    kind: Kind,
    evidence: Evidence,
) -> Result<Seq<InspectionView>, ErrorView> {
    match config_of(book, kind) {
        None => Err(ErrorView::ReadConfigFailed),
        Some(configs) => inspections(
            kind,
            InvestigatorView {
                product: param.product@,
                trial: param.trial@,
                purpose: param.purpose@,
                root: param.root@,
                seen: seen_of(evidence.seen@),
            },
            checks_of(evidence.checks@),
            configs,
            0,
        ),
    }
}

/// Inspects the deliverables that the catalog of a category lists, in the
/// project that `param` names, from what was seen of the project's files
/// and what the validators made of them. Fails with `ReadConfigFailed`
/// when the catalog cannot be read, or with `LogFailed` for the first log
/// that the validator could not work on. A QC report that the validator
/// could not work on fails in its status and ends nothing.
pub fn inspect(param: &InvestigatorParam, config_file: &Workbook, kind: &Kind, evidence: Evidence)
    -> (r: Result<Vec<InspectionResult>, Error>)
    ensures
        agrees(r, inspect_of(*param, config_file@, *kind, evidence)),
{
    let config = match read_config(config_file, kind) {
        Ok(config) => config,
        Err(e) => {
            return Err(e);
        },
    };
    let investigator = Investigator::new(param).with_seen(evidence.seen);
    match kind {
        Kind::SDTM => SdtmInspector::new(investigator, &config, &evidence.checks).inspect(),
        Kind::ADaM => AdamInspector::new(investigator, &config, &evidence.checks).inspect(),
        Kind::TFLs => TflInspector::new(investigator, &config, &evidence.checks).inspect(),
    }
}

/// The result of the check of the log of a deliverable on a track:
/// missing, without rows, when the log was not seen; what the validator
/// made of it when it was.
pub open spec fn log_detail_of(
    inv: InvestigatorView,
    checks: Seq<CheckedView>,
    item: Seq<char>,
    kind: Kind,
    group: Group,
) -> Result<LogView, ErrorView> {
    match log_file(inv, kind, item, group) {
        None => Ok(LogView { status: StatusView::Missing, details: Seq::empty() }),
        Some(f) => match check_of(checks, f.filepath, 0) {
            None => Err(ErrorView::LogFailed(item)),
            Some(v) => Ok(LogView { status: reported(v.status, UNKNOWN_ERROR@), details: v.details }),
        },
    }
}

/// The check of the log of a deliverable on a track, in detail. Fails
/// with `LogFailed` when the log was seen and the validator could not
/// work on it.
pub fn log_detail(
    param: &InvestigatorParam,
    item: &str,
    kind: &Kind,
    group: &Group,
    evidence: Evidence,
) -> (r: Result<LogResult, Error>)
    ensures
        match r {
            Ok(found) => log_detail_of(
                Investigator::spec_with(*param, evidence.seen@),
                checks_of(evidence.checks@),
                item@,
                *kind,
                *group,
            ) == Ok::<LogView, ErrorView>(found@),
            Err(e) => log_detail_of(
                Investigator::spec_with(*param, evidence.seen@),
                checks_of(evidence.checks@),
                item@,
                *kind,
                *group,
            ) == Err::<LogView, ErrorView>(e@),
        },
{
    let investigator = Investigator::new(param).with_seen(evidence.seen);
    match find_log(&investigator, *kind, item, *group) {
        Some(file) => match find_check(&evidence.checks, file.filepath.as_str()) {
            Some(result) => Ok(LogResult::from(result)),
            None => Err(Error::LogFailed(item.to_owned())),
        },
        None => {
            let r = LogResult { status: Status::Missing, details: Vec::new() };
            proof {
                assert(r@.details =~= Seq::empty());
            }
            Ok(r)
        },
    }
}

/// The result of the check of one QC report.
pub open spec fn qc_result_of(
    file: Option<Found>,
    checks: Seq<CheckedView>,
    item_type: Seq<char>,
) -> QcView {
    QcView { item_type, status: report_status_of(file, checks, UNKNOWN_REASON@) }
}

/// The results of the checks of the QC reports of a deliverable: of a
/// domain the main report and the supplementary one, of the others the
/// one report.
pub open spec fn qc_detail_of(
    inv: InvestigatorView,
    checks: Seq<CheckedView>,
    item: Seq<char>,
    kind: Kind,
) -> Seq<QcView> {
    let main = qc_result_of(qc_file(inv, kind, item, false), checks, "main"@);
    let supp = qc_result_of(qc_file(inv, kind, item, true), checks, "supp"@);
    if kind == Kind::SDTM {
        seq![main, supp]
    } else {
        seq![main]
    }
}

/// The views of a list of results of QC checks.
pub open spec fn qc_results_of(list: Seq<QcResult>) -> Seq<QcView> {
    list.map_values(|r: QcResult| r@)
}

/// The checks of the QC reports of a deliverable, in detail. It never
/// fails: a report that the validator could not work on has failed.
pub fn qc_detail(param: &InvestigatorParam, item: &str, kind: &Kind, evidence: Evidence) -> (r:
    Result<Vec<QcResult>, Error>)
    ensures
        r matches Ok(found) && qc_results_of(found@) == qc_detail_of(
            Investigator::spec_with(*param, evidence.seen@),
            checks_of(evidence.checks@),
            item@,
            *kind,
        ),
{
    let investigator = Investigator::new(param).with_seen(evidence.seen);
    let mut results: Vec<QcResult> = Vec::new();
    let main = find_qc(&investigator, *kind, item, false);
    let status = validate_report(main, &evidence.checks, UNKNOWN_REASON);
    results.push(QcResult { item_type: "main".to_owned(), status });
    match kind {
        Kind::SDTM => {
            let supp = find_qc(&investigator, *kind, item, true);
            let status = validate_report(supp, &evidence.checks, UNKNOWN_REASON);
            results.push(QcResult { item_type: "supp".to_owned(), status });
        },
        _ => {},
    }
    proof {
        assert(qc_results_of(results@) =~= qc_detail_of(
            Investigator::spec_with(*param, evidence.seen@),
            checks_of(evidence.checks@),
            item@,
            *kind,
        ));
    }
    Ok(results)
}

/// The audits of both tracks of a deliverable, in detail.
pub fn sequence_detail(
    param: &InvestigatorParam,
    item: &str,
    supp: bool,
    kind: &Kind,
    seen: Vec<Seen>,
) -> (r: Vec<AuditResult>)
    ensures
        audits_of(r@) == audits_for(*kind, Investigator::spec_with(*param, seen@), item@, supp),
{
    let investigator = Investigator::new(param).with_seen(seen);
    let auditor = crate::v2::sequence::audit::new(item, kind, supp, &investigator);
    auditor.audit()
}

} // verus!
